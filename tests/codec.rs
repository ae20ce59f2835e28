use node_config::codec::{
    same_text, spells_word, LogLevel, ShowCalls, ShowGasDetails, ShowStorageLogs, ShowVMDetails,
};

#[test]
fn show_calls_parses_any_case() {
    assert_eq!(ShowCalls::parse("none"), Some(ShowCalls::Off));
    assert_eq!(ShowCalls::parse("User"), Some(ShowCalls::User));
    assert_eq!(ShowCalls::parse("SYSTEM"), Some(ShowCalls::System));
    assert_eq!(ShowCalls::parse("aLL"), Some(ShowCalls::All));
}

#[test]
fn show_calls_rejects_unknown_spellings() {
    assert_eq!(ShowCalls::parse("bogus"), None);
    assert_eq!(ShowCalls::parse(""), None);
    assert_eq!(ShowCalls::parse("users"), None);
    assert_eq!(ShowCalls::parse(" user"), None);
    assert_eq!(ShowCalls::parse("read"), None);
}

#[test]
fn show_calls_renders_variant_names() {
    assert_eq!(ShowCalls::Off.to_string(), "None");
    assert_eq!(ShowCalls::User.to_string(), "User");
    assert_eq!(ShowCalls::System.to_string(), "System");
    assert_eq!(ShowCalls::All.to_string(), "All");
}

#[test]
fn show_storage_logs_codec() {
    assert_eq!(ShowStorageLogs::parse("read"), Some(ShowStorageLogs::Read));
    assert_eq!(ShowStorageLogs::parse("WRITE"), Some(ShowStorageLogs::Write));
    assert_eq!(ShowStorageLogs::parse("None"), Some(ShowStorageLogs::Off));
    assert_eq!(ShowStorageLogs::parse("all"), Some(ShowStorageLogs::All));
    assert_eq!(ShowStorageLogs::parse("user"), None);
    assert_eq!(ShowStorageLogs::Read.to_string(), "Read");
    assert_eq!(ShowStorageLogs::Write.to_string(), "Write");
    assert_eq!(ShowStorageLogs::Off.to_string(), "None");
}

#[test]
fn show_vm_and_gas_details_codec() {
    assert_eq!(ShowVMDetails::parse("all"), Some(ShowVMDetails::All));
    assert_eq!(ShowVMDetails::parse("none"), Some(ShowVMDetails::Off));
    assert_eq!(ShowVMDetails::parse("some"), None);
    assert_eq!(ShowGasDetails::parse("ALL"), Some(ShowGasDetails::All));
    assert_eq!(ShowGasDetails::parse("NONE"), Some(ShowGasDetails::Off));
    assert_eq!(ShowGasDetails::parse("gas"), None);
    assert_eq!(ShowVMDetails::All.to_string(), "All");
    assert_eq!(ShowGasDetails::Off.to_string(), "None");
}

#[test]
fn log_level_is_exact_lower_case() {
    assert_eq!(LogLevel::parse("trace"), Some(LogLevel::Trace));
    assert_eq!(LogLevel::parse("debug"), Some(LogLevel::Debug));
    assert_eq!(LogLevel::parse("info"), Some(LogLevel::Info));
    assert_eq!(LogLevel::parse("warn"), Some(LogLevel::Warn));
    assert_eq!(LogLevel::parse("error"), Some(LogLevel::Error));
    assert_eq!(LogLevel::parse("Debug"), None);
    assert_eq!(LogLevel::parse("warning"), None);
    assert_eq!(LogLevel::Warn.to_string(), "warn");
    assert_eq!(LogLevel::Error.to_string(), "error");
}

#[test]
fn every_value_round_trips_through_its_spelling() {
    for v in [ShowCalls::Off, ShowCalls::User, ShowCalls::System, ShowCalls::All] {
        assert_eq!(ShowCalls::parse(&v.to_string()), Some(v));
    }
    for v in [ShowStorageLogs::Off, ShowStorageLogs::Read, ShowStorageLogs::Write, ShowStorageLogs::All] {
        assert_eq!(ShowStorageLogs::parse(&v.to_string()), Some(v));
    }
    for v in [LogLevel::Trace, LogLevel::Debug, LogLevel::Info, LogLevel::Warn, LogLevel::Error] {
        assert_eq!(LogLevel::parse(&v.to_string()), Some(v));
    }
}

#[test]
fn word_comparisons() {
    assert!(spells_word("UsEr", "user"));
    assert!(!spells_word("usr", "user"));
    assert!(!spells_word("user!", "user"));
    assert!(spells_word("", ""));
    assert!(same_text("debug", "debug"));
    assert!(!same_text("debuG", "debug"));
    assert!(!same_text("debu", "debug"));
}
