use std::sync::Arc;

use node_config::codec::{LogLevel, ShowCalls, ShowGasDetails, ShowStorageLogs, ShowVMDetails};
use node_config::node::{LogControl, NodeState};

struct Quiet;

impl LogControl for Quiet {
    fn set_log_level(&self, _level: LogLevel) -> Result<(), String> {
        Ok(())
    }

    fn set_logging(&self, _directive: &str) -> Result<(), String> {
        Ok(())
    }
}

fn record() -> NodeState<Quiet> {
    NodeState {
        show_calls: ShowCalls::Off,
        show_storage_logs: ShowStorageLogs::Off,
        show_vm_details: ShowVMDetails::Off,
        show_gas_details: ShowGasDetails::Off,
        resolve_hashes: false,
        current_timestamp: 42,
        observability: None,
    }
}

fn toggles(s: &NodeState<Quiet>) -> (ShowCalls, ShowStorageLogs, ShowVMDetails, ShowGasDetails, bool) {
    (s.show_calls, s.show_storage_logs, s.show_vm_details, s.show_gas_details, s.resolve_hashes)
}

#[test]
fn record_set_writes_only_its_field() {
    let mut s = record();
    assert_eq!(s.set_show_calls("user"), "User");
    assert_eq!(toggles(&s), (ShowCalls::User, ShowStorageLogs::Off, ShowVMDetails::Off, ShowGasDetails::Off, false));
    assert_eq!(s.set_show_storage_logs("WRITE"), "Write");
    assert_eq!(s.set_show_vm_details("all"), "All");
    assert_eq!(s.set_show_gas_details("All"), "All");
    assert_eq!(s.set_resolve_hashes(true), true);
    assert_eq!(toggles(&s), (ShowCalls::User, ShowStorageLogs::Write, ShowVMDetails::All, ShowGasDetails::All, true));
    assert_eq!(s.timestamp(), 42);
}

#[test]
fn record_unknown_input_keeps_record() {
    let mut s = record();
    s.set_show_calls("System");
    let before = toggles(&s);
    assert_eq!(s.set_show_calls("bogus"), "System");
    assert_eq!(s.set_show_storage_logs("bogus"), "None");
    assert_eq!(s.set_show_vm_details("bogus"), "None");
    assert_eq!(s.set_show_gas_details("bogus"), "None");
    assert_eq!(toggles(&s), before);
}

#[test]
fn record_set_then_read_text() {
    let mut s = record();
    for v in ["None", "User", "System", "All"] {
        s.set_show_calls(v);
        assert_eq!(s.show_calls_text(), v);
    }
    for v in ["None", "Read", "Write", "All"] {
        s.set_show_storage_logs(v);
        assert_eq!(s.show_storage_logs_text(), v);
    }
    s.set_show_vm_details("All");
    assert_eq!(s.show_vm_details_text(), "All");
    s.set_show_gas_details("All");
    assert_eq!(s.show_gas_details_text(), "All");
}

#[test]
fn record_log_control_is_the_held_handle() {
    let s = record();
    assert!(s.log_control().is_none());
    let ctl = Arc::new(Quiet);
    let mut t = record();
    t.observability = Some(ctl.clone());
    assert!(Arc::ptr_eq(&t.log_control().unwrap(), &ctl));
}
