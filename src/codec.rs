//! Conversion between the external spellings of the diagnostic toggles and
//! their enumerated values.
//!
//! Parsing is ASCII case-insensitive: `"user"`, `"User"` and `"USER"` all name
//! `ShowCalls::User`. Rendering gives the canonical spelling, which is the
//! variant name (`"User"`).

use vstd::prelude::*;

verus! {

/// `c` is the lower-case ASCII letter `w` in either case, or equals `w`.
pub open spec fn folds_to(c: char, w: char) -> bool {
    c == w || ((w as u32) >= 97 && (w as u32) <= 122 && (c as u32) + 32 == (w as u32))
}

/// `s` spells the lower-case word `word`, letters compared without regard to
/// ASCII case.
pub open spec fn spells(s: Seq<char>, word: Seq<char>) -> bool {
    &&& s.len() == word.len()
    &&& forall|i: int| 0 <= i < s.len() ==> folds_to(#[trigger] s[i], word[i])
}

/// Case-insensitive comparison of `s` against the lower-case word `word`.
pub fn spells_word(s: &str, word: &str) -> (r: bool)
    ensures
        r == spells(s@, word@),
{
    let n = s.unicode_len();
    if n != word.unicode_len() {
        return false;
    }
    let mut i: usize = 0;
    while i < n
        invariant
            n == s@.len(),
            n == word@.len(),
            i <= n,
            forall|j: int| 0 <= j < i ==> folds_to(#[trigger] s@[j], word@[j]),
        decreases n - i,
    {
        let c = s.get_char(i);
        let w = word.get_char(i);
        let cu = c as u32;
        let wu = w as u32;
        if !(c == w || (wu >= 97 && wu <= 122 && cu == wu - 32)) {
            return false;
        }
        i = i + 1;
    }
    true
}

/// Exact comparison of two strings, character by character.
pub fn same_text(s: &str, t: &str) -> (r: bool)
    ensures
        r == (s@ == t@),
{
    let n = s.unicode_len();
    if n != t.unicode_len() {
        return false;
    }
    let mut i: usize = 0;
    while i < n
        invariant
            n == s@.len(),
            n == t@.len(),
            i <= n,
            forall|j: int| 0 <= j < i ==> #[trigger] s@[j] == t@[j],
        decreases n - i,
    {
        if s.get_char(i) != t.get_char(i) {
            return false;
        }
        i = i + 1;
    }
    assert(s@ =~= t@);
    true
}

/// Which calls a trace shows.
#[derive(Clone, Copy, Debug, PartialEq, Eq, Structural)]
pub enum ShowCalls {
    /// Spelled `None`.
    Off,
    User,
    System,
    All,
}

impl ShowCalls {
    pub open spec fn spec_parse(s: Seq<char>) -> Option<ShowCalls> {
        if spells(s, seq!['n', 'o', 'n', 'e']) {
            Some(ShowCalls::Off)
        } else if spells(s, seq!['u', 's', 'e', 'r']) {
            Some(ShowCalls::User)
        } else if spells(s, seq!['s', 'y', 's', 't', 'e', 'm']) {
            Some(ShowCalls::System)
        } else if spells(s, seq!['a', 'l', 'l']) {
            Some(ShowCalls::All)
        } else {
            Option::None
        }
    }

    pub open spec fn spec_render(self) -> Seq<char> {
        match self {
            ShowCalls::Off => seq!['N', 'o', 'n', 'e'],
            ShowCalls::User => seq!['U', 's', 'e', 'r'],
            ShowCalls::System => seq!['S', 'y', 's', 't', 'e', 'm'],
            ShowCalls::All => seq!['A', 'l', 'l'],
        }
    }

    /// The value that `s` names, or `None` when it names none.
    pub fn parse(s: &str) -> (r: Option<ShowCalls>)
        ensures
            r == ShowCalls::spec_parse(s@),
    {
        proof {
            reveal_strlit("none");
            reveal_strlit("user");
            reveal_strlit("system");
            reveal_strlit("all");
        }
        if spells_word(s, "none") {
            Some(ShowCalls::Off)
        } else if spells_word(s, "user") {
            Some(ShowCalls::User)
        } else if spells_word(s, "system") {
            Some(ShowCalls::System)
        } else if spells_word(s, "all") {
            Some(ShowCalls::All)
        } else {
            Option::None
        }
    }

    /// The canonical spelling.
    pub fn to_string(&self) -> (r: String)
        ensures
            r@ == self.spec_render(),
    {
        proof {
            reveal_strlit("None");
            reveal_strlit("User");
            reveal_strlit("System");
            reveal_strlit("All");
        }
        match self {
            ShowCalls::Off => "None".to_owned(),
            ShowCalls::User => "User".to_owned(),
            ShowCalls::System => "System".to_owned(),
            ShowCalls::All => "All".to_owned(),
        }
    }

    /// Parsing the canonical spelling gives the value back.
    pub proof fn lemma_parse_render(self)
        ensures
            ShowCalls::spec_parse(self.spec_render()) == Some(self),
    {
    }
}

/// Which storage accesses a trace shows.
#[derive(Clone, Copy, Debug, PartialEq, Eq, Structural)]
pub enum ShowStorageLogs {
    /// Spelled `None`.
    Off,
    Read,
    Write,
    All,
}

impl ShowStorageLogs {
    pub open spec fn spec_parse(s: Seq<char>) -> Option<ShowStorageLogs> {
        if spells(s, seq!['n', 'o', 'n', 'e']) {
            Some(ShowStorageLogs::Off)
        } else if spells(s, seq!['r', 'e', 'a', 'd']) {
            Some(ShowStorageLogs::Read)
        } else if spells(s, seq!['w', 'r', 'i', 't', 'e']) {
            Some(ShowStorageLogs::Write)
        } else if spells(s, seq!['a', 'l', 'l']) {
            Some(ShowStorageLogs::All)
        } else {
            Option::None
        }
    }

    pub open spec fn spec_render(self) -> Seq<char> {
        match self {
            ShowStorageLogs::Off => seq!['N', 'o', 'n', 'e'],
            ShowStorageLogs::Read => seq!['R', 'e', 'a', 'd'],
            ShowStorageLogs::Write => seq!['W', 'r', 'i', 't', 'e'],
            ShowStorageLogs::All => seq!['A', 'l', 'l'],
        }
    }

    /// The value that `s` names, or `None` when it names none.
    pub fn parse(s: &str) -> (r: Option<ShowStorageLogs>)
        ensures
            r == ShowStorageLogs::spec_parse(s@),
    {
        proof {
            reveal_strlit("none");
            reveal_strlit("read");
            reveal_strlit("write");
            reveal_strlit("all");
        }
        if spells_word(s, "none") {
            Some(ShowStorageLogs::Off)
        } else if spells_word(s, "read") {
            Some(ShowStorageLogs::Read)
        } else if spells_word(s, "write") {
            Some(ShowStorageLogs::Write)
        } else if spells_word(s, "all") {
            Some(ShowStorageLogs::All)
        } else {
            Option::None
        }
    }

    /// The canonical spelling.
    pub fn to_string(&self) -> (r: String)
        ensures
            r@ == self.spec_render(),
    {
        proof {
            reveal_strlit("None");
            reveal_strlit("Read");
            reveal_strlit("Write");
            reveal_strlit("All");
        }
        match self {
            ShowStorageLogs::Off => "None".to_owned(),
            ShowStorageLogs::Read => "Read".to_owned(),
            ShowStorageLogs::Write => "Write".to_owned(),
            ShowStorageLogs::All => "All".to_owned(),
        }
    }

    /// Parsing the canonical spelling gives the value back.
    pub proof fn lemma_parse_render(self)
        ensures
            ShowStorageLogs::spec_parse(self.spec_render()) == Some(self),
    {
    }
}

/// How much of the virtual machine's execution a trace shows.
#[derive(Clone, Copy, Debug, PartialEq, Eq, Structural)]
pub enum ShowVMDetails {
    /// Spelled `None`.
    Off,
    All,
}

impl ShowVMDetails {
    pub open spec fn spec_parse(s: Seq<char>) -> Option<ShowVMDetails> {
        if spells(s, seq!['n', 'o', 'n', 'e']) {
            Some(ShowVMDetails::Off)
        } else if spells(s, seq!['a', 'l', 'l']) {
            Some(ShowVMDetails::All)
        } else {
            Option::None
        }
    }

    pub open spec fn spec_render(self) -> Seq<char> {
        match self {
            ShowVMDetails::Off => seq!['N', 'o', 'n', 'e'],
            ShowVMDetails::All => seq!['A', 'l', 'l'],
        }
    }

    /// The value that `s` names, or `None` when it names none.
    pub fn parse(s: &str) -> (r: Option<ShowVMDetails>)
        ensures
            r == ShowVMDetails::spec_parse(s@),
    {
        proof {
            reveal_strlit("none");
            reveal_strlit("all");
        }
        if spells_word(s, "none") {
            Some(ShowVMDetails::Off)
        } else if spells_word(s, "all") {
            Some(ShowVMDetails::All)
        } else {
            Option::None
        }
    }

    /// The canonical spelling.
    pub fn to_string(&self) -> (r: String)
        ensures
            r@ == self.spec_render(),
    {
        proof {
            reveal_strlit("None");
            reveal_strlit("All");
        }
        match self {
            ShowVMDetails::Off => "None".to_owned(),
            ShowVMDetails::All => "All".to_owned(),
        }
    }

    /// Parsing the canonical spelling gives the value back.
    pub proof fn lemma_parse_render(self)
        ensures
            ShowVMDetails::spec_parse(self.spec_render()) == Some(self),
    {
    }
}

/// How much of the gas accounting a trace shows.
#[derive(Clone, Copy, Debug, PartialEq, Eq, Structural)]
pub enum ShowGasDetails {
    /// Spelled `None`.
    Off,
    All,
}

impl ShowGasDetails {
    pub open spec fn spec_parse(s: Seq<char>) -> Option<ShowGasDetails> {
        if spells(s, seq!['n', 'o', 'n', 'e']) {
            Some(ShowGasDetails::Off)
        } else if spells(s, seq!['a', 'l', 'l']) {
            Some(ShowGasDetails::All)
        } else {
            Option::None
        }
    }

    pub open spec fn spec_render(self) -> Seq<char> {
        match self {
            ShowGasDetails::Off => seq!['N', 'o', 'n', 'e'],
            ShowGasDetails::All => seq!['A', 'l', 'l'],
        }
    }

    /// The value that `s` names, or `None` when it names none.
    pub fn parse(s: &str) -> (r: Option<ShowGasDetails>)
        ensures
            r == ShowGasDetails::spec_parse(s@),
    {
        proof {
            reveal_strlit("none");
            reveal_strlit("all");
        }
        if spells_word(s, "none") {
            Some(ShowGasDetails::Off)
        } else if spells_word(s, "all") {
            Some(ShowGasDetails::All)
        } else {
            Option::None
        }
    }

    /// The canonical spelling.
    pub fn to_string(&self) -> (r: String)
        ensures
            r@ == self.spec_render(),
    {
        proof {
            reveal_strlit("None");
            reveal_strlit("All");
        }
        match self {
            ShowGasDetails::Off => "None".to_owned(),
            ShowGasDetails::All => "All".to_owned(),
        }
    }

    /// Parsing the canonical spelling gives the value back.
    pub proof fn lemma_parse_render(self)
        ensures
            ShowGasDetails::spec_parse(self.spec_render()) == Some(self),
    {
    }
}

/// Verbosity of the log subsystem. Spelled in lower case, exactly.
#[derive(Clone, Copy, Debug, PartialEq, Eq, Structural)]
pub enum LogLevel {
    /// Spelled `trace`.
    Trace,
    /// Spelled `debug`.
    Debug,
    /// Spelled `info`.
    Info,
    /// Spelled `warn`.
    Warn,
    /// Spelled `error`.
    Error,
}

impl LogLevel {
    pub open spec fn spec_parse(s: Seq<char>) -> Option<LogLevel> {
        if s == seq!['t', 'r', 'a', 'c', 'e'] {
            Some(LogLevel::Trace)
        } else if s == seq!['d', 'e', 'b', 'u', 'g'] {
            Some(LogLevel::Debug)
        } else if s == seq!['i', 'n', 'f', 'o'] {
            Some(LogLevel::Info)
        } else if s == seq!['w', 'a', 'r', 'n'] {
            Some(LogLevel::Warn)
        } else if s == seq!['e', 'r', 'r', 'o', 'r'] {
            Some(LogLevel::Error)
        } else {
            Option::None
        }
    }

    pub open spec fn spec_render(self) -> Seq<char> {
        match self {
            LogLevel::Trace => seq!['t', 'r', 'a', 'c', 'e'],
            LogLevel::Debug => seq!['d', 'e', 'b', 'u', 'g'],
            LogLevel::Info => seq!['i', 'n', 'f', 'o'],
            LogLevel::Warn => seq!['w', 'a', 'r', 'n'],
            LogLevel::Error => seq!['e', 'r', 'r', 'o', 'r'],
        }
    }

    /// The value that `s` names, or `None` when it names none.
    pub fn parse(s: &str) -> (r: Option<LogLevel>)
        ensures
            r == LogLevel::spec_parse(s@),
    {
        proof {
            reveal_strlit("trace");
            assert("trace"@ =~= seq!['t', 'r', 'a', 'c', 'e']);
            reveal_strlit("debug");
            assert("debug"@ =~= seq!['d', 'e', 'b', 'u', 'g']);
            reveal_strlit("info");
            assert("info"@ =~= seq!['i', 'n', 'f', 'o']);
            reveal_strlit("warn");
            assert("warn"@ =~= seq!['w', 'a', 'r', 'n']);
            reveal_strlit("error");
            assert("error"@ =~= seq!['e', 'r', 'r', 'o', 'r']);
        }
        if same_text(s, "trace") {
            Some(LogLevel::Trace)
        } else if same_text(s, "debug") {
            Some(LogLevel::Debug)
        } else if same_text(s, "info") {
            Some(LogLevel::Info)
        } else if same_text(s, "warn") {
            Some(LogLevel::Warn)
        } else if same_text(s, "error") {
            Some(LogLevel::Error)
        } else {
            Option::None
        }
    }

    /// The canonical spelling.
    pub fn to_string(&self) -> (r: String)
        ensures
            r@ == self.spec_render(),
    {
        proof {
            reveal_strlit("trace");
            reveal_strlit("debug");
            reveal_strlit("info");
            reveal_strlit("warn");
            reveal_strlit("error");
        }
        match self {
            LogLevel::Trace => "trace".to_owned(),
            LogLevel::Debug => "debug".to_owned(),
            LogLevel::Info => "info".to_owned(),
            LogLevel::Warn => "warn".to_owned(),
            LogLevel::Error => "error".to_owned(),
        }
    }

    /// Parsing the canonical spelling gives the value back.
    pub proof fn lemma_parse_render(self)
        ensures
            LogLevel::spec_parse(self.spec_render()) == Some(self),
    {
    }
}

} // verus!
