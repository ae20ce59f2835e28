//! The node's settings record, shared between concurrent callers behind a
//! reader/writer lock, and the interface of the optional log controller.

use std::sync::Arc;
use vstd::prelude::*;
use vstd::rwlock::{RwLock, RwLockPredicate};

use crate::codec::{LogLevel, ShowCalls, ShowGasDetails, ShowStorageLogs, ShowVMDetails};

verus! {

/// An external subsystem that controls log output. Each call reports whether
/// the subsystem took the change; the error carries the cause.
pub trait LogControl {
    fn set_log_level(&self, level: LogLevel) -> Result<(), String>;

    fn set_logging(&self, directive: &str) -> Result<(), String>;
}

/// The settings that the configuration surface reads and writes.
pub struct NodeState<L> {
    pub show_calls: ShowCalls,
    pub show_storage_logs: ShowStorageLogs,
    pub show_vm_details: ShowVMDetails,
    pub show_gas_details: ShowGasDetails,
    pub resolve_hashes: bool,
    /// Advanced elsewhere in the node; only read here.
    pub current_timestamp: u64,
    /// Given when the node starts; present or absent for the record's whole
    /// life.
    pub observability: Option<Arc<L>>,
}

impl<L> NodeState<L> {
    /// The record after `set(show_calls, raw)`: the value that `raw` names, or
    /// the record unchanged when it names none.
    pub open spec fn after_set_show_calls(self, raw: Seq<char>) -> Self {
        match ShowCalls::spec_parse(raw) {
            Some(v) => NodeState { show_calls: v, ..self },
            None => self,
        }
    }

    pub open spec fn after_set_show_storage_logs(self, raw: Seq<char>) -> Self {
        match ShowStorageLogs::spec_parse(raw) {
            Some(v) => NodeState { show_storage_logs: v, ..self },
            None => self,
        }
    }

    pub open spec fn after_set_show_vm_details(self, raw: Seq<char>) -> Self {
        match ShowVMDetails::spec_parse(raw) {
            Some(v) => NodeState { show_vm_details: v, ..self },
            None => self,
        }
    }

    pub open spec fn after_set_show_gas_details(self, raw: Seq<char>) -> Self {
        match ShowGasDetails::spec_parse(raw) {
            Some(v) => NodeState { show_gas_details: v, ..self },
            None => self,
        }
    }

    pub open spec fn after_set_resolve_hashes(self, value: bool) -> Self {
        NodeState { resolve_hashes: value, ..self }
    }

    /// Sets `show_calls` to the value that `raw` names; where it names none the
    /// record is left as it is. Returns the spelling of the value now held.
    pub fn set_show_calls(&mut self, raw: &str) -> (r: String)
        ensures
            *final(self) == old(self).after_set_show_calls(raw@),
            r@ == final(self).show_calls.spec_render(),
    {
        if let Some(v) = ShowCalls::parse(raw) {
            self.show_calls = v;
        }
        self.show_calls.to_string()
    }

    /// The spelling of the current `show_calls`.
    pub fn show_calls_text(&self) -> (r: String)
        ensures
            r@ == self.show_calls.spec_render(),
    {
        self.show_calls.to_string()
    }

    /// Sets `show_storage_logs` to the value that `raw` names; where it names none the
    /// record is left as it is. Returns the spelling of the value now held.
    pub fn set_show_storage_logs(&mut self, raw: &str) -> (r: String)
        ensures
            *final(self) == old(self).after_set_show_storage_logs(raw@),
            r@ == final(self).show_storage_logs.spec_render(),
    {
        if let Some(v) = ShowStorageLogs::parse(raw) {
            self.show_storage_logs = v;
        }
        self.show_storage_logs.to_string()
    }

    /// The spelling of the current `show_storage_logs`.
    pub fn show_storage_logs_text(&self) -> (r: String)
        ensures
            r@ == self.show_storage_logs.spec_render(),
    {
        self.show_storage_logs.to_string()
    }

    /// Sets `show_vm_details` to the value that `raw` names; where it names none the
    /// record is left as it is. Returns the spelling of the value now held.
    pub fn set_show_vm_details(&mut self, raw: &str) -> (r: String)
        ensures
            *final(self) == old(self).after_set_show_vm_details(raw@),
            r@ == final(self).show_vm_details.spec_render(),
    {
        if let Some(v) = ShowVMDetails::parse(raw) {
            self.show_vm_details = v;
        }
        self.show_vm_details.to_string()
    }

    /// The spelling of the current `show_vm_details`.
    pub fn show_vm_details_text(&self) -> (r: String)
        ensures
            r@ == self.show_vm_details.spec_render(),
    {
        self.show_vm_details.to_string()
    }

    /// Sets `show_gas_details` to the value that `raw` names; where it names none the
    /// record is left as it is. Returns the spelling of the value now held.
    pub fn set_show_gas_details(&mut self, raw: &str) -> (r: String)
        ensures
            *final(self) == old(self).after_set_show_gas_details(raw@),
            r@ == final(self).show_gas_details.spec_render(),
    {
        if let Some(v) = ShowGasDetails::parse(raw) {
            self.show_gas_details = v;
        }
        self.show_gas_details.to_string()
    }

    /// The spelling of the current `show_gas_details`.
    pub fn show_gas_details_text(&self) -> (r: String)
        ensures
            r@ == self.show_gas_details.spec_render(),
    {
        self.show_gas_details.to_string()
    }

    /// Sets `resolve_hashes`; every value is accepted.
    pub fn set_resolve_hashes(&mut self, value: bool) -> (r: bool)
        ensures
            *final(self) == old(self).after_set_resolve_hashes(value),
            r == value,
    {
        self.resolve_hashes = value;
        self.resolve_hashes
    }

    pub fn timestamp(&self) -> (r: u64)
        ensures
            r == self.current_timestamp,
    {
        self.current_timestamp
    }

    /// A handle on the log controller, if the record holds one.
    pub fn log_control(&self) -> (r: Option<Arc<L>>)
        ensures
            r == self.observability,
    {
        match &self.observability {
            Some(ctl) => Some(Arc::clone(ctl)),
            None => None,
        }
    }
}

/// Setting a toggle to the canonical spelling of its current value (through
/// `set_show_calls` and its siblings) leaves the record as it was, so the
/// value returned is the current one.
pub proof fn lemma_set_to_current_is_identity<L>(s: NodeState<L>)
    ensures
        s.after_set_show_calls(s.show_calls.spec_render()) == s,
        s.after_set_show_storage_logs(s.show_storage_logs.spec_render()) == s,
        s.after_set_show_vm_details(s.show_vm_details.spec_render()) == s,
        s.after_set_show_gas_details(s.show_gas_details.spec_render()) == s,
        s.after_set_resolve_hashes(s.resolve_hashes) == s,
{
    s.show_calls.lemma_parse_render();
    s.show_storage_logs.lemma_parse_render();
    s.show_vm_details.lemma_parse_render();
    s.show_gas_details.lemma_parse_render();
}

/// Input that names no value leaves the record unchanged, so what a set
/// returns is what a read (`show_calls_text` and its siblings) just before it
/// returned.
pub proof fn lemma_unrecognized_input_keeps_record<L>(s: NodeState<L>, raw: Seq<char>)
    ensures
        ShowCalls::spec_parse(raw) is None ==> s.after_set_show_calls(raw) == s,
        ShowStorageLogs::spec_parse(raw) is None ==> s.after_set_show_storage_logs(raw) == s,
        ShowVMDetails::spec_parse(raw) is None ==> s.after_set_show_vm_details(raw) == s,
        ShowGasDetails::spec_parse(raw) is None ==> s.after_set_show_gas_details(raw) == s,
{
}

/// After setting a toggle to a canonical spelling, reading it back gives that
/// spelling, and the field holds the value so spelled.
pub proof fn lemma_set_then_read<L>(
    s: NodeState<L>,
    calls: ShowCalls,
    storage: ShowStorageLogs,
    vm: ShowVMDetails,
    gas: ShowGasDetails,
    resolve: bool,
)
    ensures
        s.after_set_show_calls(calls.spec_render()).show_calls.spec_render() == calls.spec_render(),
        s.after_set_show_storage_logs(storage.spec_render()).show_storage_logs.spec_render()
            == storage.spec_render(),
        s.after_set_show_vm_details(vm.spec_render()).show_vm_details.spec_render()
            == vm.spec_render(),
        s.after_set_show_gas_details(gas.spec_render()).show_gas_details.spec_render()
            == gas.spec_render(),
        s.after_set_resolve_hashes(resolve).resolve_hashes == resolve,
{
    calls.lemma_parse_render();
    storage.lemma_parse_render();
    vm.lemma_parse_render();
    gas.lemma_parse_render();
}

/// What the lock keeps true of the record: a log controller is present
/// exactly when one was present at start.
pub struct NodeStatePred {
    pub has_log_control: bool,
}

impl<L> RwLockPredicate<NodeState<L>> for NodeStatePred {
    open spec fn inv(self, v: NodeState<L>) -> bool {
        v.observability.is_some() == self.has_log_control
    }
}

/// The record as the node shares it.
pub type SharedNodeState<L> = RwLock<NodeState<L>, NodeStatePred>;

/// Puts `state` behind a reader/writer lock, to be shared.
pub fn share<L>(state: NodeState<L>) -> (r: Arc<SharedNodeState<L>>)
    ensures
        r.pred().has_log_control == state.observability.is_some(),
{
    let has = state.observability.is_some();
    Arc::new(RwLock::new(state, Ghost(NodeStatePred { has_log_control: has })))
}

} // verus!
