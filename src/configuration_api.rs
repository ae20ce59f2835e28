//! The configuration operations: one to read or set each toggle, and two that
//! forward logging changes to the optional log controller.
//!
//! Each operation takes the lock for as short a time as it can, and does its
//! work on the record through one of `NodeState`'s own operations: a reader's
//! lock for a read, a writer's lock for one field's write. Input that names no
//! value never takes the writer's lock. The log controller is called with no
//! lock held.
//!
//! The lock is vstd's spin lock, which has no poisoned state: no operation
//! here fails. A holder that panicked would leave later callers waiting on
//! the lock for ever; nothing here panics while holding it.

use std::sync::Arc;
use vstd::prelude::*;

use crate::codec::{LogLevel, ShowCalls, ShowGasDetails, ShowStorageLogs, ShowVMDetails};
use crate::node::{LogControl, NodeState, SharedNodeState};

verus! {

/// Whether a change handed to the log controller took effect.
pub fn change_applied(outcome: &Result<(), String>) -> (r: bool)
    ensures
        r == outcome is Ok,
{
    outcome.is_ok()
}

/// The configuration surface over a shared node record.
pub struct ConfigurationApiNamespace<L> {
    node: Arc<SharedNodeState<L>>,
}

impl<L> ConfigurationApiNamespace<L> {
    /// The shared record this surface works on.
    pub closed spec fn shared(&self) -> Arc<SharedNodeState<L>> {
        self.node
    }

    /// Whether the record holds a log controller; fixed for the record's life.
    pub open spec fn has_log_control(&self) -> bool {
        self.shared().pred().has_log_control
    }

    pub fn new(node: Arc<SharedNodeState<L>>) -> (r: Self)
        ensures
            r.shared() == node,
    {
        Self { node }
    }
}

impl<L: LogControl> ConfigurationApiNamespace<L> {
    /// The canonical spelling of the current `show_calls`.
    pub fn config_get_show_calls(&self) -> (r: String)
        ensures
            exists|s: NodeState<L>| self.shared().inv(s) && r@ == #[trigger] s.show_calls.spec_render(),
    {
        let reader = self.node.acquire_read();
        let r = reader.borrow().show_calls_text();
        assert(self.shared().inv(reader.view()) && r@ == reader.view().show_calls.spec_render());
        reader.release_read();
        r
    }

    /// The node's current timestamp.
    pub fn config_get_current_timestamp(&self) -> (r: u64)
        ensures
            exists|s: NodeState<L>| self.shared().inv(s) && r == #[trigger] s.current_timestamp,
    {
        let reader = self.node.acquire_read();
        let r = reader.borrow().timestamp();
        assert(self.shared().inv(reader.view()) && r == reader.view().current_timestamp);
        reader.release_read();
        r
    }

    /// Sets `show_calls` to the value that `value` names. Where it names none,
    /// nothing is written and the current value is returned, as though the
    /// call had succeeded. Returns the canonical spelling of the value now
    /// in force.
    pub fn config_set_show_calls(&self, value: String) -> (r: String)
        ensures
            exists|s: NodeState<L>|
                self.shared().inv(s) && r@ == #[trigger] s.after_set_show_calls(value@).show_calls.spec_render(),
            ShowCalls::spec_parse(value@) matches Some(v) ==> r@ == v.spec_render(),
    {
        if ShowCalls::parse(value.as_str()).is_some() {
            let (mut inner, handle) = self.node.acquire_write();
            let ghost before = inner;
            let r = inner.set_show_calls(value.as_str());
            assert(self.shared().inv(before) && r@ == before.after_set_show_calls(value@).show_calls.spec_render());
            handle.release_write(inner);
            r
        } else {
            let reader = self.node.acquire_read();
            let r = reader.borrow().show_calls_text();
            assert(self.shared().inv(reader.view()) && r@ == reader.view().after_set_show_calls(value@).show_calls.spec_render());
            reader.release_read();
            r
        }
    }
    /// Sets `show_storage_logs` to the value that `value` names. Where it names none,
    /// nothing is written and the current value is returned, as though the
    /// call had succeeded. Returns the canonical spelling of the value now
    /// in force.
    pub fn config_set_show_storage_logs(&self, value: String) -> (r: String)
        ensures
            exists|s: NodeState<L>|
                self.shared().inv(s) && r@ == #[trigger] s.after_set_show_storage_logs(value@).show_storage_logs.spec_render(),
            ShowStorageLogs::spec_parse(value@) matches Some(v) ==> r@ == v.spec_render(),
    {
        if ShowStorageLogs::parse(value.as_str()).is_some() {
            let (mut inner, handle) = self.node.acquire_write();
            let ghost before = inner;
            let r = inner.set_show_storage_logs(value.as_str());
            assert(self.shared().inv(before) && r@ == before.after_set_show_storage_logs(value@).show_storage_logs.spec_render());
            handle.release_write(inner);
            r
        } else {
            let reader = self.node.acquire_read();
            let r = reader.borrow().show_storage_logs_text();
            assert(self.shared().inv(reader.view()) && r@ == reader.view().after_set_show_storage_logs(value@).show_storage_logs.spec_render());
            reader.release_read();
            r
        }
    }
    /// Sets `show_vm_details` to the value that `value` names. Where it names none,
    /// nothing is written and the current value is returned, as though the
    /// call had succeeded. Returns the canonical spelling of the value now
    /// in force.
    pub fn config_set_show_vm_details(&self, value: String) -> (r: String)
        ensures
            exists|s: NodeState<L>|
                self.shared().inv(s) && r@ == #[trigger] s.after_set_show_vm_details(value@).show_vm_details.spec_render(),
            ShowVMDetails::spec_parse(value@) matches Some(v) ==> r@ == v.spec_render(),
    {
        if ShowVMDetails::parse(value.as_str()).is_some() {
            let (mut inner, handle) = self.node.acquire_write();
            let ghost before = inner;
            let r = inner.set_show_vm_details(value.as_str());
            assert(self.shared().inv(before) && r@ == before.after_set_show_vm_details(value@).show_vm_details.spec_render());
            handle.release_write(inner);
            r
        } else {
            let reader = self.node.acquire_read();
            let r = reader.borrow().show_vm_details_text();
            assert(self.shared().inv(reader.view()) && r@ == reader.view().after_set_show_vm_details(value@).show_vm_details.spec_render());
            reader.release_read();
            r
        }
    }
    /// Sets `show_gas_details` to the value that `value` names. Where it names none,
    /// nothing is written and the current value is returned, as though the
    /// call had succeeded. Returns the canonical spelling of the value now
    /// in force.
    pub fn config_set_show_gas_details(&self, value: String) -> (r: String)
        ensures
            exists|s: NodeState<L>|
                self.shared().inv(s) && r@ == #[trigger] s.after_set_show_gas_details(value@).show_gas_details.spec_render(),
            ShowGasDetails::spec_parse(value@) matches Some(v) ==> r@ == v.spec_render(),
    {
        if ShowGasDetails::parse(value.as_str()).is_some() {
            let (mut inner, handle) = self.node.acquire_write();
            let ghost before = inner;
            let r = inner.set_show_gas_details(value.as_str());
            assert(self.shared().inv(before) && r@ == before.after_set_show_gas_details(value@).show_gas_details.spec_render());
            handle.release_write(inner);
            r
        } else {
            let reader = self.node.acquire_read();
            let r = reader.borrow().show_gas_details_text();
            assert(self.shared().inv(reader.view()) && r@ == reader.view().after_set_show_gas_details(value@).show_gas_details.spec_render());
            reader.release_read();
            r
        }
    }

    /// Sets `resolve_hashes`; every value is accepted.
    pub fn config_set_resolve_hashes(&self, value: bool) -> (r: bool)
        ensures
            r == value,
    {
        let (mut inner, handle) = self.node.acquire_write();
        let r = inner.set_resolve_hashes(value);
        handle.release_write(inner);
        r
    }

    /// The log controller, copied out under the reader's lock.
    fn log_control(&self) -> (r: Option<Arc<L>>)
        ensures
            r is Some == self.has_log_control(),
    {
        let reader = self.node.acquire_read();
        let r = reader.borrow().log_control();
        reader.release_read();
        r
    }

    /// Hands `level` to the log controller and returns what it answered,
    /// the error carrying the cause. Without a controller there is nothing
    /// to change, and the call succeeds.
    pub fn apply_log_level(&self, level: LogLevel) -> (r: Result<(), String>)
        ensures
            !self.has_log_control() ==> r is Ok,
    {
        match self.log_control() {
            Some(ctl) => ctl.set_log_level(level),
            None => Ok(()),
        }
    }

    /// Hands the filter `directive` (such as `"my_crate=debug,other=warn"`)
    /// to the log controller and returns what it answered. Without a
    /// controller there is nothing to change, and the call succeeds.
    pub fn apply_logging(&self, directive: &str) -> (r: Result<(), String>)
        ensures
            !self.has_log_control() ==> r is Ok,
    {
        match self.log_control() {
            Some(ctl) => ctl.set_logging(directive),
            None => Ok(()),
        }
    }

    /// Sets the log level; `true` when the change took effect or there is no
    /// log controller.
    pub fn config_set_log_level(&self, level: LogLevel) -> (r: bool)
        ensures
            !self.has_log_control() ==> r,
    {
        change_applied(&self.apply_log_level(level))
    }

    /// Sets a logging directive; `true` when the change took effect or there
    /// is no log controller.
    pub fn config_set_logging(&self, directive: String) -> (r: bool)
        ensures
            !self.has_log_control() ==> r,
    {
        change_applied(&self.apply_logging(directive.as_str()))
    }
}

} // verus!
