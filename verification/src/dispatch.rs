//! From a key event to what the assistant does about it.

use crate::hotkey::{classify, next_modifier, HotkeyMachine, Signal};
use crate::keys::KeyEvent;
use crate::supervisor::{SupervisorModel, SupervisorOp, TaskId, TaskSupervisor};
use vstd::prelude::*;

verus! {

/// What the caller is to do after a key event.
#[derive(Clone, Copy, Debug, PartialEq, Eq, Structural)]
pub enum Directive {
    /// Nothing.
    Nothing,
    /// Read the clipboard and start a completion: the trigger was pressed.
    Capture,
    /// Ask the given task to stop: it has been taken out of the slot.
    Abort(TaskId),
}

/// The directive that follows from `signal` when the supervisor is in state
/// `supervisor`.
pub open spec fn directive_for(signal: Signal, supervisor: SupervisorModel) -> Directive {
    match signal {
        Signal::Trigger => Directive::Capture,
        Signal::Cancel => match supervisor.slot {
            Some(task) => Directive::Abort(task),
            None => Directive::Nothing,
        },
        _ => Directive::Nothing,
    }
}

/// Handles one key event.
///
/// The hotkey machine classifies the event against the slot as it is now. On
/// cancel the running task is taken out of the slot in the same step and
/// handed back to be stopped. On the trigger the slot is left alone: it is
/// filled once the stream has been started. Every other event changes at most
/// the modifier state.
pub fn dispatch(machine: &mut HotkeyMachine, supervisor: &mut TaskSupervisor, event: KeyEvent) -> (directive:
    Directive)
    ensures
        final(machine).held() == next_modifier(old(machine).held(), event),
        directive == directive_for(
            classify(old(machine).held(), old(supervisor)@.slot is Some, event),
            old(supervisor)@,
        ),
        classify(old(machine).held(), old(supervisor)@.slot is Some, event) == Signal::Cancel
            ==> final(supervisor)@ == old(supervisor)@.apply(SupervisorOp::Cancel),
        classify(old(machine).held(), old(supervisor)@.slot is Some, event) != Signal::Cancel
            ==> final(supervisor)@ == old(supervisor)@,
        directive matches Directive::Abort(task) ==> old(supervisor)@.slot == Some(task)
            && final(supervisor)@.slot is None,
        old(supervisor)@.wf() ==> final(supervisor)@.wf(),
{
    let active = supervisor.is_active();
    match machine.process(event, active) {
        Signal::Trigger => Directive::Capture,
        Signal::Cancel => match supervisor.on_cancel() {
            Some(task) => Directive::Abort(task),
            None => Directive::Nothing,
        },
        _ => Directive::Nothing,
    }
}

} // verus!
