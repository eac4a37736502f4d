//! The hotkey state machine.
//!
//! It watches every key event, remembers whether a control key is held, and
//! classifies each event: the trigger combination, the cancel key, a change
//! of the modifier, or nothing of interest.

use crate::keys::{Key, KeyEvent};
use vstd::prelude::*;

verus! {

/// What a key event means to the assistant.
#[derive(Clone, Copy, Debug, PartialEq, Eq, Structural)]
pub enum Signal {
    /// Nothing of interest.
    Ignore,
    /// The trigger combination was pressed while no task was running.
    Trigger,
    /// The cancel key was pressed while a task was running.
    Cancel,
    /// A control key went down.
    ModifierDown,
    /// A control key came up.
    ModifierUp,
}

/// The modifier state after `event`, given the state before it.
pub open spec fn next_modifier(held: bool, event: KeyEvent) -> bool {
    if event.is_control_press() {
        true
    } else if event.is_control_release() {
        false
    } else {
        held
    }
}

/// The meaning of `event`, given whether the modifier is held and whether a
/// typing task is running.
pub open spec fn classify(held: bool, task_active: bool, event: KeyEvent) -> Signal {
    match event {
        KeyEvent::Press(key) => {
            if key.is_control() {
                Signal::ModifierDown
            } else if task_active {
                if key == Key::Escape {
                    Signal::Cancel
                } else {
                    Signal::Ignore
                }
            } else if held && key == Key::Space {
                Signal::Trigger
            } else {
                Signal::Ignore
            }
        },
        KeyEvent::Release(key) => {
            if key.is_control() {
                Signal::ModifierUp
            } else {
                Signal::Ignore
            }
        },
    }
}

/// The modifier state after all of `events`, starting from `held`.
pub open spec fn modifier_after(held: bool, events: Seq<KeyEvent>) -> bool
    decreases events.len(),
{
    if events.len() == 0 {
        held
    } else {
        next_modifier(modifier_after(held, events.drop_last()), events.last())
    }
}

/// Whether `events[i]` is the most recent control-key event of `events`.
pub open spec fn is_latest_control_event(events: Seq<KeyEvent>, i: int) -> bool {
    &&& 0 <= i < events.len()
    &&& events[i].is_control_event()
    &&& forall|j: int| i < j < events.len() ==> !(#[trigger] events[j]).is_control_event()
}

/// Whether no event of `events` concerns a control key.
pub open spec fn no_control_event(events: Seq<KeyEvent>) -> bool {
    forall|j: int| 0 <= j < events.len() ==> !(#[trigger] events[j]).is_control_event()
}

/// The state machine that recognises the hotkey.
///
/// It has two states: idle, and modifier held.
#[derive(Clone, Copy, Debug)]
pub struct HotkeyMachine {
    modifier_held: bool,
}

impl HotkeyMachine {
    /// Whether a control key is currently held.
    pub closed spec fn held(&self) -> bool {
        self.modifier_held
    }

    /// A machine in the idle state.
    pub fn new() -> (machine: Self)
        ensures
            !machine.held(),
    {
        HotkeyMachine { modifier_held: false }
    }

    /// Whether a control key is currently held.
    pub fn modifier_held(&self) -> (held: bool)
        ensures
            held == self.held(),
    {
        self.modifier_held
    }

    /// Takes one key event and says what it means.
    ///
    /// `task_active` tells whether a typing task is running at this moment.
    /// A control key updates the modifier state. The trigger is reported only
    /// for a press of space while the modifier is held and no task is running;
    /// cancel only for a press of escape while a task is running, whatever the
    /// modifier state.
    pub fn process(&mut self, event: KeyEvent, task_active: bool) -> (signal: Signal)
        ensures
            signal == classify(old(self).held(), task_active, event),
            final(self).held() == next_modifier(old(self).held(), event),
            signal == Signal::Trigger <==> old(self).held() && !task_active && event
                == KeyEvent::Press(Key::Space),
            signal == Signal::Cancel <==> task_active && event == KeyEvent::Press(Key::Escape),
            signal == Signal::ModifierDown <==> event.is_control_press(),
            signal == Signal::ModifierUp <==> event.is_control_release(),
    {
        match event {
            KeyEvent::Press(key) => {
                if key.check_control() {
                    self.modifier_held = true;
                    Signal::ModifierDown
                } else if task_active {
                    if key == Key::Escape {
                        Signal::Cancel
                    } else {
                        Signal::Ignore
                    }
                } else if self.modifier_held && key == Key::Space {
                    Signal::Trigger
                } else {
                    Signal::Ignore
                }
            },
            KeyEvent::Release(key) => {
                if key.check_control() {
                    self.modifier_held = false;
                    Signal::ModifierUp
                } else {
                    Signal::Ignore
                }
            },
        }
    }
}

/// The modifier state depends on the most recent control-key event alone.
///
/// After any sequence of events the modifier is held if and only if the most
/// recent control-key event was a press, or there was no control-key event and
/// the modifier was held to begin with.
pub proof fn lemma_modifier_follows_latest_control_event(held: bool, events: Seq<KeyEvent>)
    ensures
        modifier_after(held, events) <==> {
            ||| exists|i: int|
                is_latest_control_event(events, i) && (#[trigger] events[i]).is_control_press()
            ||| held && no_control_event(events)
        },
    decreases events.len(),
{
    if events.len() > 0 {
        let prefix = events.drop_last();
        let last = events.len() - 1;
        lemma_modifier_follows_latest_control_event(held, prefix);
        assert(forall|j: int| 0 <= j < prefix.len() ==> prefix[j] == events[j]);
        if events[last].is_control_event() {
            assert(is_latest_control_event(events, last));
            assert(!no_control_event(events));
            assert forall|i: int| is_latest_control_event(events, i) implies i == last by {
                if i < last {
                    assert(events[last].is_control_event());
                }
            }
        } else {
            assert forall|i: int| is_latest_control_event(prefix, i) implies is_latest_control_event(
                events,
                i,
            ) by {
                assert forall|j: int| i < j < events.len() implies !(#[trigger] events[j]).is_control_event() by {
                    if j < last {
                        assert(prefix[j] == events[j]);
                    }
                }
            }
            assert forall|i: int| is_latest_control_event(events, i) implies is_latest_control_event(
                prefix,
                i,
            ) by {
                assert(i != last);
                assert forall|j: int| i < j < prefix.len() implies !(#[trigger] prefix[j]).is_control_event() by {
                    assert(prefix[j] == events[j]);
                }
            }
            assert(no_control_event(prefix) <==> no_control_event(events)) by {
                if no_control_event(prefix) {
                    assert forall|j: int| 0 <= j < events.len() implies !(#[trigger] events[j]).is_control_event() by {
                        if j < last {
                            assert(prefix[j] == events[j]);
                        }
                    }
                }
                if no_control_event(events) {
                    assert forall|j: int| 0 <= j < prefix.len() implies !(#[trigger] prefix[j]).is_control_event() by {
                        assert(prefix[j] == events[j]);
                    }
                }
            }
        }
    }
}

/// A machine that starts idle holds the modifier exactly when the most recent
/// control-key event was a press, one not yet followed by a release.
pub proof fn lemma_idle_start_modifier(events: Seq<KeyEvent>)
    ensures
        modifier_after(false, events) <==> exists|i: int|
            is_latest_control_event(events, i) && (#[trigger] events[i]).is_control_press(),
{
    lemma_modifier_follows_latest_control_event(false, events);
}

} // verus!
