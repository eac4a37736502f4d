use hotkey_typist::dispatch::{dispatch, Directive};
use hotkey_typist::hotkey::HotkeyMachine;
use hotkey_typist::keys::{Key, KeyEvent};
use hotkey_typist::keystroke::{Keystroke, LogicalKey};
use hotkey_typist::pipeline::{Pipeline, PipelineAction, PipelineEvent};
use hotkey_typist::request::{compose_request, ClipboardError};
use hotkey_typist::settings::Settings;
use hotkey_typist::supervisor::{StreamStartError, TaskSupervisor, TriggerError};

fn press_hotkey(machine: &mut HotkeyMachine, supervisor: &mut TaskSupervisor) -> Directive {
    assert_eq!(
        dispatch(machine, supervisor, KeyEvent::Press(Key::ControlLeft)),
        Directive::Nothing
    );
    dispatch(machine, supervisor, KeyEvent::Press(Key::Space))
}

#[test]
fn hotkey_asks_for_capture_and_leaves_slot_empty() {
    let mut machine = HotkeyMachine::new();
    let mut supervisor = TaskSupervisor::new();
    assert_eq!(press_hotkey(&mut machine, &mut supervisor), Directive::Capture);
    assert_eq!(supervisor.active_task(), None);
    assert!(machine.modifier_held());
}

#[test]
fn space_alone_does_nothing() {
    let mut machine = HotkeyMachine::new();
    let mut supervisor = TaskSupervisor::new();
    assert_eq!(
        dispatch(&mut machine, &mut supervisor, KeyEvent::Press(Key::Space)),
        Directive::Nothing
    );
}

#[test]
fn hotkey_is_suppressed_while_typing() {
    let mut machine = HotkeyMachine::new();
    let mut supervisor = TaskSupervisor::new();
    let task = supervisor.on_trigger(Ok(())).unwrap();
    assert_eq!(press_hotkey(&mut machine, &mut supervisor), Directive::Nothing);
    assert_eq!(supervisor.active_task(), Some(task));
}

#[test]
fn escape_aborts_the_running_task() {
    let mut machine = HotkeyMachine::new();
    let mut supervisor = TaskSupervisor::new();
    let task = supervisor.on_trigger(Ok(())).unwrap();
    assert_eq!(
        dispatch(&mut machine, &mut supervisor, KeyEvent::Press(Key::Escape)),
        Directive::Abort(task)
    );
    assert_eq!(supervisor.active_task(), None);
}

#[test]
fn escape_without_task_does_nothing() {
    let mut machine = HotkeyMachine::new();
    let mut supervisor = TaskSupervisor::new();
    assert_eq!(
        dispatch(&mut machine, &mut supervisor, KeyEvent::Press(Key::Escape)),
        Directive::Nothing
    );
    assert_eq!(supervisor.active_task(), None);
    assert_eq!(supervisor.on_trigger(Ok(())), Ok(0));
}

#[test]
fn releases_and_other_keys_do_nothing() {
    let mut machine = HotkeyMachine::new();
    let mut supervisor = TaskSupervisor::new();
    let task = supervisor.on_trigger(Ok(())).unwrap();
    for event in [
        KeyEvent::Press(Key::Other),
        KeyEvent::Release(Key::Other),
        KeyEvent::Release(Key::Escape),
        KeyEvent::Release(Key::Space),
        KeyEvent::Press(Key::ControlRight),
        KeyEvent::Release(Key::ControlRight),
    ] {
        assert_eq!(dispatch(&mut machine, &mut supervisor, event), Directive::Nothing);
        assert_eq!(supervisor.active_task(), Some(task));
    }
}

#[test]
fn failed_stream_start_leaves_slot_empty_and_types_nothing() {
    let mut machine = HotkeyMachine::new();
    let mut supervisor = TaskSupervisor::new();
    let settings = Settings::with_defaults("k".to_string());
    assert_eq!(press_hotkey(&mut machine, &mut supervisor), Directive::Capture);
    let request = compose_request(&settings, Ok("prompt".to_string()));
    assert!(request.is_ok());
    let started = supervisor.on_trigger(Err(StreamStartError));
    assert_eq!(started, Err(TriggerError::StreamStart));
    assert_eq!(supervisor.active_task(), None);
    assert_eq!(
        dispatch(&mut machine, &mut supervisor, KeyEvent::Press(Key::Space)),
        Directive::Capture
    );
}

#[test]
fn unreadable_clipboard_leaves_slot_empty() {
    let mut machine = HotkeyMachine::new();
    let mut supervisor = TaskSupervisor::new();
    let settings = Settings::with_defaults("k".to_string());
    assert_eq!(press_hotkey(&mut machine, &mut supervisor), Directive::Capture);
    assert_eq!(compose_request(&settings, Err(ClipboardError)), Err(TriggerError::Clipboard));
    assert_eq!(supervisor.active_task(), None);
}

#[test]
fn full_cycle_types_the_answer_and_frees_the_slot() {
    let mut machine = HotkeyMachine::new();
    let mut supervisor = TaskSupervisor::new();
    let settings = Settings { api_key: "k".to_string(), model: "m".to_string(), delay: 2 };

    assert_eq!(press_hotkey(&mut machine, &mut supervisor), Directive::Capture);
    let request = compose_request(&settings, Ok("question".to_string())).unwrap();
    assert_eq!(request.model, "m");
    assert_eq!(request.prompt, "question");
    let task = supervisor.on_trigger(Ok(())).unwrap();
    let mut pipeline = Pipeline::new(task, settings.delay);

    assert_eq!(pipeline.step(PipelineEvent::Resume), PipelineAction::Pull);
    assert_eq!(
        pipeline.step(PipelineEvent::Chunk("Ok".to_string())),
        PipelineAction::Type {
            strokes: vec![
                Keystroke::Down(LogicalKey::Shift),
                Keystroke::Click(LogicalKey::Layout('o')),
                Keystroke::Up(LogicalKey::Shift),
            ],
            pause_ms: 2,
        }
    );
    assert_eq!(
        dispatch(&mut machine, &mut supervisor, KeyEvent::Press(Key::Space)),
        Directive::Nothing
    );
    assert_eq!(
        pipeline.step(PipelineEvent::Resume),
        PipelineAction::Type { strokes: vec![Keystroke::Click(LogicalKey::Layout('k'))], pause_ms: 2 }
    );
    assert_eq!(pipeline.step(PipelineEvent::Resume), PipelineAction::Pull);
    assert_eq!(pipeline.step(PipelineEvent::StreamEnded), PipelineAction::Finish(task));
    assert!(supervisor.on_task_finished(task));
    assert_eq!(supervisor.active_task(), None);
    assert_eq!(
        dispatch(&mut machine, &mut supervisor, KeyEvent::Press(Key::Space)),
        Directive::Capture
    );
}

#[test]
fn cancelled_cycle_stops_typing_and_allows_a_new_one() {
    let mut machine = HotkeyMachine::new();
    let mut supervisor = TaskSupervisor::new();
    assert_eq!(press_hotkey(&mut machine, &mut supervisor), Directive::Capture);
    let task = supervisor.on_trigger(Ok(())).unwrap();
    let mut pipeline = Pipeline::new(task, 10);
    pipeline.step(PipelineEvent::Chunk("long answer".to_string()));

    assert_eq!(
        dispatch(&mut machine, &mut supervisor, KeyEvent::Press(Key::Escape)),
        Directive::Abort(task)
    );
    assert_eq!(pipeline.step(PipelineEvent::Cancelled), PipelineAction::Finish(task));
    assert!(!supervisor.on_task_finished(task));
    assert_eq!(pipeline.step(PipelineEvent::Resume), PipelineAction::Halt);

    assert_eq!(
        dispatch(&mut machine, &mut supervisor, KeyEvent::Press(Key::Space)),
        Directive::Capture
    );
    assert_eq!(supervisor.on_trigger(Ok(())), Ok(task + 1));
}
