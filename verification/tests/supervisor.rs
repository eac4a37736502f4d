use hotkey_typist::supervisor::{StreamStartError, TaskSupervisor, TriggerError};

#[test]
fn new_supervisor_has_empty_slot() {
    let supervisor = TaskSupervisor::new();
    assert_eq!(supervisor.active_task(), None);
    assert!(!supervisor.is_active());
}

#[test]
fn trigger_fills_empty_slot() {
    let mut supervisor = TaskSupervisor::new();
    assert_eq!(supervisor.on_trigger(Ok(())), Ok(0));
    assert_eq!(supervisor.active_task(), Some(0));
    assert!(supervisor.is_active());
}

#[test]
fn failed_stream_start_leaves_slot_empty() {
    let mut supervisor = TaskSupervisor::new();
    assert_eq!(supervisor.on_trigger(Err(StreamStartError)), Err(TriggerError::StreamStart));
    assert_eq!(supervisor.active_task(), None);
    assert_eq!(supervisor.on_trigger(Ok(())), Ok(0));
}

#[test]
fn trigger_does_not_overwrite_occupied_slot() {
    let mut supervisor = TaskSupervisor::new();
    assert_eq!(supervisor.on_trigger(Ok(())), Ok(0));
    assert_eq!(supervisor.on_trigger(Ok(())), Err(TriggerError::Busy));
    assert_eq!(supervisor.active_task(), Some(0));
    assert_eq!(supervisor.on_trigger(Err(StreamStartError)), Err(TriggerError::StreamStart));
    assert_eq!(supervisor.active_task(), Some(0));
}

#[test]
fn cancel_clears_occupied_slot() {
    let mut supervisor = TaskSupervisor::new();
    supervisor.on_trigger(Ok(())).unwrap();
    assert_eq!(supervisor.on_cancel(), Some(0));
    assert_eq!(supervisor.active_task(), None);
}

#[test]
fn cancel_on_empty_slot_is_a_no_op() {
    let mut supervisor = TaskSupervisor::new();
    assert_eq!(supervisor.on_cancel(), None);
    assert_eq!(supervisor.active_task(), None);
    assert_eq!(supervisor.on_trigger(Ok(())), Ok(0));
}

#[test]
fn second_cancel_is_a_no_op() {
    let mut supervisor = TaskSupervisor::new();
    supervisor.on_trigger(Ok(())).unwrap();
    assert_eq!(supervisor.on_cancel(), Some(0));
    assert_eq!(supervisor.on_cancel(), None);
    assert_eq!(supervisor.active_task(), None);
}

#[test]
fn finish_clears_slot_of_same_task() {
    let mut supervisor = TaskSupervisor::new();
    let task = supervisor.on_trigger(Ok(())).unwrap();
    assert!(supervisor.on_task_finished(task));
    assert_eq!(supervisor.active_task(), None);
}

#[test]
fn finish_is_idempotent() {
    let mut supervisor = TaskSupervisor::new();
    let task = supervisor.on_trigger(Ok(())).unwrap();
    assert!(supervisor.on_task_finished(task));
    assert!(!supervisor.on_task_finished(task));
    assert_eq!(supervisor.active_task(), None);
}

#[test]
fn finish_of_other_task_changes_nothing() {
    let mut supervisor = TaskSupervisor::new();
    let task = supervisor.on_trigger(Ok(())).unwrap();
    assert!(!supervisor.on_task_finished(task + 1));
    assert_eq!(supervisor.active_task(), Some(task));
}

#[test]
fn finish_on_empty_slot_changes_nothing() {
    let mut supervisor = TaskSupervisor::new();
    assert!(!supervisor.on_task_finished(0));
    assert_eq!(supervisor.active_task(), None);
}

#[test]
fn late_finish_of_cancelled_task_spares_its_successor() {
    let mut supervisor = TaskSupervisor::new();
    let first = supervisor.on_trigger(Ok(())).unwrap();
    assert_eq!(supervisor.on_cancel(), Some(first));
    let second = supervisor.on_trigger(Ok(())).unwrap();
    assert!(!supervisor.on_task_finished(first));
    assert_eq!(supervisor.active_task(), Some(second));
    assert!(supervisor.on_task_finished(second));
    assert_eq!(supervisor.active_task(), None);
}

#[test]
fn cancel_then_finish_clear_in_either_order() {
    let mut supervisor = TaskSupervisor::new();
    let task = supervisor.on_trigger(Ok(())).unwrap();
    assert_eq!(supervisor.on_cancel(), Some(task));
    assert!(!supervisor.on_task_finished(task));
    assert_eq!(supervisor.active_task(), None);

    let task = supervisor.on_trigger(Ok(())).unwrap();
    assert!(supervisor.on_task_finished(task));
    assert_eq!(supervisor.on_cancel(), None);
    assert_eq!(supervisor.active_task(), None);
}

#[test]
fn task_ids_increase() {
    let mut supervisor = TaskSupervisor::new();
    let mut last = None;
    for expected in 0..5u64 {
        let task = supervisor.on_trigger(Ok(())).unwrap();
        assert_eq!(task, expected);
        if let Some(previous) = last {
            assert!(previous < task);
        }
        last = Some(task);
        assert!(supervisor.on_task_finished(task));
    }
}

#[test]
fn failed_and_refused_triggers_use_no_id() {
    let mut supervisor = TaskSupervisor::new();
    assert!(supervisor.on_trigger(Err(StreamStartError)).is_err());
    assert_eq!(supervisor.on_trigger(Ok(())), Ok(0));
    assert_eq!(supervisor.on_trigger(Ok(())), Err(TriggerError::Busy));
    supervisor.on_cancel();
    assert_eq!(supervisor.on_trigger(Ok(())), Ok(1));
}

#[test]
fn first_id_can_be_chosen() {
    let mut supervisor = TaskSupervisor::with_first_id(41);
    assert_eq!(supervisor.active_task(), None);
    assert_eq!(supervisor.on_trigger(Ok(())), Ok(41));
    supervisor.on_cancel();
    assert_eq!(supervisor.on_trigger(Ok(())), Ok(42));
}

#[test]
fn exhausted_ids_refuse_trigger() {
    let mut supervisor = TaskSupervisor::with_first_id(u64::MAX);
    assert_eq!(supervisor.on_trigger(Ok(())), Err(TriggerError::Exhausted));
    assert_eq!(supervisor.active_task(), None);
}

#[test]
fn last_id_before_exhaustion_is_usable() {
    let mut supervisor = TaskSupervisor::with_first_id(u64::MAX - 1);
    assert_eq!(supervisor.on_trigger(Ok(())), Ok(u64::MAX - 1));
    assert!(supervisor.on_task_finished(u64::MAX - 1));
    assert_eq!(supervisor.on_trigger(Ok(())), Err(TriggerError::Exhausted));
}

#[test]
fn slot_holds_at_most_one_task_over_any_interleaving() {
    let mut supervisor = TaskSupervisor::new();
    let mut live: Vec<u64> = Vec::new();
    let script = [0u8, 0, 2, 0, 1, 1, 0, 3, 2, 0, 0, 1, 3, 0, 2];
    for op in script {
        match op {
            0 => {
                if let Ok(task) = supervisor.on_trigger(Ok(())) {
                    live.push(task);
                }
            }
            1 => {
                if let Some(task) = supervisor.on_cancel() {
                    live.retain(|t| *t != task);
                }
            }
            2 => {
                if let Some(task) = supervisor.active_task() {
                    supervisor.on_task_finished(task);
                    live.retain(|t| *t != task);
                }
            }
            _ => {
                assert!(supervisor.on_trigger(Err(StreamStartError)).is_err());
            }
        }
        assert!(live.len() <= 1);
        assert_eq!(live.first().copied(), supervisor.active_task());
    }
}
