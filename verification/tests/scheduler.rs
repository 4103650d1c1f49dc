use clickrs::eventspec::EventSpec;
use clickrs::focus::XContext;
use clickrs::schedule::{
    process_events, InputEvent, InputEventQueue, InputType, RunAction, IDLE_SLEEP_MS,
};

fn mouse_event(button: u8, interval: u64) -> InputEvent {
    InputEvent {
        event: InputType::Mouse(button),
        interval,
        remaining: 0,
    }
}

fn empty_queue() -> InputEventQueue {
    InputEventQueue::new(XContext::new(None), 0)
}

fn remainings(q: &InputEventQueue) -> Vec<u64> {
    q.events.iter().map(|e| e.remaining).collect()
}

#[test]
fn insert_sooner_then_later() {
    let mut q = empty_queue();
    q.add_event(mouse_event(1, 1000));
    q.add_event(mouse_event(2, 4000));
    assert_eq!(remainings(&q), vec![1000, 3000]);
    assert_eq!(q.events[0].event, InputType::Mouse(1));
    assert_eq!(q.events[1].event, InputType::Mouse(2));
}

#[test]
fn insert_later_then_sooner() {
    let mut q = empty_queue();
    q.add_event(mouse_event(2, 4000));
    q.add_event(mouse_event(1, 1000));
    assert_eq!(remainings(&q), vec![1000, 3000]);
    assert_eq!(q.events[0].event, InputType::Mouse(1));
    assert_eq!(q.events[1].event, InputType::Mouse(2));
}

#[test]
fn equal_due_times_keep_insertion_order() {
    let mut q = empty_queue();
    q.add_event(mouse_event(1, 1000));
    q.add_event(mouse_event(2, 1000));
    assert_eq!(remainings(&q), vec![1000, 0]);
    assert_eq!(q.events[0].event, InputType::Mouse(1));
    assert_eq!(q.events[1].event, InputType::Mouse(2));
}

#[test]
fn add_event_resets_remaining_to_full_interval() {
    let mut q = empty_queue();
    q.add_event(InputEvent {
        event: InputType::Mouse(1),
        interval: 500,
        remaining: 999,
    });
    assert_eq!(remainings(&q), vec![500]);
}

#[test]
fn due_sums_stay_absolute_across_inserts() {
    let mut q = empty_queue();
    q.add_event(mouse_event(1, 3000));
    q.add_event(mouse_event(2, 5000));
    q.add_event(mouse_event(3, 1000));
    // dues 1000, 3000, 5000 as deltas
    assert_eq!(remainings(&q), vec![1000, 2000, 2000]);
    assert_eq!(q.events[0].event, InputType::Mouse(3));
    assert_eq!(q.events[1].event, InputType::Mouse(1));
    assert_eq!(q.events[2].event, InputType::Mouse(2));
}

#[test]
fn run_next_on_empty_queue_idles() {
    let mut q = empty_queue();
    let action = q.run_next(12345);
    assert_eq!(
        action,
        RunAction::Idle {
            sleep_ms: IDLE_SLEEP_MS
        }
    );
    assert_eq!(q.events.len(), 0);
    assert_eq!(q.last_active, 0);
}

#[test]
fn run_next_sleeps_off_the_residual_delay() {
    let mut q = empty_queue();
    q.add_event(mouse_event(1, 1000));
    q.add_event(mouse_event(2, 4000));
    let action = q.run_next(300);
    assert_eq!(
        action,
        RunAction::Fire {
            sleep_ms: 700,
            target: InputType::Mouse(1)
        }
    );
    // charged through the ideal wake instant
    assert_eq!(q.last_active, 1000);
    // the fired event is rescheduled one full interval ahead
    assert_eq!(remainings(&q), vec![1000, 2000]);
    assert_eq!(q.events[0].event, InputType::Mouse(1));
    assert_eq!(q.events[1].event, InputType::Mouse(2));
}

#[test]
fn run_next_catches_up_without_sleeping() {
    let mut q = empty_queue();
    q.add_event(mouse_event(1, 1000));
    q.add_event(mouse_event(2, 4000));
    // 1200 ms of wall time have passed; the event was due at 1000
    let action = q.run_next(1200);
    assert_eq!(
        action,
        RunAction::Fire {
            sleep_ms: 0,
            target: InputType::Mouse(1)
        }
    );
    // the reference advances by exactly the remaining delay, not the elapsed time
    assert_eq!(q.last_active, 1000);
    assert_eq!(remainings(&q), vec![1000, 2000]);
}

#[test]
fn pause_time_is_charged_to_no_event() {
    let mut q = empty_queue();
    q.add_event(mouse_event(1, 1000));
    // ten seconds pass while paused; the queue is untouched and the
    // reference clock is reset on resume
    q.note_resumed(10_000);
    assert_eq!(remainings(&q), vec![1000]);
    let action = q.run_next(10_000);
    assert_eq!(
        action,
        RunAction::Fire {
            sleep_ms: 1000,
            target: InputType::Mouse(1)
        }
    );
}

#[test]
fn paused_follows_the_indicator() {
    let q = empty_queue();
    assert!(q.paused(Some(0x02)));
    assert!(q.paused(Some(0xFF)));
    assert!(!q.paused(Some(0)));
    assert!(!q.paused(Some(0x04)));
    // a failed query never keeps the tool paused
    assert!(!q.paused(None));
}

#[test]
fn process_events_schedules_each_specification() {
    let specs = vec![
        EventSpec::KeyboardEvent("q".to_string(), 4000),
        EventSpec::MouseEvent(1, 1000),
    ];
    let q = process_events(Some("session".to_string()), specs, 777);
    assert_eq!(q.last_active, 777);
    assert_eq!(q.xctx.display_name, Some("session".to_string()));
    assert_eq!(remainings(&q), vec![1000, 3000]);
    assert_eq!(q.events[0].event, InputType::Mouse(1));
    assert_eq!(q.events[0].interval, 1000);
    assert_eq!(
        q.events[1].event,
        InputType::Keyboard("q".to_string())
    );
}

#[test]
fn as_x_resolves_only_key_names() {
    let mut key = InputType::Keyboard("q".to_string());
    key.as_x(24);
    assert_eq!(key, InputType::XKeyboard(24));

    let mut button = InputType::Mouse(2);
    button.as_x(24);
    assert_eq!(button, InputType::Mouse(2));

    let mut resolved = InputType::XKeyboard(9);
    resolved.as_x(24);
    assert_eq!(resolved, InputType::XKeyboard(9));
}

#[test]
fn duplicate_copies_the_record() {
    let e = InputEvent {
        event: InputType::Keyboard("q".to_string()),
        interval: 10,
        remaining: 4,
    };
    assert_eq!(e.duplicate(), e);
}

#[test]
fn zero_interval_events_fire_at_once() {
    let mut q = empty_queue();
    q.add_event(mouse_event(1, 0));
    assert_eq!(remainings(&q), vec![0]);
    let action = q.run_next(0);
    assert_eq!(
        action,
        RunAction::Fire {
            sleep_ms: 0,
            target: InputType::Mouse(1)
        }
    );
    assert_eq!(q.last_active, 0);
    assert_eq!(remainings(&q), vec![0]);
}

#[test]
fn three_way_tie_keeps_registration_order() {
    let mut q = empty_queue();
    q.add_event(mouse_event(1, 2000));
    q.add_event(mouse_event(2, 2000));
    q.add_event(mouse_event(3, 2000));
    assert_eq!(remainings(&q), vec![2000, 0, 0]);
    assert_eq!(q.events[0].event, InputType::Mouse(1));
    assert_eq!(q.events[1].event, InputType::Mouse(2));
    assert_eq!(q.events[2].event, InputType::Mouse(3));
}

#[test]
fn process_events_with_no_specifications_leaves_the_queue_empty() {
    let q = process_events(None, Vec::new(), 5);
    assert_eq!(q.events.len(), 0);
    assert_eq!(q.last_active, 5);
    assert_eq!(q.xctx.display_name, None);
}

#[test]
fn largest_interval_is_scheduled_unchanged() {
    let mut q = empty_queue();
    q.add_event(mouse_event(1, u64::MAX));
    assert_eq!(remainings(&q), vec![u64::MAX]);
    let action = q.run_next(0);
    assert_eq!(
        action,
        RunAction::Fire {
            sleep_ms: u64::MAX,
            target: InputType::Mouse(1)
        }
    );
}
