use robeats_robot::control::{per_second, status_due, Hotkey, Metrics};

#[test]
fn metrics_start_with_the_initial_delay() {
    let m = Metrics::new();
    assert_eq!(m.note_delay, 5);
    assert!(!m.is_stopping());
}

#[test]
fn delay_steps_and_clamps_at_zero() {
    let mut m = Metrics::new();
    m.increase_delay();
    m.increase_delay();
    assert_eq!(m.note_delay, 7);
    for _ in 0..10 {
        m.decrease_delay();
    }
    assert_eq!(m.note_delay, 0);
    m.increase_delay();
    m.decrease_delay();
    assert_eq!(m.note_delay, 0);
    m.note_delay = u64::MAX;
    m.increase_delay();
    assert_eq!(m.note_delay, u64::MAX);
}

#[test]
fn stop_is_sticky() {
    let mut m = Metrics::new();
    m.request_stop();
    assert!(m.is_stopping());
    m.handle_keys(&vec![], &vec![Hotkey::Increase]);
    assert!(m.is_stopping());
    assert_eq!(m.note_delay, 6);
}

#[test]
fn held_keys_count_once() {
    let mut m = Metrics::new();
    m.handle_keys(&vec![], &vec![Hotkey::Increase]);
    m.handle_keys(&vec![Hotkey::Increase], &vec![Hotkey::Increase]);
    m.handle_keys(&vec![Hotkey::Increase], &vec![Hotkey::Increase, Hotkey::Decrease]);
    assert_eq!(m.note_delay, 5);
    m.handle_keys(&vec![Hotkey::Decrease], &vec![]);
    m.handle_keys(&vec![], &vec![Hotkey::Increase]);
    assert_eq!(m.note_delay, 6);
}

#[test]
fn stop_key_ends_the_poll() {
    let mut m = Metrics::new();
    m.handle_keys(&vec![], &vec![Hotkey::Decrease, Hotkey::Stop, Hotkey::Increase]);
    assert!(m.is_stopping());
    assert_eq!(m.note_delay, 4);
}

#[test]
fn rates_count_at_least_one_second() {
    assert_eq!(per_second(900, 0), 900);
    assert_eq!(per_second(900, 1), 900);
    assert_eq!(per_second(900, 4), 225);
    assert_eq!(per_second(7, 2), 3);
}

#[test]
fn status_is_due_once_a_second() {
    assert!(status_due(0));
    assert!(status_due(2009));
    assert!(!status_due(2010));
    assert!(!status_due(999));
}
