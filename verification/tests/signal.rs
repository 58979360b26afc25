use wintrap::signal::{
    Signal, SignalSet, CTRL_BREAK_EVENT, CTRL_CLOSE_EVENT, CTRL_C_EVENT, CTRL_LOGOFF_EVENT,
    CTRL_SHUTDOWN_EVENT, WM_CLOSE,
};

#[test]
fn console_events_stand_for_their_signals() {
    assert_eq!(Signal::from_console_ctrl_event(CTRL_C_EVENT), Some(Signal::CtrlC));
    assert_eq!(Signal::from_console_ctrl_event(CTRL_BREAK_EVENT), Some(Signal::CtrlBreak));
    assert_eq!(Signal::from_console_ctrl_event(0), Some(Signal::CtrlC));
    assert_eq!(Signal::from_console_ctrl_event(1), Some(Signal::CtrlBreak));
}

#[test]
fn other_console_events_stand_for_no_signal() {
    assert_eq!(Signal::from_console_ctrl_event(CTRL_CLOSE_EVENT), None);
    assert_eq!(Signal::from_console_ctrl_event(CTRL_LOGOFF_EVENT), None);
    assert_eq!(Signal::from_console_ctrl_event(CTRL_SHUTDOWN_EVENT), None);
    assert_eq!(Signal::from_console_ctrl_event(3), None);
    assert_eq!(Signal::from_console_ctrl_event(u32::MAX), None);
}

#[test]
fn only_the_request_to_close_stands_for_a_signal() {
    assert_eq!(WM_CLOSE, 0x10);
    assert_eq!(Signal::from_window_message(WM_CLOSE), Some(Signal::CloseWindow));
    assert_eq!(Signal::from_window_message(0x0002), None);
    assert_eq!(Signal::from_window_message(0x0012), None);
    assert_eq!(Signal::from_window_message(0), None);
}

#[test]
fn the_empty_set_holds_no_signal() {
    let set = SignalSet::empty();
    assert!(!set.contains(Signal::CtrlC));
    assert!(!set.contains(Signal::CtrlBreak));
    assert!(!set.contains(Signal::CloseWindow));
}

#[test]
fn a_set_holds_what_was_put_into_it() {
    let mut set = SignalSet::empty();
    set.insert(Signal::CtrlBreak);
    assert!(set.contains(Signal::CtrlBreak));
    assert!(!set.contains(Signal::CtrlC));
    assert!(!set.contains(Signal::CloseWindow));
    set.insert(Signal::CtrlBreak);
    set.insert(Signal::CloseWindow);
    assert!(set.contains(Signal::CtrlBreak));
    assert!(set.contains(Signal::CloseWindow));
    assert!(!set.contains(Signal::CtrlC));
}

#[test]
fn a_set_from_a_slice_holds_the_signals_of_the_slice() {
    let all = [Signal::CtrlC, Signal::CtrlBreak, Signal::CloseWindow];
    for mask in 0..8u32 {
        let chosen: Vec<Signal> =
            (0..3).filter(|bit| mask & (1 << bit) != 0).map(|bit| all[bit]).collect();
        let set = SignalSet::from_slice(&chosen);
        for signal in all {
            assert_eq!(set.contains(signal), chosen.contains(&signal));
        }
    }
}

#[test]
fn a_set_from_a_slice_takes_repeated_signals_once() {
    let set = SignalSet::from_slice(&[Signal::CtrlC, Signal::CtrlC, Signal::CtrlC]);
    assert!(set.contains(Signal::CtrlC));
    assert!(!set.contains(Signal::CtrlBreak));
    assert!(!set.contains(Signal::CloseWindow));
}
