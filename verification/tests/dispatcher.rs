use wintrap::dispatcher::{Delivery, SignalDispatcher};
use wintrap::signal::{Signal, SignalSet, CTRL_BREAK_EVENT, CTRL_CLOSE_EVENT, CTRL_C_EVENT, WM_CLOSE};

fn drain(dispatcher: &mut SignalDispatcher) -> Vec<Signal> {
    let mut seen = Vec::new();
    while let Delivery::Signal(signal) = dispatcher.next() {
        seen.push(signal);
    }
    seen
}

#[test]
fn a_new_dispatcher_is_open_and_empty() {
    let mut dispatcher = SignalDispatcher::new(SignalSet::empty());
    assert!(!dispatcher.is_closed());
    assert_eq!(dispatcher.len(), 0);
    assert_eq!(dispatcher.next(), Delivery::Empty);
}

#[test]
fn only_requested_signals_reach_the_consumer() {
    let all = [Signal::CtrlC, Signal::CtrlBreak, Signal::CloseWindow];
    for mask in 0..8u32 {
        let requested: Vec<Signal> =
            (0..3).filter(|bit| mask & (1 << bit) != 0).map(|bit| all[bit]).collect();
        let mut dispatcher = SignalDispatcher::new(SignalSet::from_slice(&requested));
        let handled_c = dispatcher.on_console_event(CTRL_C_EVENT);
        let handled_break = dispatcher.on_console_event(CTRL_BREAK_EVENT);
        let handled_close = dispatcher.on_console_event(CTRL_CLOSE_EVENT);
        dispatcher.on_window_message(WM_CLOSE);
        assert_eq!(handled_c, requested.contains(&Signal::CtrlC));
        assert_eq!(handled_break, requested.contains(&Signal::CtrlBreak));
        assert!(!handled_close);
        assert_eq!(drain(&mut dispatcher), requested);
    }
}

#[test]
fn a_request_to_close_yields_exactly_one_signal() {
    let mut dispatcher = SignalDispatcher::new(SignalSet::from_slice(&[Signal::CloseWindow]));
    for sent in 1..=5usize {
        assert!(dispatcher.on_window_message(WM_CLOSE));
        assert_eq!(dispatcher.len(), sent);
    }
    assert_eq!(drain(&mut dispatcher), vec![Signal::CloseWindow; 5]);
}

#[test]
fn a_request_to_close_is_consumed_even_where_it_is_not_trapped() {
    let mut dispatcher = SignalDispatcher::new(SignalSet::from_slice(&[Signal::CtrlC]));
    assert!(dispatcher.on_window_message(WM_CLOSE));
    assert_eq!(dispatcher.len(), 0);
    assert_eq!(dispatcher.next(), Delivery::Empty);
}

#[test]
fn other_window_messages_are_left_to_the_default_procedure() {
    let mut dispatcher = SignalDispatcher::new(SignalSet::from_slice(&[Signal::CloseWindow]));
    for message in [0x0000, 0x0001, 0x0002, 0x000F, 0x0011, 0x0012, 0xC001] {
        assert!(!dispatcher.on_window_message(message));
    }
    assert_eq!(dispatcher.len(), 0);
}

#[test]
fn signals_are_consumed_in_the_order_in_which_they_came() {
    let mut dispatcher =
        SignalDispatcher::new(SignalSet::from_slice(&[Signal::CtrlBreak, Signal::CloseWindow]));
    dispatcher.on_console_event(CTRL_BREAK_EVENT);
    dispatcher.on_console_event(CTRL_BREAK_EVENT);
    dispatcher.on_window_message(WM_CLOSE);
    assert_eq!(dispatcher.next(), Delivery::Signal(Signal::CtrlBreak));
    assert_eq!(dispatcher.next(), Delivery::Signal(Signal::CtrlBreak));
    assert_eq!(dispatcher.next(), Delivery::Signal(Signal::CloseWindow));
    assert_eq!(dispatcher.next(), Delivery::Empty);
}

#[test]
fn signals_that_come_while_others_are_consumed_keep_their_place() {
    let mut dispatcher = SignalDispatcher::new(SignalSet::from_slice(&[
        Signal::CtrlC,
        Signal::CtrlBreak,
        Signal::CloseWindow,
    ]));
    dispatcher.on_console_event(CTRL_C_EVENT);
    dispatcher.on_window_message(WM_CLOSE);
    assert_eq!(dispatcher.next(), Delivery::Signal(Signal::CtrlC));
    dispatcher.on_console_event(CTRL_BREAK_EVENT);
    assert_eq!(dispatcher.next(), Delivery::Signal(Signal::CloseWindow));
    assert_eq!(dispatcher.next(), Delivery::Signal(Signal::CtrlBreak));
    assert_eq!(dispatcher.next(), Delivery::Empty);
}

#[test]
fn push_queues_a_signal_unfiltered() {
    let mut dispatcher = SignalDispatcher::new(SignalSet::empty());
    dispatcher.push(Signal::CtrlC);
    dispatcher.push(Signal::CloseWindow);
    assert_eq!(dispatcher.len(), 2);
    assert_eq!(drain(&mut dispatcher), vec![Signal::CtrlC, Signal::CloseWindow]);
}

#[test]
fn a_closed_dispatcher_hands_out_what_waited_and_then_says_closed() {
    let mut dispatcher = SignalDispatcher::new(SignalSet::from_slice(&[Signal::CtrlC]));
    dispatcher.on_console_event(CTRL_C_EVENT);
    dispatcher.close();
    assert!(dispatcher.is_closed());
    assert_eq!(dispatcher.next(), Delivery::Signal(Signal::CtrlC));
    assert_eq!(dispatcher.next(), Delivery::Closed);
    assert_eq!(dispatcher.next(), Delivery::Closed);
}

#[test]
fn a_closed_dispatcher_accepts_and_drops_what_comes() {
    let mut dispatcher =
        SignalDispatcher::new(SignalSet::from_slice(&[Signal::CtrlC, Signal::CloseWindow]));
    dispatcher.close();
    assert!(dispatcher.on_console_event(CTRL_C_EVENT));
    assert!(dispatcher.on_window_message(WM_CLOSE));
    dispatcher.push(Signal::CtrlC);
    assert_eq!(dispatcher.len(), 0);
    assert_eq!(dispatcher.next(), Delivery::Closed);
}

#[test]
fn closing_twice_is_closing_once() {
    let mut dispatcher = SignalDispatcher::new(SignalSet::from_slice(&[Signal::CtrlBreak]));
    dispatcher.on_console_event(CTRL_BREAK_EVENT);
    dispatcher.close();
    dispatcher.close();
    assert!(dispatcher.is_closed());
    assert_eq!(dispatcher.len(), 1);
    assert_eq!(drain(&mut dispatcher), vec![Signal::CtrlBreak]);
    assert_eq!(dispatcher.next(), Delivery::Closed);
}

#[test]
fn many_signals_are_all_kept() {
    let mut dispatcher = SignalDispatcher::new(SignalSet::from_slice(&[Signal::CtrlC]));
    for _ in 0..10_000 {
        dispatcher.on_console_event(CTRL_C_EVENT);
    }
    assert_eq!(dispatcher.len(), 10_000);
    assert_eq!(drain(&mut dispatcher).len(), 10_000);
}
