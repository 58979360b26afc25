use wintrap::protocol::{is_answer, Message, Reply, Request, WindowClass, WindowHandle};
use wintrap::window::{window_identifier, LoopStage, Window, WindowState};
use wintrap::windows::{ErrorCode, ModuleHandle};

const INSTANCE: ModuleHandle = ModuleHandle { raw: 0x40_0000 };
const CLASS: WindowClass = WindowClass { atom: 0xC0DE, instance: INSTANCE };
const HANDLE: WindowHandle = WindowHandle { hwnd: 0x1_0203 };

fn message(identifier: u32, wparam: usize) -> Message {
    Message { window: 0, message: identifier, wparam, lparam: 0, time: 77, x: 3, y: 4 }
}

fn answer(window: &mut Window, reply: Reply) {
    let request = window.request().unwrap();
    assert!(is_answer(&request, &reply));
    window.resume(reply);
}

fn created_window() -> Window {
    let mut window = Window::new();
    answer(&mut window, Reply::Handle { raw: INSTANCE.raw, last_error: 0 });
    answer(&mut window, Reply::Atom { atom: CLASS.atom, last_error: 0 });
    answer(&mut window, Reply::Handle { raw: HANDLE.hwnd, last_error: 0 });
    window
}

fn retrieved(status: i32, message: Message, last_error: u32) -> Reply {
    Reply::Retrieved { status, message, last_error }
}

#[test]
fn the_window_identifier_is_the_same_wide_string_every_time() {
    let expected: Vec<u16> = "RUST_WINSIG\0".encode_utf16().collect();
    assert_eq!(window_identifier(), expected);
    assert_eq!(window_identifier(), window_identifier());
}

#[test]
fn a_class_is_registered_unless_its_name_is_zero() {
    assert_eq!(WindowClass::new(0, INSTANCE, 1410), Err(ErrorCode { code: 1410 }));
    assert_eq!(WindowClass::new(0xC0DE, INSTANCE, 1410), Ok(CLASS));
}

#[test]
fn creation_asks_for_module_class_and_window_in_turn() {
    let mut window = Window::new();
    assert_eq!(window.state(), WindowState::ResolvingModule);
    assert_eq!(window.request(), Some(Request::GetModuleHandle));
    assert_eq!(window.handle(), None);

    window.resume(Reply::Handle { raw: INSTANCE.raw, last_error: 0 });
    assert_eq!(window.state(), WindowState::RegisteringClass { instance: INSTANCE });
    assert_eq!(window.request(), Some(Request::RegisterClass { instance: INSTANCE }));

    window.resume(Reply::Atom { atom: CLASS.atom, last_error: 0 });
    assert_eq!(window.state(), WindowState::CreatingWindow { class: CLASS });
    assert_eq!(
        window.request(),
        Some(Request::CreateWindow {
            class: CLASS,
            style: 0,
            extended_style: 0,
            x: 0,
            y: 0,
            width: 0,
            height: 0,
        })
    );
    assert_eq!(window.handle(), None);

    window.resume(Reply::Handle { raw: HANDLE.hwnd, last_error: 0 });
    assert_eq!(window.state(), WindowState::Created { class: CLASS, window: HANDLE, exit: None });
    assert_eq!(window.request(), None);
    assert_eq!(window.handle(), Some(HANDLE));
}

#[test]
fn creation_fails_at_once_without_a_module_handle() {
    let mut window = Window::new();
    answer(&mut window, Reply::Handle { raw: 0, last_error: 126 });
    assert_eq!(window.state(), WindowState::Failed { error: ErrorCode { code: 126 } });
    assert_eq!(window.request(), None);
    assert_eq!(window.handle(), None);
}

#[test]
fn creation_fails_at_once_where_the_class_is_refused() {
    let mut window = Window::new();
    answer(&mut window, Reply::Handle { raw: INSTANCE.raw, last_error: 0 });
    answer(&mut window, Reply::Atom { atom: 0, last_error: 1410 });
    assert_eq!(window.state(), WindowState::Failed { error: ErrorCode { code: 1410 } });
    assert_eq!(window.request(), None);
}

#[test]
fn creation_unregisters_the_class_where_the_window_is_refused() {
    let mut window = Window::new();
    answer(&mut window, Reply::Handle { raw: INSTANCE.raw, last_error: 0 });
    answer(&mut window, Reply::Atom { atom: CLASS.atom, last_error: 0 });
    answer(&mut window, Reply::Handle { raw: 0, last_error: 1407 });
    assert_eq!(
        window.state(),
        WindowState::ReleasingClass { class: CLASS, error: ErrorCode { code: 1407 } }
    );
    assert_eq!(window.request(), Some(Request::UnregisterClass { class: CLASS }));
    assert_eq!(window.handle(), None);
    answer(&mut window, Reply::Done);
    assert_eq!(window.state(), WindowState::Failed { error: ErrorCode { code: 1407 } });
    assert_eq!(window.request(), None);
}

#[test]
fn a_success_is_a_success_whatever_the_last_error_says() {
    let mut window = Window::new();
    answer(&mut window, Reply::Handle { raw: INSTANCE.raw, last_error: 5 });
    answer(&mut window, Reply::Atom { atom: CLASS.atom, last_error: 6 });
    answer(&mut window, Reply::Handle { raw: HANDLE.hwnd, last_error: 7 });
    assert_eq!(window.state(), WindowState::Created { class: CLASS, window: HANDLE, exit: None });
}

#[test]
fn the_loop_shows_translates_and_dispatches_each_message() {
    let mut window = created_window();
    window.run_event_loop(None);
    assert_eq!(window.request(), Some(Request::GetMessage));
    assert_eq!(window.handle(), Some(HANDLE));

    let first = message(0x0113, 9);
    answer(&mut window, retrieved(1, first, 0));
    assert_eq!(window.request(), Some(Request::Notify { message: first }));
    answer(&mut window, Reply::Done);
    assert_eq!(window.request(), Some(Request::TranslateMessage { message: first }));
    answer(&mut window, Reply::Done);
    assert_eq!(window.request(), Some(Request::DispatchMessage { message: first }));
    assert_eq!(
        window.state(),
        WindowState::Looping {
            class: CLASS,
            window: HANDLE,
            stop: None,
            stage: LoopStage::Dispatching { message: first },
        }
    );
    answer(&mut window, Reply::Done);
    assert_eq!(window.request(), Some(Request::GetMessage));
}

#[test]
fn the_loop_ends_with_the_exit_code_when_the_thread_is_told_to_quit() {
    let mut window = created_window();
    window.run_event_loop(None);
    answer(&mut window, retrieved(0, message(0x0012, 3), 0));
    assert_eq!(
        window.state(),
        WindowState::Created { class: CLASS, window: HANDLE, exit: Some(Ok(3)) }
    );
    assert_eq!(window.request(), None);
}

#[test]
fn the_exit_code_is_the_first_parameter_cut_to_32_bits() {
    let mut window = created_window();
    window.run_event_loop(None);
    answer(&mut window, retrieved(0, message(0x0012, 0xFFFF_FFFF), 0));
    assert_eq!(
        window.state(),
        WindowState::Created { class: CLASS, window: HANDLE, exit: Some(Ok(-1)) }
    );
}

#[test]
fn the_loop_ends_with_the_error_when_retrieval_fails() {
    let mut window = created_window();
    window.run_event_loop(None);
    answer(&mut window, retrieved(-1, message(0, 0), 1400));
    assert_eq!(
        window.state(),
        WindowState::Created {
            class: CLASS,
            window: HANDLE,
            exit: Some(Err(ErrorCode { code: 1400 })),
        }
    );
    assert_eq!(window.request(), None);
}

#[test]
fn the_loop_ends_after_the_stop_message_was_shown_and_dispatched() {
    let mut window = created_window();
    window.run_event_loop(Some(0xC123));
    let other = message(0xC124, 1);
    answer(&mut window, retrieved(1, other, 0));
    answer(&mut window, Reply::Done);
    answer(&mut window, Reply::Done);
    answer(&mut window, Reply::Done);
    assert_eq!(window.request(), Some(Request::GetMessage));

    let stop = message(0xC123, 0);
    answer(&mut window, retrieved(1, stop, 0));
    assert_eq!(window.request(), Some(Request::Notify { message: stop }));
    answer(&mut window, Reply::Done);
    assert_eq!(window.request(), Some(Request::TranslateMessage { message: stop }));
    answer(&mut window, Reply::Done);
    assert_eq!(window.request(), Some(Request::DispatchMessage { message: stop }));
    answer(&mut window, Reply::Done);
    assert_eq!(
        window.state(),
        WindowState::Created { class: CLASS, window: HANDLE, exit: Some(Ok(0)) }
    );
    assert_eq!(window.request(), None);
}

#[test]
fn a_loop_without_stop_message_runs_through_every_message() {
    let mut window = created_window();
    window.run_event_loop(None);
    for identifier in [0xC123, 0x0010, 0x0002, 0] {
        answer(&mut window, retrieved(1, message(identifier, 0), 0));
        answer(&mut window, Reply::Done);
        answer(&mut window, Reply::Done);
        answer(&mut window, Reply::Done);
        assert_eq!(window.request(), Some(Request::GetMessage));
    }
}

#[test]
fn destruction_takes_the_window_first_and_the_class_second() {
    let mut window = created_window();
    window.destroy();
    assert_eq!(window.state(), WindowState::DestroyingWindow { class: CLASS, window: HANDLE });
    assert_eq!(window.request(), Some(Request::DestroyWindow { window: HANDLE }));
    answer(&mut window, Reply::Done);
    assert_eq!(window.state(), WindowState::UnregisteringClass { class: CLASS });
    assert_eq!(window.request(), Some(Request::UnregisterClass { class: CLASS }));
    assert_eq!(window.handle(), None);
    answer(&mut window, Reply::Done);
    assert_eq!(window.state(), WindowState::Destroyed);
    assert_eq!(window.request(), None);
}

#[test]
fn a_window_whose_loop_has_ended_is_destroyed_like_any_other() {
    let mut window = created_window();
    window.run_event_loop(None);
    answer(&mut window, retrieved(0, message(0x0012, 0), 0));
    window.destroy();
    answer(&mut window, Reply::Done);
    answer(&mut window, Reply::Done);
    assert_eq!(window.state(), WindowState::Destroyed);
}

#[test]
fn a_reply_of_another_kind_answers_no_request() {
    let status = Reply::Status { status: 1, last_error: 0 };
    let handle = Reply::Handle { raw: 1, last_error: 0 };
    let atom = Reply::Atom { atom: 1, last_error: 0 };
    assert!(is_answer(&Request::GetModuleHandle, &handle));
    assert!(!is_answer(&Request::GetModuleHandle, &status));
    assert!(!is_answer(&Request::GetModuleHandle, &Reply::Done));
    assert!(is_answer(&Request::RegisterClass { instance: INSTANCE }, &atom));
    assert!(!is_answer(&Request::RegisterClass { instance: INSTANCE }, &handle));
    assert!(is_answer(&Request::GetMessage, &retrieved(1, message(0, 0), 0)));
    assert!(!is_answer(&Request::GetMessage, &Reply::Done));
    assert!(is_answer(&Request::DestroyWindow { window: HANDLE }, &Reply::Done));
    assert!(!is_answer(&Request::DestroyWindow { window: HANDLE }, &status));
    assert!(is_answer(&Request::SetConsoleCtrlHandler { add: true }, &status));
    assert!(is_answer(&Request::JoinWorker, &Reply::Done));
    assert!(is_answer(&Request::AwaitWorker, &Reply::Worker { report: Err(ErrorCode { code: 1 }) }));
    assert!(!is_answer(&Request::AwaitWorker, &Reply::Done));
    assert!(
        is_answer(&Request::GetCurrentThreadId, &Reply::Identifier { identifier: 4, last_error: 0 })
    );
}
