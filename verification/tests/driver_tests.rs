use huskarl::Client;
use huskarl::EventLoopMsg;
use huskarl::EventLoopDriver;
use huskarl::GameEvent;
use huskarl::GameWindow;
use huskarl::LoopDecision;
use huskarl::StopPoll;
use huskarl::WindowEventKind;

fn make_driver(maximized: bool) -> EventLoopDriver {
    let (sender_to_client, receiver_to_client) = crossbeam_channel::unbounded();
    let (sender_to_event_loop, receiver_to_event_loop) = crossbeam_channel::unbounded();
    let (sender_from_client_to_manager, _receiver_from_client_to_manager) =
        crossbeam_channel::unbounded();
    let window = GameWindow::new(String::new(), maximized);
    let client = Client::new(
        window,
        sender_to_client,
        receiver_to_client,
        sender_to_event_loop,
        sender_from_client_to_manager,
    );
    EventLoopDriver::new(client, receiver_to_event_loop)
}

#[test]
fn idle_event_without_stop_signal_runs_one_tick() {
    let mut driver = make_driver(true);
    let decision = driver.handle_event(&GameEvent::MainEventsCleared).unwrap();
    assert_eq!(decision, LoopDecision::Run);
    assert_eq!(driver.client().frame_count(), 1);
    assert!(!driver.client().is_maximized());
}

#[test]
fn other_events_keep_the_loop_running_and_render_nothing() {
    let mut driver = make_driver(true);
    let decision = driver.handle_event(&GameEvent::Other).unwrap();
    assert_eq!(decision, LoopDecision::Run);
    assert_eq!(driver.client().frame_count(), 0);
    assert!(driver.client().is_maximized());
}

#[test]
fn close_request_then_idle_exits_before_any_further_frame() {
    let mut driver = make_driver(true);
    let decision = driver
        .handle_event(&GameEvent::Window(WindowEventKind::CloseRequested))
        .unwrap();
    assert_eq!(decision, LoopDecision::Run);
    assert_eq!(driver.client().frame_count(), 0);

    let decision = driver.handle_event(&GameEvent::MainEventsCleared).unwrap();
    assert_eq!(decision, LoopDecision::Exit);
    assert_eq!(driver.client().frame_count(), 0);
    assert!(driver.client().is_maximized());
}

#[test]
fn key_press_keeps_the_loop_running_unchanged() {
    let mut driver = make_driver(true);
    let decision = driver
        .handle_event(&GameEvent::Window(WindowEventKind::KeyboardInput {
            pressed: true,
            keycode: Some(30),
        }))
        .unwrap();
    assert_eq!(decision, LoopDecision::Run);
    assert_eq!(driver.client().frame_count(), 0);
    assert!(driver.client().is_maximized());
}

#[test]
fn stop_signal_is_consumed_exactly_once() {
    let mut driver = make_driver(true);
    driver
        .handle_event(&GameEvent::Window(WindowEventKind::CloseRequested))
        .unwrap();
    let first = driver.handle_event(&GameEvent::MainEventsCleared).unwrap();
    assert_eq!(first, LoopDecision::Exit);
    let second = driver.handle_event(&GameEvent::MainEventsCleared).unwrap();
    assert_eq!(second, LoopDecision::Run);
    assert_eq!(driver.client().frame_count(), 1);
}

#[test]
fn stop_message_has_only_the_stop_meaning() {
    let message = EventLoopMsg::Stop;
    assert_eq!(message, EventLoopMsg::Stop);
}

#[test]
fn idle_step_exits_on_a_dequeued_stop_without_rendering() {
    let mut driver = make_driver(true);
    let decision = driver.idle_step(StopPoll::Received(EventLoopMsg::Stop));
    assert_eq!(decision, LoopDecision::Exit);
    assert_eq!(driver.client().frame_count(), 0);
    assert!(driver.client().is_maximized());
}

#[test]
fn idle_step_ticks_on_an_empty_poll() {
    let mut driver = make_driver(true);
    let decision = driver.idle_step(StopPoll::Empty);
    assert_eq!(decision, LoopDecision::Run);
    assert_eq!(driver.client().frame_count(), 1);
    assert!(!driver.client().is_maximized());
}

#[test]
fn idle_step_ticks_on_a_disconnected_poll() {
    let mut driver = make_driver(false);
    let decision = driver.idle_step(StopPoll::Disconnected);
    assert_eq!(decision, LoopDecision::Run);
    assert_eq!(driver.client().frame_count(), 1);
}

#[test]
fn interleaved_close_requests_leave_the_tick_trajectory_untouched() {
    let mut driver = make_driver(true);
    assert_eq!(
        driver.handle_event(&GameEvent::MainEventsCleared).unwrap(),
        LoopDecision::Run
    );
    driver
        .handle_event(&GameEvent::Window(WindowEventKind::CloseRequested))
        .unwrap();
    // The pending stop signal ends the next idle tick; afterwards the
    // counter goes on exactly as it would have without the close request.
    assert_eq!(
        driver.handle_event(&GameEvent::MainEventsCleared).unwrap(),
        LoopDecision::Exit
    );
    assert_eq!(driver.client().frame_count(), 1);
    assert_eq!(
        driver.handle_event(&GameEvent::MainEventsCleared).unwrap(),
        LoopDecision::Run
    );
    assert_eq!(driver.client().frame_count(), 2);
    assert!(!driver.client().is_maximized());
}
