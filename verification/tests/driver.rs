use volume_render::driver::{Action, Driver, Input};
use volume_render::event::{Event, Key, WindowEvent};
use volume_render::frame::{Color, DrawIndexed, FramePlan, Workgroups};
use volume_render::surface::{Size, SurfaceConfig, SurfaceError, INITIAL_WINDOW_SIDE};

const REDRAW: Event = Event::RedrawRequested { own_window: true };

fn driver(width: u32, height: u32) -> Driver {
    Driver::new(Size { width, height }).0
}

fn own(event: WindowEvent) -> Event {
    Event::Window { own_window: true, event }
}

#[test]
fn end_to_end_first_frame() {
    assert_eq!(INITIAL_WINDOW_SIDE, 512);
    let (mut driver, resources) = Driver::new(Size { width: 512, height: 512 });
    assert_eq!(resources.config, SurfaceConfig { width: 512, height: 512 });
    assert!(!driver.is_exiting());
    let action = driver.handle_event(REDRAW);
    assert_eq!(
        action,
        Action::Render(FramePlan {
            frame: 1,
            dispatch: Workgroups { x: 200, y: 200, z: 200 },
            clear: Color { r: 0, g: 0, b: 0, a: 1.0f64.to_bits() },
            draw: DrawIndexed {
                first_index: 0,
                end_index: 6,
                base_vertex: 0,
                first_instance: 0,
                end_instance: 1,
            },
        })
    );
    match action {
        Action::Render(plan) => {
            assert_eq!(plan.draw.index_count(), 6);
            assert_eq!(plan.draw.instance_count(), 1);
        }
        _ => unreachable!(),
    }
    assert_eq!(driver.handle_frame(Ok(())), Action::Idle);
    assert_eq!(driver.state().current_frame(), 1);
    assert!(!driver.is_exiting());
}

#[test]
fn each_redraw_renders_the_next_frame() {
    let mut driver = driver(512, 512);
    for n in 1u32..=50 {
        match driver.handle_event(REDRAW) {
            Action::Render(plan) => assert_eq!(plan.frame, n),
            other => panic!("{:?}", other),
        }
        assert_eq!(driver.handle_frame(Ok(())), Action::Idle);
    }
    assert_eq!(driver.state().current_frame(), 50);
}

#[test]
fn redraw_of_another_window_is_ignored() {
    let mut driver = driver(512, 512);
    assert_eq!(driver.handle_event(Event::RedrawRequested { own_window: false }), Action::Idle);
    assert_eq!(driver.state().current_frame(), 0);
}

#[test]
fn events_cleared_asks_for_a_redraw() {
    let mut driver = driver(512, 512);
    assert_eq!(driver.handle_event(Event::MainEventsCleared), Action::RequestRedraw);
    assert_eq!(driver.handle_event(Event::MainEventsCleared), Action::RequestRedraw);
    assert_eq!(driver.state().current_frame(), 0);
    assert!(!driver.is_exiting());
}

#[test]
fn surface_lost_configures_once_at_the_stored_size() {
    let mut driver = driver(512, 512);
    driver.handle_event(own(WindowEvent::Resized(Size { width: 640, height: 480 })));
    driver.handle_event(REDRAW);
    let action = driver.handle_frame(Err(SurfaceError::Lost));
    assert_eq!(action, Action::Configure(SurfaceConfig { width: 640, height: 480 }));
    assert!(!driver.is_exiting());
    assert_eq!(driver.state().size(), Size { width: 640, height: 480 });
    assert_eq!(driver.state().config(), SurfaceConfig { width: 640, height: 480 });
    assert_eq!(driver.state().current_frame(), 1);
    match driver.handle_event(REDRAW) {
        Action::Render(plan) => assert_eq!(plan.frame, 2),
        other => panic!("{:?}", other),
    }
}

#[test]
fn out_of_memory_ends_the_loop_and_nothing_renders_after() {
    let mut driver = driver(512, 512);
    driver.handle_event(REDRAW);
    assert_eq!(driver.handle_frame(Err(SurfaceError::OutOfMemory)), Action::Exit);
    assert!(driver.is_exiting());
    let later = [
        Input::Event(REDRAW),
        Input::Event(Event::MainEventsCleared),
        Input::Event(own(WindowEvent::Resized(Size { width: 9, height: 9 }))),
        Input::Event(own(WindowEvent::CloseRequested)),
        Input::Frame(Ok(())),
        Input::Frame(Err(SurfaceError::Lost)),
        Input::Frame(Err(SurfaceError::OutOfMemory)),
        Input::Event(REDRAW),
    ];
    for input in later {
        assert_eq!(driver.step(input), Action::Idle);
        assert!(driver.is_exiting());
    }
    assert_eq!(driver.state().current_frame(), 1);
    assert_eq!(driver.state().size(), Size { width: 512, height: 512 });
}

#[test]
fn other_errors_are_reported_and_the_loop_goes_on() {
    let mut driver = driver(512, 512);
    driver.handle_event(REDRAW);
    assert_eq!(
        driver.handle_frame(Err(SurfaceError::Timeout)),
        Action::Report(SurfaceError::Timeout)
    );
    driver.handle_event(REDRAW);
    assert_eq!(
        driver.handle_frame(Err(SurfaceError::Outdated)),
        Action::Report(SurfaceError::Outdated)
    );
    assert!(!driver.is_exiting());
    assert_eq!(driver.state().current_frame(), 2);
    assert_eq!(driver.state().config(), SurfaceConfig { width: 512, height: 512 });
}

#[test]
fn a_failed_frame_still_counts() {
    let mut driver = driver(512, 512);
    driver.handle_event(REDRAW);
    driver.handle_frame(Ok(()));
    driver.handle_event(REDRAW);
    driver.handle_frame(Err(SurfaceError::Lost));
    match driver.handle_event(REDRAW) {
        Action::Render(plan) => assert_eq!(plan.frame, 3),
        other => panic!("{:?}", other),
    }
}

#[test]
fn close_request_ends_the_loop() {
    let mut driver = driver(512, 512);
    assert_eq!(driver.handle_event(own(WindowEvent::CloseRequested)), Action::Exit);
    assert!(driver.is_exiting());
    assert_eq!(driver.handle_event(REDRAW), Action::Idle);
}

#[test]
fn escape_going_down_ends_the_loop() {
    let mut driver = driver(512, 512);
    let escape = WindowEvent::KeyboardInput { pressed: true, key: Some(Key::Escape) };
    assert!(escape.asks_to_exit());
    assert_eq!(driver.handle_event(own(escape)), Action::Exit);
    assert!(driver.is_exiting());
}

#[test]
fn other_keys_do_not_end_the_loop() {
    let mut driver = driver(512, 512);
    for event in [
        WindowEvent::KeyboardInput { pressed: false, key: Some(Key::Escape) },
        WindowEvent::KeyboardInput { pressed: true, key: Some(Key::Other) },
        WindowEvent::KeyboardInput { pressed: true, key: None },
        WindowEvent::KeyboardInput { pressed: false, key: None },
        WindowEvent::Other,
    ] {
        assert!(!event.asks_to_exit());
        assert_eq!(event.new_size(), None);
        assert_eq!(driver.handle_event(own(event)), Action::Idle);
        assert!(!driver.is_exiting());
    }
}

#[test]
fn events_of_other_windows_are_ignored() {
    let mut driver = driver(512, 512);
    for event in [
        WindowEvent::CloseRequested,
        WindowEvent::KeyboardInput { pressed: true, key: Some(Key::Escape) },
        WindowEvent::Resized(Size { width: 10, height: 10 }),
    ] {
        let action = driver.handle_event(Event::Window { own_window: false, event });
        assert_eq!(action, Action::Idle);
    }
    assert_eq!(driver.handle_event(Event::Other), Action::Idle);
    assert!(!driver.is_exiting());
    assert_eq!(driver.state().size(), Size { width: 512, height: 512 });
}

#[test]
fn resize_events_reach_the_state() {
    let mut driver = driver(512, 512);
    let resized = WindowEvent::Resized(Size { width: 1024, height: 768 });
    assert_eq!(resized.new_size(), Some(Size { width: 1024, height: 768 }));
    assert_eq!(
        driver.handle_event(own(resized)),
        Action::Configure(SurfaceConfig { width: 1024, height: 768 })
    );
    assert_eq!(driver.state().size(), Size { width: 1024, height: 768 });
    let scaled = WindowEvent::ScaleFactorChanged { new_inner_size: Size { width: 2048, height: 1536 } };
    assert_eq!(scaled.new_size(), Some(Size { width: 2048, height: 1536 }));
    assert_eq!(
        driver.handle_event(own(scaled)),
        Action::Configure(SurfaceConfig { width: 2048, height: 1536 })
    );
    assert_eq!(driver.state().config(), SurfaceConfig { width: 2048, height: 1536 });
}

#[test]
fn resize_events_with_a_zero_side_are_dropped() {
    let mut driver = driver(512, 512);
    for size in [Size { width: 0, height: 600 }, Size { width: 600, height: 0 }] {
        assert_eq!(driver.handle_event(own(WindowEvent::Resized(size))), Action::Idle);
        assert_eq!(
            driver.handle_event(own(WindowEvent::ScaleFactorChanged { new_inner_size: size })),
            Action::Idle
        );
    }
    assert_eq!(driver.state().size(), Size { width: 512, height: 512 });
    assert_eq!(driver.state().config(), SurfaceConfig { width: 512, height: 512 });
}

#[test]
fn step_takes_both_kinds_of_input() {
    let mut driver = driver(512, 512);
    match driver.step(Input::Event(REDRAW)) {
        Action::Render(plan) => assert_eq!(plan.frame, 1),
        other => panic!("{:?}", other),
    }
    assert_eq!(
        driver.step(Input::Frame(Err(SurfaceError::Lost))),
        Action::Configure(SurfaceConfig { width: 512, height: 512 })
    );
    assert_eq!(driver.step(Input::Event(Event::MainEventsCleared)), Action::RequestRedraw);
    assert_eq!(driver.step(Input::Frame(Err(SurfaceError::OutOfMemory))), Action::Exit);
    assert_eq!(driver.step(Input::Event(Event::MainEventsCleared)), Action::Idle);
}
