use ynwm::event::{
    AxisOrientation, AxisSource, ButtonState, Event, Scalar, Timestamp,
};
use ynwm::handle::Handle;
use ynwm::output::{Output, Rect, RenderStep};
use ynwm::server::Server;
use ynwm::signal::{
    Command, InputDeviceKind, Listener, Mode, Owner, Signal, SignalKind, SignalSource, SurfaceRole,
};
use ynwm::startup::{InitError, Startup};
use ynwm::view::View;

fn started() -> Server {
    let startup = Startup {
        display_created: true,
        socket_name: Some(String::from("wayland-0")),
        backend_started: true,
    };
    match Server::new(startup) {
        Ok(server) => server,
        Err(e) => panic!("start-up failed: {}", e.message()),
    }
}

fn toplevel(surface: u64) -> Signal {
    Signal::NewSurface { surface, toplevel: surface + 1000, role: SurfaceRole::Toplevel }
}

#[test]
fn new_server_is_empty() {
    let mut server = started();
    assert_eq!(server.socket_name().as_str(), "wayland-0");
    assert!(server.retired().is_empty());
    assert!(server.take_events().is_empty());
    assert_eq!(server.get_view(Handle::new(0, 0)), None);
    assert_eq!(server.get_output(Handle::new(0, 0)), None);
    assert_eq!(server.find_view(1), None);
    assert_eq!(server.find_output(1), None);
}

#[test]
fn new_fails_without_a_display() {
    let startup = Startup { display_created: false, socket_name: None, backend_started: false };
    assert_eq!(Server::new(startup).err(), Some(InitError::DisplayCreateFailed));
    let startup = Startup {
        display_created: false,
        socket_name: Some(String::from("wayland-0")),
        backend_started: true,
    };
    assert_eq!(Server::new(startup).err(), Some(InitError::DisplayCreateFailed));
}

#[test]
fn new_fails_without_a_socket() {
    let startup = Startup { display_created: true, socket_name: None, backend_started: false };
    assert_eq!(Server::new(startup).err(), Some(InitError::SocketUnavailable));
    let startup = Startup { display_created: true, socket_name: None, backend_started: true };
    assert_eq!(Server::new(startup).err(), Some(InitError::SocketUnavailable));
}

#[test]
fn new_fails_when_the_backend_does_not_start() {
    let startup = Startup {
        display_created: true,
        socket_name: Some(String::from("wayland-1")),
        backend_started: false,
    };
    assert_eq!(Server::new(startup).err(), Some(InitError::BackendStartFailed));
}

#[test]
fn output_discovery_selects_the_mode_added_last() {
    let mut server = started();
    let first = Mode { width: 1280, height: 720, refresh: 60000 };
    let second = Mode { width: 1920, height: 1080, refresh: 59940 };
    let signal = Signal::NewOutput { output: 77, modes: vec![first, second] };
    assert!(server.admits(&signal));
    let reaction = server.dispatch(&signal);
    let h = reaction.issued.expect("a new output gets a handle");
    assert_eq!(server.get_output(h), Some(Output { output: 77 }));
    assert_eq!(server.find_output(77), Some(h));
    let frame = Listener {
        owner: Owner::Output { output: 77 },
        signal: SignalKind::OutputFrame,
        source: SignalSource::Output { output: 77 },
    };
    assert_eq!(
        reaction.commands,
        vec![
            Command::Connect { listener: frame },
            Command::CreateOutputGlobal { output: 77 },
            Command::SetOutputMode { output: 77, mode: second },
            Command::AddOutputToLayout { output: 77 },
        ]
    );
    assert!(server.take_events().is_empty());
    assert_eq!(server.find_output(78), None);
}

#[test]
fn output_without_modes_gets_no_mode() {
    let mut server = started();
    let (h, commands) = server.backend_new_output(5, &Vec::new());
    assert_eq!(server.get_output(h), Some(Output { output: 5 }));
    assert_eq!(commands.len(), 3);
    assert_eq!(commands[2], Command::AddOutputToLayout { output: 5 });
    assert!(!commands.iter().any(|c| matches!(c, Command::SetOutputMode { .. })));
}

#[test]
fn output_with_one_mode_selects_it() {
    let mut server = started();
    let only = Mode { width: 800, height: 600, refresh: 75000 };
    let (_, commands) = server.backend_new_output(5, &vec![only]);
    assert_eq!(commands[2], Command::SetOutputMode { output: 5, mode: only });
}

#[test]
fn pointer_is_attached_and_capabilities_published() {
    let mut server = started();
    let commands = server.backend_new_input(3, InputDeviceKind::Pointer);
    assert_eq!(
        commands,
        vec![
            Command::AttachPointer { device: 3 },
            Command::SetSeatCapabilities { pointer: true, keyboard: false, touch: false },
        ]
    );
    assert!(server.take_events().is_empty());
}

#[test]
fn other_devices_are_left_alone() {
    let mut server = started();
    for kind in [
        InputDeviceKind::Keyboard,
        InputDeviceKind::Touch,
        InputDeviceKind::TabletTool,
        InputDeviceKind::TabletPad,
        InputDeviceKind::Switch,
    ] {
        let reaction = server.dispatch(&Signal::NewInput { device: 4, kind });
        assert_eq!(reaction.issued, None);
        assert_eq!(
            reaction.commands,
            vec![Command::SetSeatCapabilities { pointer: true, keyboard: false, touch: false }]
        );
    }
    assert!(server.take_events().is_empty());
}

#[test]
fn surfaces_that_are_not_toplevel_are_passed_over() {
    let mut server = started();
    for role in [SurfaceRole::Popup, SurfaceRole::Unassigned] {
        let reaction = server.dispatch(&Signal::NewSurface { surface: 9, toplevel: 10, role });
        assert_eq!(reaction.issued, None);
        assert!(reaction.commands.is_empty());
    }
    assert_eq!(server.find_view(9), None);
    assert!(server.take_events().is_empty());
}

#[test]
fn toplevel_surface_becomes_a_view() {
    let mut server = started();
    let reaction = server.xdg_shell_new_surface(9, 10, SurfaceRole::Toplevel);
    let h = reaction.issued.expect("a new view gets a handle");
    assert_eq!(server.get_view(h), Some(View { surface: 9 }));
    assert_eq!(reaction.commands.len(), 5);
    let owner = Owner::View { surface: 9 };
    let expected = [
        (SignalKind::SurfaceMap, SignalSource::Surface { surface: 9 }),
        (SignalKind::SurfaceUnmap, SignalSource::Surface { surface: 9 }),
        (SignalKind::SurfaceDestroy, SignalSource::Surface { surface: 9 }),
        (SignalKind::RequestMove, SignalSource::Toplevel { toplevel: 10 }),
        (SignalKind::RequestResize, SignalSource::Toplevel { toplevel: 10 }),
    ];
    for (command, (signal, source)) in reaction.commands.iter().zip(expected) {
        assert_eq!(*command, Command::Connect { listener: Listener { owner, signal, source } });
    }
    assert_eq!(server.take_events(), vec![Event::ViewCreated { view: h }]);
}

#[test]
fn full_view_lifecycle() {
    let mut server = started();
    let signals = vec![
        toplevel(50),
        Signal::SurfaceMap { surface: 50 },
        Signal::SurfaceUnmap { surface: 50 },
        Signal::SurfaceMap { surface: 50 },
        Signal::SurfaceDestroy { surface: 50 },
    ];
    let pass = server.poll_events(&signals);
    assert_eq!(pass.handled, 5);
    let view = match pass.events[0] {
        Event::ViewCreated { view } => view,
        _ => panic!("the first event does not announce the view"),
    };
    assert_eq!(
        pass.events,
        vec![
            Event::ViewCreated { view },
            Event::ViewMapped { view },
            Event::ViewUnmapped { view },
            Event::ViewMapped { view },
            Event::ViewDestroyed { view },
        ]
    );
    assert_eq!(pass.commands.len(), 5);
    assert_eq!(server.get_view(view), None);
    assert_eq!(server.find_view(50), None);
    for surface in 60..70u64 {
        let pass = server.poll_events(&vec![toplevel(surface)]);
        assert_eq!(pass.handled, 1);
        assert_ne!(pass.events, vec![Event::ViewCreated { view }]);
        assert_eq!(server.get_view(view), None);
    }
}

#[test]
fn destroyed_view_is_held_until_the_next_pass() {
    let mut server = started();
    server.begin_pass();
    let h = server.dispatch(&toplevel(1)).issued.unwrap();
    let other = server.dispatch(&toplevel(2)).issued.unwrap();
    server.dispatch(&Signal::SurfaceDestroy { surface: 1 });
    assert_eq!(server.get_view(h), None);
    assert_eq!(server.retired(), &vec![View { surface: 1 }]);
    server.dispatch(&Signal::SurfaceMap { surface: 2 });
    server.dispatch(&Signal::CursorFrame);
    assert_eq!(server.retired(), &vec![View { surface: 1 }]);
    let events = server.take_events();
    assert_eq!(events.len(), 5);
    assert_eq!(events[2], Event::ViewDestroyed { view: h });
    assert_eq!(server.retired(), &vec![View { surface: 1 }]);
    server.begin_pass();
    assert!(server.retired().is_empty());
    assert_eq!(server.get_view(h), None);
    assert_eq!(server.get_view(other), Some(View { surface: 2 }));
}

#[test]
fn views_destroyed_in_one_pass_are_held_in_order() {
    let mut server = started();
    let pass = server.poll_events(&vec![
        toplevel(1),
        toplevel(2),
        toplevel(3),
        Signal::SurfaceDestroy { surface: 2 },
        Signal::SurfaceDestroy { surface: 1 },
    ]);
    assert_eq!(pass.handled, 5);
    assert_eq!(server.retired(), &vec![View { surface: 2 }, View { surface: 1 }]);
    let pass = server.poll_events(&vec![Signal::SurfaceDestroy { surface: 3 }]);
    assert_eq!(pass.handled, 1);
    assert_eq!(server.retired(), &vec![View { surface: 3 }]);
    let pass = server.poll_events(&Vec::new());
    assert_eq!(pass.handled, 0);
    assert!(pass.events.is_empty());
    assert!(pass.commands.is_empty());
    assert!(server.retired().is_empty());
}

#[test]
fn events_of_a_pass_keep_the_order_of_delivery() {
    let mut server = started();
    let x = Scalar { bits: 0.25f64.to_bits() };
    let y = Scalar { bits: (-8.5f64).to_bits() };
    let when = Timestamp { secs: 12, nanos: 345 };
    let signals = vec![
        Signal::NewOutput { output: 7, modes: Vec::new() },
        Signal::CursorMotion { time_ms: 1, delta_x: x, delta_y: y },
        toplevel(20),
        Signal::CursorMotionAbsolute { time_ms: 2, x: y, y: x },
        Signal::CursorButton { time_ms: 3, state: ButtonState::Released, button: 273 },
        Signal::RequestResize { surface: 20, edges: 10 },
        Signal::CursorAxis {
            time_ms: 4,
            orientation: AxisOrientation::Horizontal,
            source: AxisSource::Finger,
            delta: x,
            delta_discrete: -3,
        },
        Signal::OutputFrame { output: 7, when },
        Signal::RequestMove { surface: 20 },
        Signal::CursorFrame,
        Signal::RequestSetCursor { serial: 99, hotspot_x: 4, hotspot_y: -5 },
        Signal::CursorFrame,
    ];
    let pass = server.poll_events(&signals);
    assert_eq!(pass.handled, signals.len());
    let output = server.find_output(7).unwrap();
    let view = server.find_view(20).unwrap();
    assert_eq!(
        pass.events,
        vec![
            Event::CursorMotion { time_ms: 1, delta_x: x, delta_y: y },
            Event::ViewCreated { view },
            Event::CursorMotionAbsolute { time_ms: 2, x: y, y: x },
            Event::CursorButton { time_ms: 3, state: ButtonState::Released, button: 273 },
            Event::ViewResizeRequested { view, edges: 10 },
            Event::CursorAxis {
                time_ms: 4,
                orientation: AxisOrientation::Horizontal,
                source: AxisSource::Finger,
                delta: x,
                delta_discrete: -3,
            },
            Event::OutputFrameReady { output, when },
            Event::ViewMoveRequested { view },
            Event::CursorFrame,
            Event::CursorImageRequested { serial: 99, hotspot_x: 4, hotspot_y: -5 },
            Event::CursorFrame,
        ]
    );
    assert_eq!(pass.commands.len(), 3 + 5);
    assert!(server.take_events().is_empty());
}

#[test]
fn events_wait_until_they_are_taken() {
    let mut server = started();
    server.cursor_frame();
    server.cursor_button(5, ButtonState::Pressed, 272);
    server.begin_pass();
    server.seat_request_set_cursor(1, 2, 3);
    assert_eq!(
        server.take_events(),
        vec![
            Event::CursorFrame,
            Event::CursorButton { time_ms: 5, state: ButtonState::Pressed, button: 272 },
            Event::CursorImageRequested { serial: 1, hotspot_x: 2, hotspot_y: 3 },
        ]
    );
    assert!(server.take_events().is_empty());
}

#[test]
fn pass_stops_before_a_signal_without_owner() {
    let mut server = started();
    let signals = vec![
        toplevel(1),
        Signal::SurfaceMap { surface: 1 },
        Signal::SurfaceMap { surface: 2 },
        Signal::SurfaceUnmap { surface: 1 },
    ];
    let pass = server.poll_events(&signals);
    assert_eq!(pass.handled, 2);
    assert_eq!(pass.events.len(), 2);
    assert_eq!(pass.commands.len(), 5);
    assert!(!server.admits(&signals[2]));
    assert!(server.admits(&signals[3]));
}

#[test]
fn signal_after_destruction_is_not_admitted() {
    let mut server = started();
    server.dispatch(&toplevel(1));
    assert!(server.admits(&Signal::SurfaceDestroy { surface: 1 }));
    server.dispatch(&Signal::SurfaceDestroy { surface: 1 });
    for signal in [
        Signal::SurfaceMap { surface: 1 },
        Signal::SurfaceUnmap { surface: 1 },
        Signal::SurfaceDestroy { surface: 1 },
        Signal::RequestMove { surface: 1 },
        Signal::RequestResize { surface: 1, edges: 0 },
    ] {
        assert!(!server.admits(&signal));
    }
    assert!(!server.admits(&Signal::OutputFrame {
        output: 1,
        when: Timestamp { secs: 0, nanos: 0 }
    }));
    assert!(server.admits(&Signal::CursorFrame));
    assert!(server.admits(&toplevel(1)));
}

#[test]
fn view_handlers_use_the_views_own_handle() {
    let mut server = started();
    let a = server.dispatch(&toplevel(1)).issued.unwrap();
    let b = server.dispatch(&toplevel(2)).issued.unwrap();
    server.take_events();
    let first = View { surface: 1 };
    let second = View { surface: 2 };
    second.xdg_surface_map(&mut server);
    first.xdg_surface_request_resize(&mut server, 6);
    second.xdg_surface_request_move(&mut server);
    first.xdg_surface_unmap(&mut server);
    second.xdg_surface_destroy(&mut server);
    assert_eq!(
        server.take_events(),
        vec![
            Event::ViewMapped { view: b },
            Event::ViewResizeRequested { view: a, edges: 6 },
            Event::ViewMoveRequested { view: b },
            Event::ViewUnmapped { view: a },
            Event::ViewDestroyed { view: b },
        ]
    );
    assert_eq!(server.get_view(a), Some(first));
    assert_eq!(server.get_view(b), None);
}

#[test]
fn output_frame_names_the_output_and_the_time() {
    let mut server = started();
    let (a, _) = server.backend_new_output(100, &Vec::new());
    let (b, _) = server.backend_new_output(200, &Vec::new());
    let when = Timestamp { secs: 3, nanos: 999_999_999 };
    Output { output: 200 }.output_frame(&mut server, when);
    Output { output: 100 }.output_frame(&mut server, Timestamp { secs: 4, nanos: 0 });
    assert_eq!(
        server.take_events(),
        vec![
            Event::OutputFrameReady { output: b, when },
            Event::OutputFrameReady { output: a, when: Timestamp { secs: 4, nanos: 0 } },
        ]
    );
}

#[test]
fn render_skips_a_stale_handle() {
    let mut server = started();
    let (out, _) = server.backend_new_output(1, &Vec::new());
    let a = server.dispatch(&toplevel(10)).issued.unwrap();
    let b = server.dispatch(&toplevel(20)).issued.unwrap();
    let c = server.dispatch(&toplevel(30)).issued.unwrap();
    server.dispatch(&Signal::SurfaceDestroy { surface: 20 });
    let ra = Rect { x: 0, y: 0, w: 100, h: 50 };
    let rb = Rect { x: 5, y: 6, w: 7, h: 8 };
    let rc = Rect { x: -10, y: 20, w: 30, h: 40 };
    let output = server.get_output(out).unwrap();
    let steps = output.render_views(&server, &vec![(a, ra), (b, rb), (c, rc)], true);
    assert_eq!(
        steps,
        vec![
            RenderStep::Begin { output: 1 },
            RenderStep::Clear,
            RenderStep::Surfaces { surface: 10, placement: ra },
            RenderStep::Surfaces { surface: 30, placement: rc },
            RenderStep::SoftwareCursors { output: 1 },
            RenderStep::End,
            RenderStep::Commit { output: 1 },
        ]
    );
}

#[test]
fn render_keeps_the_order_of_the_requests() {
    let mut server = started();
    let a = server.dispatch(&toplevel(10)).issued.unwrap();
    let b = server.dispatch(&toplevel(20)).issued.unwrap();
    let r = Rect { x: 1, y: 2, w: 3, h: 4 };
    let output = Output { output: 9 };
    let steps = output.render_views(&server, &vec![(b, r), (a, r), (b, r)], true);
    assert_eq!(
        steps[2..5],
        [
            RenderStep::Surfaces { surface: 20, placement: r },
            RenderStep::Surfaces { surface: 10, placement: r },
            RenderStep::Surfaces { surface: 20, placement: r },
        ]
    );
    assert_eq!(steps.len(), 8);
    assert_eq!(steps.iter().filter(|s| matches!(s, RenderStep::Commit { .. })).count(), 1);
}

#[test]
fn render_of_nothing_still_commits_a_frame() {
    let server = started();
    let steps = Output { output: 2 }.render_views(&server, &Vec::new(), true);
    assert_eq!(
        steps,
        vec![
            RenderStep::Begin { output: 2 },
            RenderStep::Clear,
            RenderStep::SoftwareCursors { output: 2 },
            RenderStep::End,
            RenderStep::Commit { output: 2 },
        ]
    );
}

#[test]
fn render_without_a_buffer_does_nothing() {
    let mut server = started();
    let a = server.dispatch(&toplevel(10)).issued.unwrap();
    let r = Rect { x: 1, y: 2, w: 3, h: 4 };
    let steps = Output { output: 2 }.render_views(&server, &vec![(a, r)], false);
    assert!(steps.is_empty());
}

#[test]
fn origin_of_a_sub_surface() {
    let r = Rect { x: 10, y: -20, w: 1, h: 1 };
    assert_eq!(r.origin_of(5, 7), (15, -13));
    assert_eq!(r.origin_of(0, 0), (10, -20));
    let far = Rect { x: i32::MAX, y: i32::MIN, w: 0, h: 0 };
    assert_eq!(far.origin_of(i32::MAX, i32::MIN), (4294967294, -4294967296));
}

#[test]
fn shutdown_releases_backend_then_display() {
    let server = started();
    assert_eq!(
        server.shutdown(),
        vec![ynwm::startup::Resource::Backend, ynwm::startup::Resource::Display]
    );
}

#[test]
fn one_new_output_makes_one_entry() {
    let mut server = started();
    assert!(server.outputs().is_empty());
    let first = Mode { width: 640, height: 480, refresh: 60000 };
    let second = Mode { width: 1024, height: 768, refresh: 60000 };
    let pass = server.poll_events(&vec![Signal::NewOutput { output: 31, modes: vec![first, second] }]);
    assert_eq!(pass.handled, 1);
    assert!(pass.events.is_empty());
    assert!(pass.commands.contains(&Command::SetOutputMode { output: 31, mode: second }));
    assert!(!pass.commands.contains(&Command::SetOutputMode { output: 31, mode: first }));
    let outputs = server.outputs();
    assert_eq!(outputs.len(), 1);
    assert_eq!(outputs[0].1, Output { output: 31 });
    assert_eq!(server.get_output(outputs[0].0), Some(Output { output: 31 }));
    assert!(server.views().is_empty());
}

#[test]
fn views_are_listed_with_their_handles() {
    let mut server = started();
    let a = server.dispatch(&toplevel(1)).issued.unwrap();
    let b = server.dispatch(&toplevel(2)).issued.unwrap();
    let c = server.dispatch(&toplevel(3)).issued.unwrap();
    server.dispatch(&Signal::SurfaceDestroy { surface: 2 });
    let views = server.views();
    assert_eq!(views.len(), 2);
    assert!(views.contains(&(a, View { surface: 1 })));
    assert!(views.contains(&(c, View { surface: 3 })));
    assert!(!views.iter().any(|entry| entry.0 == b));
    assert!(views[0].0.slot < views[1].0.slot);
}
