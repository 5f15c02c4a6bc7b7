use layerbar::error::Error;
use layerbar::error::MissingError;
use layerbar::error::Violation;
use layerbar::gate::InitialGateState;
use layerbar::gate::LazyBind;
use layerbar::gate::Mode;
use layerbar::gate::PrepareGateState;
use layerbar::reg::Bound;
use layerbar::wire::Action;
use layerbar::wire::DiscoveryEvent;
use layerbar::wire::Global;
use layerbar::wire::Layer;
use layerbar::wire::OutputEvent;
use layerbar::wire::PixelFormat;
use layerbar::wire::RegistryEvent;
use layerbar::wire::ShmEvent;

fn global(name: u32, interface: &str, version: u32) -> DiscoveryEvent {
    DiscoveryEvent::Registry(RegistryEvent::Global {
        name,
        interface: interface.to_string(),
        version,
    })
}

fn format(code: u32) -> DiscoveryEvent {
    DiscoveryEvent::Shm(ShmEvent::Format { code })
}

fn missing(name: &str) -> Error {
    Error::MissingCapability(MissingError(name.to_string()))
}

/// Feeds the events and expects each to be taken without a violation.
fn discover(events: &[DiscoveryEvent]) -> InitialGateState {
    let mut state = InitialGateState::default();
    for e in events {
        state.event(e).unwrap();
    }
    state
}

#[test]
fn interface_names_are_those_of_the_protocol() {
    assert_eq!(Global::Compositor.name(), "wl_compositor");
    assert_eq!(Global::Shm.name(), "wl_shm");
    assert_eq!(Global::LayerShell.name(), "zwlr_layer_shell_v1");
    assert_eq!(Global::Output.name(), "wl_output");
}

#[test]
fn classify_knows_the_four_interfaces_only() {
    assert_eq!(Global::classify(&"wl_compositor".to_string()), Some(Global::Compositor));
    assert_eq!(Global::classify(&"wl_shm".to_string()), Some(Global::Shm));
    assert_eq!(Global::classify(&"zwlr_layer_shell_v1".to_string()), Some(Global::LayerShell));
    assert_eq!(Global::classify(&"wl_output".to_string()), Some(Global::Output));
    assert_eq!(Global::classify(&"wl_seat".to_string()), None);
    assert_eq!(Global::classify(&"".to_string()), None);
    assert_eq!(Global::classify(&"wl_compositor ".to_string()), None);
}

#[test]
fn format_codes_are_those_of_the_protocol() {
    assert_eq!(PixelFormat::Argb8888.code(), 0);
    assert_eq!(PixelFormat::Rgba8888.code(), 0x3432_4152);
    assert_eq!(PixelFormat::from_code(0), Some(PixelFormat::Argb8888));
    assert_eq!(PixelFormat::from_code(0x3432_4152), Some(PixelFormat::Rgba8888));
    assert_eq!(PixelFormat::from_code(1), None);
    assert_eq!(PixelFormat::from_code(0x3432_4241), None);
}

#[test]
fn capabilities_are_bound_as_they_are_announced() {
    let mut state = InitialGateState::default();
    assert_eq!(
        state.event(&global(1, "wl_compositor", 6)),
        Ok(Some(Action::Bind { global: Global::Compositor, name: 1, version: 6 }))
    );
    assert_eq!(
        state.event(&global(2, "wl_shm", 1)),
        Ok(Some(Action::Bind { global: Global::Shm, name: 2, version: 1 }))
    );
    assert_eq!(
        state.event(&global(3, "zwlr_layer_shell_v1", 4)),
        Ok(Some(Action::Bind { global: Global::LayerShell, name: 3, version: 4 }))
    );
    assert_eq!(
        state.compositor,
        Some(Bound { global: Global::Compositor, name: 1, version: 6 })
    );
    assert_eq!(state.shm, Some(Bound { global: Global::Shm, name: 2, version: 1 }));
    assert_eq!(
        state.layer_shell,
        Some(Bound { global: Global::LayerShell, name: 3, version: 4 })
    );
}

#[test]
fn outputs_are_recorded_and_not_bound_yet() {
    let mut state = InitialGateState::default();
    assert_eq!(state.event(&global(40, "wl_output", 4)), Ok(None));
    assert_eq!(state.event(&global(41, "wl_output", 3)), Ok(None));
    assert_eq!(
        state.outputs,
        vec![LazyBind { name: 40, version: 4 }, LazyBind { name: 41, version: 3 }]
    );
}

#[test]
fn other_globals_are_passed_over() {
    let mut state = InitialGateState::default();
    assert_eq!(state.event(&global(9, "wl_seat", 7)), Ok(None));
    assert_eq!(state, InitialGateState::default());
}

#[test]
fn a_capability_announced_twice_is_a_violation() {
    for interface in ["wl_compositor", "wl_shm", "zwlr_layer_shell_v1", "wl_output"] {
        let mut state = InitialGateState::default();
        state.event(&global(1, interface, 1)).unwrap();
        let before = state.clone();
        assert_eq!(
            state.event(&global(1, interface, 1)),
            Err(Error::ProtocolViolation(Violation::DuplicateGlobal))
        );
        assert_eq!(state, before);
    }
}

#[test]
fn a_second_compositor_under_another_name_is_a_violation() {
    let mut state = discover(&[global(1, "wl_compositor", 6)]);
    assert_eq!(
        state.event(&global(2, "wl_compositor", 6)),
        Err(Error::ProtocolViolation(Violation::DuplicateGlobal))
    );
}

#[test]
fn a_second_output_under_another_name_is_recorded() {
    let state = discover(&[global(1, "wl_output", 4), global(2, "wl_output", 4)]);
    assert_eq!(state.outputs.len(), 2);
}

#[test]
fn the_removal_of_a_global_is_a_violation() {
    let mut state = discover(&[global(1, "wl_compositor", 6)]);
    let before = state.clone();
    for e in [
        DiscoveryEvent::Registry(RegistryEvent::GlobalRemove { name: 1 }),
        DiscoveryEvent::Registry(RegistryEvent::Other),
        DiscoveryEvent::Shm(ShmEvent::Other),
    ] {
        assert_eq!(state.event(&e), Err(Error::ProtocolViolation(Violation::UnexpectedEvent)));
        assert_eq!(state, before);
    }
}

#[test]
fn either_format_raises_the_flag_and_nothing_lowers_it() {
    let mut state = InitialGateState::default();
    assert_eq!(state.event(&format(1)), Ok(None));
    assert!(!state.is_rgba8888_supported);
    assert_eq!(state.event(&format(0x3432_4152)), Ok(None));
    assert!(state.is_rgba8888_supported);
    assert_eq!(state.event(&format(1)), Ok(None));
    assert!(state.is_rgba8888_supported);

    let state = discover(&[format(0)]);
    assert!(state.is_rgba8888_supported);
}

#[test]
fn forward_names_the_one_capability_that_is_missing() {
    let all = [
        ("wl_compositor", 1),
        ("wl_shm", 2),
        ("zwlr_layer_shell_v1", 3),
    ];
    for (absent, _) in all {
        for with_format in [false, true] {
            let mut events = Vec::new();
            for (interface, name) in all {
                if interface != absent {
                    events.push(global(name, interface, 1));
                }
            }
            events.push(global(9, "wl_output", 4));
            if with_format {
                events.push(format(0));
            }
            let r = discover(&events).forward();
            assert_eq!(r, Err(missing(absent)));
        }
    }
}

#[test]
fn forward_names_the_first_of_several_that_are_missing() {
    assert_eq!(InitialGateState::default().forward(), Err(missing("wl_compositor")));
    assert_eq!(
        discover(&[global(1, "wl_compositor", 6)]).forward(),
        Err(missing("wl_shm"))
    );
    assert_eq!(
        discover(&[global(1, "wl_compositor", 6), global(2, "wl_shm", 1)]).forward(),
        Err(missing("zwlr_layer_shell_v1"))
    );
    assert_eq!(
        discover(&[global(3, "zwlr_layer_shell_v1", 4), global(2, "wl_shm", 1)]).forward(),
        Err(missing("wl_compositor"))
    );
}

#[test]
fn forward_without_a_format_is_unsupported() {
    let events = [
        global(1, "wl_compositor", 6),
        global(2, "wl_shm", 1),
        global(3, "zwlr_layer_shell_v1", 4),
        global(4, "wl_output", 4),
        format(1),
        format(0x3231_3559),
    ];
    assert_eq!(discover(&events).forward(), Err(Error::UnsupportedPixelFormat));
}

#[test]
fn forward_hands_the_bundle_on() {
    let events = [
        global(4, "wl_output", 4),
        global(1, "wl_compositor", 6),
        format(0),
        global(2, "wl_shm", 1),
        global(5, "wl_output", 3),
        global(3, "zwlr_layer_shell_v1", 4),
    ];
    let next = discover(&events).forward().unwrap();
    assert_eq!(next.compositor, Bound { global: Global::Compositor, name: 1, version: 6 });
    assert_eq!(next.shm, Bound { global: Global::Shm, name: 2, version: 1 });
    assert_eq!(next.layer_shell, Bound { global: Global::LayerShell, name: 3, version: 4 });
    assert_eq!(
        next.outputs,
        vec![
            Bound { global: Global::Output, name: 4, version: 4 },
            Bound { global: Global::Output, name: 5, version: 3 },
        ]
    );
    assert!(next.modes.is_empty());
    assert_eq!(
        next.binds(),
        vec![
            Action::Bind { global: Global::Output, name: 4, version: 4 },
            Action::Bind { global: Global::Output, name: 5, version: 3 },
        ]
    );
}

#[test]
fn lazy_bind_gives_the_output_as_bound() {
    let lazy = LazyBind::new(12, 3);
    assert_eq!(lazy, LazyBind { name: 12, version: 3 });
    assert_eq!(lazy.bind(), Bound { global: Global::Output, name: 12, version: 3 });
    assert_eq!(
        lazy.bind().bind(),
        Action::Bind { global: Global::Output, name: 12, version: 3 }
    );
}

fn prepared(outputs: &[u32]) -> PrepareGateState {
    let mut events = vec![
        global(1, "wl_compositor", 6),
        global(2, "wl_shm", 1),
        global(3, "zwlr_layer_shell_v1", 4),
        format(0),
    ];
    for name in outputs {
        events.push(global(*name, "wl_output", 4));
    }
    discover(&events).forward().unwrap()
}

#[test]
fn a_mode_is_recorded_once() {
    let mut state = prepared(&[10]);
    assert_eq!(state.event(10, OutputEvent::Mode { width: 1920, height: 1080 }), Ok(()));
    assert_eq!(state.modes.get(&10), Some(&Mode { width: 1920, height: 1080 }));
    assert_eq!(
        state.event(10, OutputEvent::Mode { width: 1280, height: 720 }),
        Err(Error::ProtocolViolation(Violation::DuplicateMode))
    );
    assert_eq!(state.modes.get(&10), Some(&Mode { width: 1920, height: 1080 }));
}

#[test]
fn the_other_output_events_change_nothing() {
    let mut state = prepared(&[10]);
    let before = state.clone();
    for e in [
        OutputEvent::Geometry,
        OutputEvent::Done,
        OutputEvent::Scale,
        OutputEvent::Name,
        OutputEvent::Description,
    ] {
        assert_eq!(state.event(10, e), Ok(()));
        assert_eq!(state, before);
    }
    assert_eq!(
        state.event(10, OutputEvent::Other),
        Err(Error::ProtocolViolation(Violation::UnexpectedEvent))
    );
    assert_eq!(state, before);
}

#[test]
fn a_negative_mode_is_a_violation() {
    let mut state = prepared(&[10]);
    assert_eq!(
        state.event(10, OutputEvent::Mode { width: -1, height: 1080 }),
        Err(Error::ProtocolViolation(Violation::InvalidMode))
    );
    assert_eq!(
        state.event(10, OutputEvent::Mode { width: 1920, height: -1080 }),
        Err(Error::ProtocolViolation(Violation::InvalidMode))
    );
    assert!(state.modes.is_empty());
}

#[test]
fn an_output_without_a_mode_is_missing() {
    let mut state = prepared(&[10, 11, 12]);
    assert_eq!(state.first_unmoded(), Some(10));
    state.event(10, OutputEvent::Mode { width: 1920, height: 1080 }).unwrap();
    assert_eq!(state.first_unmoded(), Some(11));
    state.event(12, OutputEvent::Mode { width: 1920, height: 1080 }).unwrap();
    assert_eq!(state.first_unmoded(), Some(11));
    assert_eq!(state.clone().forward(Layer::Background), Err(missing("output mode")));
    state.event(11, OutputEvent::Mode { width: 1920, height: 1080 }).unwrap();
    assert_eq!(state.first_unmoded(), None);
    assert!(state.forward(Layer::Background).is_ok());

    let state = prepared(&[10]);
    assert_eq!(state.forward(Layer::Background), Err(missing("output mode")));
}

#[test]
fn a_missing_mode_outweighs_a_mode_that_does_not_fit() {
    let mut state = prepared(&[10, 11]);
    state.event(10, OutputEvent::Mode { width: 30000, height: 30000 }).unwrap();
    assert_eq!(state.forward(Layer::Background), Err(missing("output mode")));
}

#[test]
fn a_mode_whose_buffer_does_not_fit_the_wire_fails() {
    let mut state = prepared(&[10]);
    state.event(10, OutputEvent::Mode { width: 30000, height: 30000 }).unwrap();
    assert_eq!(state.forward(Layer::Background), Err(Error::IoError));

    let mut state = prepared(&[10]);
    state.event(10, OutputEvent::Mode { width: 0, height: 1080 }).unwrap();
    assert_eq!(state.forward(Layer::Background), Err(Error::IoError));
}

#[test]
fn no_outputs_give_no_windows() {
    let ready = prepared(&[]).forward(Layer::Background).unwrap();
    assert!(ready.windows.is_empty());
}

#[test]
fn one_window_for_each_output_with_its_own_mode() {
    let mut state = prepared(&[10, 11, 12]);
    state.event(12, OutputEvent::Mode { width: 800, height: 600 }).unwrap();
    state.event(10, OutputEvent::Mode { width: 1920, height: 1080 }).unwrap();
    state.event(11, OutputEvent::Mode { width: 2560, height: 1440 }).unwrap();
    let ready = state.forward(Layer::Overlay).unwrap();
    assert_eq!(ready.windows.len(), 3);
    let seen: Vec<(u32, Mode, usize)> =
        ready.windows.iter().map(|w| (w.output, w.mode, w.byte_len())).collect();
    assert_eq!(
        seen,
        vec![
            (10, Mode { width: 1920, height: 1080 }, 1920 * 1080 * 4),
            (11, Mode { width: 2560, height: 1440 }, 2560 * 1440 * 4),
            (12, Mode { width: 800, height: 600 }, 800 * 600 * 4),
        ]
    );
    for w in &ready.windows {
        assert_eq!(w.surface.output, w.output);
        assert_eq!(w.surface.layer, Layer::Overlay);
    }
}

#[test]
fn scenario_one_output_of_1920_by_1080() {
    let events = [
        global(1, "wl_compositor", 6),
        global(2, "wl_shm", 1),
        format(0),
        format(1),
        global(3, "zwlr_layer_shell_v1", 4),
        global(4, "wl_output", 4),
    ];
    let mut prepare = discover(&events).forward().unwrap();
    assert_eq!(
        prepare.binds(),
        vec![Action::Bind { global: Global::Output, name: 4, version: 4 }]
    );
    prepare.event(4, OutputEvent::Geometry).unwrap();
    prepare.event(4, OutputEvent::Mode { width: 1920, height: 1080 }).unwrap();
    prepare.event(4, OutputEvent::Done).unwrap();
    let ready = prepare.forward(Layer::Background).unwrap();
    assert_eq!(ready.windows.len(), 1);
    assert_eq!(ready.windows[0].output, 4);
    assert_eq!(ready.windows[0].byte_len(), 8_294_400);
    assert_eq!(ready.windows[0].pool.shared.len(), 8_294_400);
}

#[test]
fn scenario_no_rgba_or_argb_gives_no_window() {
    let events = [
        global(1, "wl_compositor", 6),
        global(2, "wl_shm", 1),
        format(1),
        global(3, "zwlr_layer_shell_v1", 4),
        global(4, "wl_output", 4),
    ];
    let r = discover(&events).forward();
    assert_eq!(r, Err(Error::UnsupportedPixelFormat));
}

#[test]
fn errors_describe_themselves() {
    assert_eq!(MissingError::new("wl_shm").to_string(), "Missing wl_shm");
    assert_eq!(MissingError::new("wl_shm").name(), "wl_shm");
    assert_eq!(missing("output mode").describe(), "Missing output mode");
    assert_eq!(Error::UnsupportedPixelFormat.describe(), "unsupported pixel format");
    assert_eq!(
        Error::ProtocolViolation(Violation::SurfaceClosed).describe(),
        "protocol violation: surface closed"
    );
    let described = [
        (Violation::DuplicateGlobal, "global announced twice"),
        (Violation::DuplicateMode, "mode reported twice"),
        (Violation::InvalidMode, "mode with a negative dimension"),
        (Violation::UnexpectedEvent, "unexpected event"),
        (Violation::ForeignOutput, "event of another output"),
        (Violation::ConfigureMismatch, "configure event of another size"),
        (Violation::SurfaceClosed, "surface closed"),
        (Violation::OutOfOrder, "operation out of order"),
        (Violation::BufferGeometry, "buffer does not cover its memory"),
    ];
    for (v, text) in described {
        assert_eq!(v.description(), text);
    }
    assert_eq!(Error::IoError.describe(), "shared memory failure");
    assert_eq!(Error::ConnectionError.describe(), "connection failure");
}
