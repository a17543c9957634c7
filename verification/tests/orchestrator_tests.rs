use uwu_notify::events::{
    Action, DisplayEvent, PointerKind, PointerSample, SeatDevice, UiEvent, KEYSYM_ESCAPE,
};
use uwu_notify::orchestrator::Orchestrator;

fn configure(width: u32, height: u32, serial: u32) -> DisplayEvent {
    DisplayEvent::Configure {
        width,
        height,
        serial,
    }
}

#[test]
fn no_draw_before_configure() {
    let mut orch = Orchestrator::new();
    let actions = orch.handle(&DisplayEvent::Frame { time: 16 });
    assert!(actions.is_empty());
    let actions = orch.handle(&DisplayEvent::Frame { time: 32 });
    assert!(actions.is_empty());
}

#[test]
fn configure_then_two_frames_draws_twice_at_size() {
    let mut orch = Orchestrator::new();
    // No draw may occur before the configure.
    assert!(orch.handle(&DisplayEvent::Frame { time: 0 }).is_empty());

    let actions = orch.handle(&configure(300, 200, 1));
    assert_eq!(
        actions,
        vec![
            Action::Resize {
                width: 300,
                height: 200
            },
            Action::Draw {
                width: 300,
                height: 200
            },
        ]
    );

    // The two frame callbacks yield exactly two draw/swap cycles, both
    // at the negotiated size.
    let first = orch.handle(&DisplayEvent::Frame { time: 16 });
    let second = orch.handle(&DisplayEvent::Frame { time: 33 });
    assert_eq!(
        first,
        vec![Action::Draw {
            width: 300,
            height: 200
        }]
    );
    assert_eq!(
        second,
        vec![Action::Draw {
            width: 300,
            height: 200
        }]
    );
}

#[test]
fn zero_size_configure_falls_back_to_minimum() {
    let mut orch = Orchestrator::new();
    let actions = orch.handle(&configure(0, 0, 1));
    assert_eq!(
        actions,
        vec![
            Action::Resize {
                width: 256,
                height: 256
            },
            Action::Draw {
                width: 256,
                height: 256
            },
        ]
    );
    // A single zero dimension falls back too: no zero-area buffer ever.
    let actions = orch.handle(&configure(0, 50, 2));
    assert_eq!(
        actions,
        vec![
            Action::Resize {
                width: 256,
                height: 256
            },
            Action::Draw {
                width: 256,
                height: 256
            },
        ]
    );
}

#[test]
fn reconfigure_changes_the_drawn_size() {
    let mut orch = Orchestrator::new();
    orch.handle(&configure(300, 200, 1));
    orch.handle(&configure(400, 100, 2));
    let frame = orch.handle(&DisplayEvent::Frame { time: 5 });
    assert_eq!(
        frame,
        vec![Action::Draw {
            width: 400,
            height: 100
        }]
    );
}

#[test]
fn seat_capability_cycle_keeps_one_keyboard() {
    let mut orch = Orchestrator::new();
    let added = orch.handle(&DisplayEvent::CapabilityAdded {
        device: SeatDevice::Keyboard,
    });
    assert_eq!(added, vec![Action::CreateKeyboard]);
    // A second capability event while the object is live is a no-op.
    let again = orch.handle(&DisplayEvent::CapabilityAdded {
        device: SeatDevice::Keyboard,
    });
    assert!(again.is_empty());
    let removed = orch.handle(&DisplayEvent::CapabilityRemoved {
        device: SeatDevice::Keyboard,
    });
    assert_eq!(removed, vec![Action::ReleaseKeyboard]);
    let removed_again = orch.handle(&DisplayEvent::CapabilityRemoved {
        device: SeatDevice::Keyboard,
    });
    assert!(removed_again.is_empty());
    // Re-adding creates exactly one more.
    let readded = orch.handle(&DisplayEvent::CapabilityAdded {
        device: SeatDevice::Keyboard,
    });
    assert_eq!(readded, vec![Action::CreateKeyboard]);
}

#[test]
fn seat_capability_cycle_keeps_one_pointer() {
    let mut orch = Orchestrator::new();
    let added = orch.handle(&DisplayEvent::CapabilityAdded {
        device: SeatDevice::Pointer,
    });
    assert_eq!(added, vec![Action::CreatePointer]);
    assert!(orch
        .handle(&DisplayEvent::CapabilityAdded {
            device: SeatDevice::Pointer,
        })
        .is_empty());
    let removed = orch.handle(&DisplayEvent::CapabilityRemoved {
        device: SeatDevice::Pointer,
    });
    assert_eq!(removed, vec![Action::ReleasePointer]);
    let readded = orch.handle(&DisplayEvent::CapabilityAdded {
        device: SeatDevice::Pointer,
    });
    assert_eq!(readded, vec![Action::CreatePointer]);
}

#[test]
fn other_capabilities_are_ignored() {
    let mut orch = Orchestrator::new();
    assert!(orch
        .handle(&DisplayEvent::CapabilityAdded {
            device: SeatDevice::Other,
        })
        .is_empty());
    assert!(orch
        .handle(&DisplayEvent::CapabilityRemoved {
            device: SeatDevice::Other,
        })
        .is_empty());
}

#[test]
fn pointer_press_reaches_bridge_at_surface_local_coordinates() {
    let mut orch = Orchestrator::new();
    let actions = orch.handle(&DisplayEvent::PointerFrame {
        samples: vec![PointerSample {
            kind: PointerKind::Press { button: 0x110 },
            x: 10,
            y: 20,
            on_surface: true,
        }],
    });
    assert!(actions.is_empty());
    let snapshot = orch.take_input();
    assert_eq!(
        snapshot,
        vec![UiEvent::PointerButton {
            x: 10,
            y: 20,
            pressed: true
        }]
    );
}

#[test]
fn pointer_batch_is_normalized_in_order() {
    let mut orch = Orchestrator::new();
    orch.handle(&DisplayEvent::PointerFrame {
        samples: vec![
            PointerSample {
                kind: PointerKind::Enter,
                x: 1,
                y: 1,
                on_surface: true,
            },
            PointerSample {
                kind: PointerKind::Motion,
                x: 5,
                y: 6,
                on_surface: true,
            },
            PointerSample {
                kind: PointerKind::Press { button: 0x110 },
                x: 5,
                y: 6,
                on_surface: true,
            },
            PointerSample {
                kind: PointerKind::Release { button: 0x110 },
                x: 5,
                y: 7,
                on_surface: true,
            },
            PointerSample {
                kind: PointerKind::Axis,
                x: 5,
                y: 7,
                on_surface: true,
            },
            PointerSample {
                kind: PointerKind::Leave,
                x: 0,
                y: 0,
                on_surface: true,
            },
        ],
    });
    let snapshot = orch.take_input();
    assert_eq!(
        snapshot,
        vec![
            UiEvent::PointerMoved { x: 5, y: 6 },
            UiEvent::PointerButton {
                x: 5,
                y: 6,
                pressed: true
            },
            UiEvent::PointerButton {
                x: 5,
                y: 7,
                pressed: false
            },
            UiEvent::PointerGone,
        ]
    );
}

#[test]
fn samples_for_other_surfaces_are_ignored() {
    let mut orch = Orchestrator::new();
    orch.handle(&DisplayEvent::PointerFrame {
        samples: vec![PointerSample {
            kind: PointerKind::Motion,
            x: 9,
            y: 9,
            on_surface: false,
        }],
    });
    assert!(orch.take_input().is_empty());
}

#[test]
fn snapshot_is_consumed_exactly_once() {
    let mut orch = Orchestrator::new();
    orch.handle(&DisplayEvent::PointerFrame {
        samples: vec![PointerSample {
            kind: PointerKind::Motion,
            x: 2,
            y: 3,
            on_surface: true,
        }],
    });
    let first = orch.take_input();
    assert_eq!(first.len(), 1);
    let second = orch.take_input();
    assert!(second.is_empty());
}

#[test]
fn escape_sets_the_exit_flag() {
    let mut orch = Orchestrator::new();
    assert!(!orch.should_exit());
    orch.handle(&DisplayEvent::KeyPress { keysym: 0x61 });
    assert!(!orch.should_exit());
    orch.handle(&DisplayEvent::KeyRelease {
        keysym: KEYSYM_ESCAPE,
    });
    assert!(!orch.should_exit());
    orch.handle(&DisplayEvent::KeyPress {
        keysym: KEYSYM_ESCAPE,
    });
    assert!(orch.should_exit());
}

#[test]
fn closed_surface_exits_and_draws_no_more() {
    let mut orch = Orchestrator::new();
    orch.handle(&configure(300, 200, 1));
    let actions = orch.handle(&DisplayEvent::Closed);
    assert!(actions.is_empty());
    assert!(orch.should_exit());
    // Once destroyed, neither frames nor configures draw again.
    assert!(orch.handle(&DisplayEvent::Frame { time: 1 }).is_empty());
    assert!(orch.handle(&configure(640, 480, 2)).is_empty());
}

#[test]
fn bookkeeping_events_ask_for_nothing() {
    let mut orch = Orchestrator::new();
    assert!(orch.handle(&DisplayEvent::OutputAdded).is_empty());
    assert!(orch.handle(&DisplayEvent::OutputUpdated).is_empty());
    assert!(orch.handle(&DisplayEvent::OutputRemoved).is_empty());
    assert!(orch.handle(&DisplayEvent::ModifiersChanged).is_empty());
    assert!(orch
        .handle(&DisplayEvent::ScaleFactorChanged { factor: 2 })
        .is_empty());
    assert!(!orch.should_exit());
}

#[test]
fn keyboard_focus_follows_enter_and_leave() {
    let mut orch = Orchestrator::new();
    assert!(!orch.keyboard_focus);
    orch.handle(&DisplayEvent::KeyboardEnter { on_surface: false });
    assert!(!orch.keyboard_focus);
    orch.handle(&DisplayEvent::KeyboardEnter { on_surface: true });
    assert!(orch.keyboard_focus);
    orch.handle(&DisplayEvent::KeyboardLeave { on_surface: true });
    assert!(!orch.keyboard_focus);
}
