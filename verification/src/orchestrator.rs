//! The display-session orchestrator: one state machine that takes
//! every inbound display event and decides the surface lifecycle, the
//! seat's device objects, the exit flag, and the normalized input
//! stream handed to the render bridge. The caller performs the
//! returned actions against the display server and the rendering
//! context; the decisions are all here.

use vstd::prelude::*;

use crate::events::{
    Action, DisplayEvent, PointerKind, PointerSample, SeatDevice, UiEvent, KEYSYM_ESCAPE,
    MIN_HEIGHT, MIN_WIDTH,
};

verus! {

/// The lifecycle of the overlay surface. No buffer may be committed
/// and no draw issued before the compositor's first configure event.
#[derive(Clone, Copy, PartialEq, Eq, Structural, Debug)]
pub enum SurfaceState {
    /// Created and committed, but not yet configured: drawing is not
    /// allowed yet.
    Created,
    /// The compositor negotiated this size; drawing is allowed.
    Configured { width: u32, height: u32 },
    /// The compositor closed the surface; nothing more happens on it.
    Destroyed,
}

/// The orchestrator's state as contracts speak of it.
#[verifier::ext_equal]
pub struct OrchModel {
    pub surface: SurfaceState,
    pub has_keyboard: bool,
    pub has_pointer: bool,
    pub keyboard_focus: bool,
    pub origin_x: i32,
    pub origin_y: i32,
    pub pending: Seq<UiEvent>,
    pub exit: bool,
}

/// The size a configure event makes effective: a zero dimension falls
/// back to the minimum usable size, so no zero-area buffer is ever
/// asked for.
pub open spec fn spec_effective_size(width: u32, height: u32) -> (u32, u32) {
    if width == 0 || height == 0 {
        (MIN_WIDTH, MIN_HEIGHT)
    } else {
        (width, height)
    }
}

/// A configure event never makes a zero-area size effective: a zero
/// dimension falls back to the minimum usable size, whatever the
/// compositor asked for.
pub proof fn lemma_no_zero_area_size(width: u32, height: u32)
    ensures
        spec_effective_size(width, height).0 > 0,
        spec_effective_size(width, height).1 > 0,
{
}

/// A device-space coordinate translated to the surface-local frame.
pub open spec fn spec_surface_local(device: i32, origin: i32) -> i64 {
    ((device as int) - (origin as int)) as i64
}

/// What one pointer sample contributes to the render bridge's input:
/// nothing for samples off the overlay surface, for enter samples and
/// for scroll samples; otherwise the normalized event at
/// surface-local coordinates. Every device button maps to the one
/// primary logical button.
pub open spec fn spec_normalize_sample(ox: i32, oy: i32, s: PointerSample) -> Option<UiEvent> {
    if !s.on_surface {
        None
    } else {
        match s.kind {
            PointerKind::Enter => None,
            PointerKind::Axis => None,
            PointerKind::Leave => Some(UiEvent::PointerGone),
            PointerKind::Motion => Some(
                UiEvent::PointerMoved {
                    x: spec_surface_local(s.x, ox),
                    y: spec_surface_local(s.y, oy),
                },
            ),
            PointerKind::Press { .. } => Some(
                UiEvent::PointerButton {
                    x: spec_surface_local(s.x, ox),
                    y: spec_surface_local(s.y, oy),
                    pressed: true,
                },
            ),
            PointerKind::Release { .. } => Some(
                UiEvent::PointerButton {
                    x: spec_surface_local(s.x, ox),
                    y: spec_surface_local(s.y, oy),
                    pressed: false,
                },
            ),
        }
    }
}

/// The normalized input of a whole batch of pointer samples, in
/// delivery order.
pub open spec fn spec_normalize_batch(ox: i32, oy: i32, samples: Seq<PointerSample>) -> Seq<
    UiEvent,
>
    decreases samples.len(),
{
    if samples.len() == 0 {
        Seq::empty()
    } else {
        spec_normalize_batch(ox, oy, samples.drop_last()) + (match spec_normalize_sample(
            ox,
            oy,
            samples.last(),
        ) {
            Some(e) => seq![e],
            None => Seq::empty(),
        })
    }
}

/// The orchestrator's state after one event.
pub open spec fn step_state(m: OrchModel, e: DisplayEvent) -> OrchModel {
    match e {
        DisplayEvent::Configure { width, height, .. } => {
            if m.surface is Destroyed {
                m
            } else {
                OrchModel {
                    surface: SurfaceState::Configured {
                        width: spec_effective_size(width, height).0,
                        height: spec_effective_size(width, height).1,
                    },
                    ..m
                }
            }
        },
        DisplayEvent::Frame { .. } => m,
        DisplayEvent::Closed => OrchModel { surface: SurfaceState::Destroyed, exit: true, ..m },
        DisplayEvent::CapabilityAdded { device } => match device {
            SeatDevice::Keyboard => OrchModel { has_keyboard: true, ..m },
            SeatDevice::Pointer => OrchModel { has_pointer: true, ..m },
            SeatDevice::Other => m,
        },
        DisplayEvent::CapabilityRemoved { device } => match device {
            SeatDevice::Keyboard => OrchModel { has_keyboard: false, ..m },
            SeatDevice::Pointer => OrchModel { has_pointer: false, ..m },
            SeatDevice::Other => m,
        },
        DisplayEvent::PointerFrame { samples } => OrchModel {
            pending: m.pending + spec_normalize_batch(m.origin_x, m.origin_y, samples@),
            ..m
        },
        DisplayEvent::KeyboardEnter { on_surface } => if on_surface {
            OrchModel { keyboard_focus: true, ..m }
        } else {
            m
        },
        DisplayEvent::KeyboardLeave { on_surface } => if on_surface {
            OrchModel { keyboard_focus: false, ..m }
        } else {
            m
        },
        DisplayEvent::KeyPress { keysym } => if keysym == KEYSYM_ESCAPE {
            OrchModel { exit: true, ..m }
        } else {
            m
        },
        DisplayEvent::KeyRelease { .. } => m,
        DisplayEvent::ModifiersChanged => m,
        DisplayEvent::ScaleFactorChanged { .. } => m,
        DisplayEvent::OutputAdded => m,
        DisplayEvent::OutputUpdated => m,
        DisplayEvent::OutputRemoved => m,
    }
}

/// The actions one event asks the caller to perform, in order.
pub open spec fn step_actions(m: OrchModel, e: DisplayEvent) -> Seq<Action> {
    match e {
        DisplayEvent::Configure { width, height, .. } => {
            if m.surface is Destroyed {
                Seq::empty()
            } else {
                seq![
                    Action::Resize {
                        width: spec_effective_size(width, height).0,
                        height: spec_effective_size(width, height).1,
                    },
                    Action::Draw {
                        width: spec_effective_size(width, height).0,
                        height: spec_effective_size(width, height).1,
                    },
                ]
            }
        },
        DisplayEvent::Frame { .. } => match m.surface {
            SurfaceState::Configured { width, height } => seq![Action::Draw { width, height }],
            _ => Seq::empty(),
        },
        DisplayEvent::CapabilityAdded { device } => match device {
            SeatDevice::Keyboard => if m.has_keyboard {
                Seq::empty()
            } else {
                seq![Action::CreateKeyboard]
            },
            SeatDevice::Pointer => if m.has_pointer {
                Seq::empty()
            } else {
                seq![Action::CreatePointer]
            },
            SeatDevice::Other => Seq::empty(),
        },
        DisplayEvent::CapabilityRemoved { device } => match device {
            SeatDevice::Keyboard => if m.has_keyboard {
                seq![Action::ReleaseKeyboard]
            } else {
                Seq::empty()
            },
            SeatDevice::Pointer => if m.has_pointer {
                seq![Action::ReleasePointer]
            } else {
                Seq::empty()
            },
            SeatDevice::Other => Seq::empty(),
        },
        _ => Seq::empty(),
    }
}

/// A fresh orchestrator: surface created but unconfigured, no device
/// objects, no pending input, no exit asked for.
pub open spec fn init_model() -> OrchModel {
    OrchModel {
        surface: SurfaceState::Created,
        has_keyboard: false,
        has_pointer: false,
        keyboard_focus: false,
        origin_x: 0,
        origin_y: 0,
        pending: Seq::empty(),
        exit: false,
    }
}

/// A device-space coordinate translated to the surface-local frame.
pub fn surface_local(device: i32, origin: i32) -> (r: i64)
    ensures
        r == spec_surface_local(device, origin),
        r == device as int - origin as int,
{
    (device as i64) - (origin as i64)
}

/// The normalized input event of one pointer sample, if the sample
/// contributes one.
pub fn normalize_sample(ox: i32, oy: i32, s: PointerSample) -> (r: Option<UiEvent>)
    ensures
        r == spec_normalize_sample(ox, oy, s),
{
    if !s.on_surface {
        return None;
    }
    match s.kind {
        PointerKind::Enter => None,
        PointerKind::Axis => None,
        PointerKind::Leave => Some(UiEvent::PointerGone),
        PointerKind::Motion => Some(
            UiEvent::PointerMoved { x: surface_local(s.x, ox), y: surface_local(s.y, oy) },
        ),
        PointerKind::Press { button: _ } => Some(
            UiEvent::PointerButton {
                x: surface_local(s.x, ox),
                y: surface_local(s.y, oy),
                pressed: true,
            },
        ),
        PointerKind::Release { button: _ } => Some(
            UiEvent::PointerButton {
                x: surface_local(s.x, ox),
                y: surface_local(s.y, oy),
                pressed: false,
            },
        ),
    }
}

/// The normalized input of a whole batch of pointer samples.
pub fn normalize_batch(ox: i32, oy: i32, samples: &Vec<PointerSample>) -> (out: Vec<UiEvent>)
    ensures
        out@ == spec_normalize_batch(ox, oy, samples@),
{
    let mut out: Vec<UiEvent> = Vec::new();
    let n = samples.len();
    let mut i: usize = 0;
    while i < n
        invariant
            0 <= i <= n,
            n == samples@.len(),
            out@ == spec_normalize_batch(ox, oy, samples@.take(i as int)),
        decreases n - i,
    {
        match normalize_sample(ox, oy, samples[i]) {
            Some(e) => out.push(e),
            None => {},
        }
        proof {
            assert(samples@.take(i as int + 1).drop_last() =~= samples@.take(i as int));
            assert(samples@.take(i as int + 1).last() == samples@[i as int]);
        }
        i = i + 1;
    }
    proof {
        assert(samples@.take(n as int) =~= samples@);
    }
    out
}

/// The display-session orchestrator. The caller feeds it every event
/// the session delivers and performs the actions it returns.
pub struct Orchestrator {
    pub surface: SurfaceState,
    pub has_keyboard: bool,
    pub has_pointer: bool,
    pub keyboard_focus: bool,
    /// Where the surface sits in the device coordinate frame.
    pub origin_x: i32,
    pub origin_y: i32,
    /// Input accumulated since the last draw, consumed exactly once
    /// by `take_input` at the next draw.
    pub pending: Vec<UiEvent>,
    pub exit: bool,
}

impl View for Orchestrator {
    type V = OrchModel;

    open spec fn view(&self) -> OrchModel {
        OrchModel {
            surface: self.surface,
            has_keyboard: self.has_keyboard,
            has_pointer: self.has_pointer,
            keyboard_focus: self.keyboard_focus,
            origin_x: self.origin_x,
            origin_y: self.origin_y,
            pending: self.pending@,
            exit: self.exit,
        }
    }
}

impl Orchestrator {
    /// A fresh orchestrator, before any event has arrived.
    pub fn new() -> (r: Orchestrator)
        ensures
            r@ == init_model(),
    {
        let r = Orchestrator {
            surface: SurfaceState::Created,
            has_keyboard: false,
            has_pointer: false,
            keyboard_focus: false,
            origin_x: 0,
            origin_y: 0,
            pending: Vec::new(),
            exit: false,
        };
        proof {
            assert(r@ =~= init_model());
        }
        r
    }

    /// Dispatch one inbound event: advance the state machine and say
    /// which actions the caller must perform, in order.
    pub fn handle(&mut self, event: &DisplayEvent) -> (actions: Vec<Action>)
        ensures
            final(self)@ == step_state(old(self)@, *event),
            actions@ == step_actions(old(self)@, *event),
    {
        let ghost m0 = self@;
        let mut acts: Vec<Action> = Vec::new();
        match event {
            DisplayEvent::Configure { width, height, serial: _ } => {
                match self.surface {
                    SurfaceState::Destroyed => {},
                    _ => {
                        let w: u32 = if *width == 0 || *height == 0 {
                            MIN_WIDTH
                        } else {
                            *width
                        };
                        let h: u32 = if *width == 0 || *height == 0 {
                            MIN_HEIGHT
                        } else {
                            *height
                        };
                        self.surface = SurfaceState::Configured { width: w, height: h };
                        acts.push(Action::Resize { width: w, height: h });
                        acts.push(Action::Draw { width: w, height: h });
                    },
                }
            },
            DisplayEvent::Frame { time: _ } => {
                match self.surface {
                    SurfaceState::Configured { width, height } => {
                        acts.push(Action::Draw { width, height });
                    },
                    _ => {},
                }
            },
            DisplayEvent::Closed => {
                self.surface = SurfaceState::Destroyed;
                self.exit = true;
            },
            DisplayEvent::CapabilityAdded { device } => {
                match device {
                    SeatDevice::Keyboard => {
                        if !self.has_keyboard {
                            self.has_keyboard = true;
                            acts.push(Action::CreateKeyboard);
                        }
                    },
                    SeatDevice::Pointer => {
                        if !self.has_pointer {
                            self.has_pointer = true;
                            acts.push(Action::CreatePointer);
                        }
                    },
                    SeatDevice::Other => {},
                }
            },
            DisplayEvent::CapabilityRemoved { device } => {
                match device {
                    SeatDevice::Keyboard => {
                        if self.has_keyboard {
                            self.has_keyboard = false;
                            acts.push(Action::ReleaseKeyboard);
                        }
                    },
                    SeatDevice::Pointer => {
                        if self.has_pointer {
                            self.has_pointer = false;
                            acts.push(Action::ReleasePointer);
                        }
                    },
                    SeatDevice::Other => {},
                }
            },
            DisplayEvent::PointerFrame { samples } => {
                let mut batch = normalize_batch(self.origin_x, self.origin_y, samples);
                self.pending.append(&mut batch);
            },
            DisplayEvent::KeyboardEnter { on_surface } => {
                if *on_surface {
                    self.keyboard_focus = true;
                }
            },
            DisplayEvent::KeyboardLeave { on_surface } => {
                if *on_surface {
                    self.keyboard_focus = false;
                }
            },
            DisplayEvent::KeyPress { keysym } => {
                if *keysym == KEYSYM_ESCAPE {
                    self.exit = true;
                }
            },
            DisplayEvent::KeyRelease { keysym: _ } => {},
            DisplayEvent::ModifiersChanged => {},
            DisplayEvent::ScaleFactorChanged { factor: _ } => {},
            DisplayEvent::OutputAdded => {},
            DisplayEvent::OutputUpdated => {},
            DisplayEvent::OutputRemoved => {},
        }
        proof {
            assert(self@ =~= step_state(m0, *event));
            assert(acts@ =~= step_actions(m0, *event));
        }
        acts
    }

    /// Hand out the input accumulated since the last draw and clear
    /// the buffer: each snapshot is consumed exactly once.
    pub fn take_input(&mut self) -> (snapshot: Vec<UiEvent>)
        ensures
            snapshot@ == old(self)@.pending,
            final(self)@ == (OrchModel { pending: Seq::empty(), ..old(self)@ }),
    {
        let ghost m0 = self@;
        let mut out: Vec<UiEvent> = Vec::new();
        core::mem::swap(&mut out, &mut self.pending);
        proof {
            assert(self@ =~= (OrchModel { pending: Seq::empty(), ..m0 }));
        }
        out
    }

    /// Whether the dispatch loop is to end.
    pub fn should_exit(&self) -> (b: bool)
        ensures
            b == self@.exit,
    {
        self.exit
    }
}

} // verus!
