//! The event vocabulary of the display session and of the renderer:
//! every inbound protocol event as one variant of a single tagged
//! type, the actions the orchestrator asks its caller to perform,
//! and the normalized input events the render bridge consumes.

use vstd::prelude::*;

verus! {

/// Keysym code the compositor delivers for the Escape key, the one
/// key that dismisses the popup.
pub const KEYSYM_ESCAPE: u32 = 0xff1b;

/// Smallest usable width the overlay falls back to when the
/// compositor leaves the size unconstrained.
pub const MIN_WIDTH: u32 = 256;

/// Smallest usable height the overlay falls back to when the
/// compositor leaves the size unconstrained.
pub const MIN_HEIGHT: u32 = 256;

/// An input device class a seat can offer or withdraw.
#[derive(Clone, Copy, PartialEq, Eq, Structural, Debug)]
pub enum SeatDevice {
    Keyboard,
    Pointer,
    /// Any device class the popup does not use (touch and the like).
    Other,
}

/// What one pointer sample reports.
#[derive(Clone, Copy, PartialEq, Eq, Structural, Debug)]
pub enum PointerKind {
    Enter,
    Leave,
    Motion,
    Press { button: u32 },
    Release { button: u32 },
    Axis,
}

/// One pointer sample, at device-space coordinates.
#[derive(Clone, Copy, PartialEq, Eq, Structural, Debug)]
pub struct PointerSample {
    pub kind: PointerKind,
    pub x: i32,
    pub y: i32,
    /// Whether the sample belongs to the overlay surface; samples for
    /// other surfaces are ignored.
    pub on_surface: bool,
}

/// One inbound event of the display session, tagged for the
/// orchestrator's single dispatcher.
#[derive(PartialEq, Eq, Debug)]
pub enum DisplayEvent {
    /// The compositor negotiated a size for the overlay surface.
    Configure { width: u32, height: u32, serial: u32 },
    /// The compositor presented a frame and allows the next draw.
    Frame { time: u32 },
    /// The compositor closed the overlay surface.
    Closed,
    CapabilityAdded { device: SeatDevice },
    CapabilityRemoved { device: SeatDevice },
    /// One batch of pointer samples, delivered together.
    PointerFrame { samples: Vec<PointerSample> },
    KeyboardEnter { on_surface: bool },
    KeyboardLeave { on_surface: bool },
    KeyPress { keysym: u32 },
    KeyRelease { keysym: u32 },
    ModifiersChanged,
    ScaleFactorChanged { factor: i32 },
    OutputAdded,
    OutputUpdated,
    OutputRemoved,
}

/// An action the orchestrator asks its caller to perform against the
/// display server or the rendering context.
#[derive(Clone, Copy, PartialEq, Eq, Structural, Debug)]
pub enum Action {
    /// Resize the swap surface's backbuffer before the next draw.
    Resize { width: u32, height: u32 },
    /// Run one full draw cycle at this size: advance the render
    /// bridge on the pending input, paint, swap, damage the buffer,
    /// request the next frame callback, commit.
    Draw { width: u32, height: u32 },
    CreateKeyboard,
    ReleaseKeyboard,
    CreatePointer,
    ReleasePointer,
}

/// A normalized input event of the render bridge's vocabulary, at
/// surface-local coordinates. Every device button maps to the one
/// primary logical button: a known limitation of the mapping, kept
/// deliberately.
#[derive(Clone, Copy, PartialEq, Eq, Structural, Debug)]
pub enum UiEvent {
    PointerMoved { x: i64, y: i64 },
    PointerButton { x: i64, y: i64, pressed: bool },
    PointerGone,
}

/// Where the overlay surface sits and how it behaves: the layer-shell
/// role the orchestrator requests at startup.
#[derive(Clone, Copy, PartialEq, Eq, Structural, Debug)]
pub struct OverlayConfig {
    pub anchor_top: bool,
    pub anchor_right: bool,
    pub anchor_bottom: bool,
    pub anchor_left: bool,
    /// Stack the surface above normal application windows.
    pub top_layer: bool,
    /// Never take keyboard focus away from other clients.
    pub keyboard_interactive: bool,
    pub exclusive_zone: i32,
    pub width_hint: u32,
    pub height_hint: u32,
}

/// How the rendering context is to be created: the configuration
/// preferences and the resilience path.
#[derive(Clone, Copy, PartialEq, Eq, Structural, Debug)]
pub struct ContextPrefs {
    pub prefer_hardware: bool,
    pub depth_size: u8,
    pub stencil_size: u8,
    pub transparency: bool,
    /// On failure of the core-profile context, an ES-profile context
    /// must be attempted before giving up.
    pub fall_back_to_es: bool,
    /// Presentation is paced to one compositor frame.
    pub swap_interval: u32,
}

/// The layer-shell role of the popup: top layer, anchored to the
/// top-right corner, no keyboard interactivity, no exclusive zone,
/// and a size hint the compositor may override.
pub fn overlay_config() -> (c: OverlayConfig)
    ensures
        c == (OverlayConfig {
            anchor_top: true,
            anchor_right: true,
            anchor_bottom: false,
            anchor_left: false,
            top_layer: true,
            keyboard_interactive: false,
            exclusive_zone: 0,
            width_hint: 300,
            height_hint: 300,
        }),
{
    OverlayConfig {
        anchor_top: true,
        anchor_right: true,
        anchor_bottom: false,
        anchor_left: false,
        top_layer: true,
        keyboard_interactive: false,
        exclusive_zone: 0,
        width_hint: 300,
        height_hint: 300,
    }
}

/// The rendering-context preferences: hardware acceleration, no depth
/// or stencil buffer, no extra transparency, the ES fallback path on,
/// and presentation synced to the compositor's frames.
pub fn context_prefs() -> (c: ContextPrefs)
    ensures
        c == (ContextPrefs {
            prefer_hardware: true,
            depth_size: 0,
            stencil_size: 0,
            transparency: false,
            fall_back_to_es: true,
            swap_interval: 1,
        }),
{
    ContextPrefs {
        prefer_hardware: true,
        depth_size: 0,
        stencil_size: 0,
        transparency: false,
        fall_back_to_es: true,
        swap_interval: 1,
    }
}

/// The namespace under which the overlay surface registers with the
/// layer shell.
pub fn surface_namespace() -> (s: String)
    ensures
        s@ == "uwu-notify"@,
{
    "uwu-notify".to_string()
}

/// A dimension clamped away from zero, as swap-surface creation
/// demands a nonzero size.
pub fn at_least_one(v: u32) -> (r: u32)
    ensures
        r == if v == 0 { 1u32 } else { v },
        r >= 1,
{
    if v == 0 {
        1
    } else {
        v
    }
}

} // verus!
