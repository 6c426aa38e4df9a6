//! Event, command and settings values crossing the engine's interfaces.
//!
//! Three value families meet here: [`DispatchMessage`], the per-surface
//! events the engine delivers to the caller; [`ReturnData`], the
//! control values the caller returns to direct the engine; and
//! [`ProtocolRequest`], the outbound protocol requests the engine
//! decides on, performed against the live connection by the I/O shell.

use vstd::prelude::*;

use crate::capability::ControllerHandle;
use crate::foreign_toplevel::ForeignToplevelEvent;
use crate::id::Id;
use crate::shell::{BufferHandle, LayerSurfaceHandle, OutputHandle, SurfaceHandle};
use crate::text_input::Ime;
use crate::unit::LayerShellCommand;
use crate::voice_mode::VoiceModeEvent;

verus! {

/// The layer a panel surface is stacked on.
#[derive(Debug, Clone, Copy, PartialEq, Eq, Structural)]
pub enum Layer {
    Background,
    Bottom,
    Top,
    Overlay,
}

/// How a panel surface takes keyboard focus.
#[derive(Debug, Clone, Copy, PartialEq, Eq, Structural)]
pub enum KeyboardInteractivity {
    /// The surface never takes keyboard focus.
    NoInteractivity,
    /// The surface takes exclusive keyboard focus.
    Exclusive,
    /// The surface takes focus on demand.
    OnDemand,
}

/// Anchor bit: stick to the top edge.
pub const ANCHOR_TOP: u32 = 1;

/// Anchor bit: stick to the bottom edge.
pub const ANCHOR_BOTTOM: u32 = 2;

/// Anchor bit: stick to the left edge.
pub const ANCHOR_LEFT: u32 = 4;

/// Anchor bit: stick to the right edge.
pub const ANCHOR_RIGHT: u32 = 8;

/// A width and height in surface coordinates.
#[derive(Debug, Clone, Copy, PartialEq, Eq, Structural)]
pub struct WindowSize {
    pub width: u32,
    pub height: u32,
}

/// A margin around an anchored surface.
#[derive(Debug, Clone, Copy, PartialEq, Eq, Structural)]
pub struct Margin {
    pub top: i32,
    pub right: i32,
    pub bottom: i32,
    pub left: i32,
}

/// The radius of each surface corner.
#[derive(Debug, Clone, Copy, PartialEq, Eq, Structural)]
pub struct CornerRadius {
    pub top_left: u32,
    pub top_right: u32,
    pub bottom_right: u32,
    pub bottom_left: u32,
}

/// Which output a new surface binds to.
#[derive(Debug, Clone, Copy, PartialEq, Eq, Structural)]
pub enum OutputOption {
    /// Bind to this known output.
    Output(OutputHandle),
    /// Bind to the output the engine last placed a surface on.
    LastOutput,
    /// Let the engine pick: the output of the focused surface, or the
    /// compositor's default placement.
    Auto,
}

/// Settings for a new anchored panel surface.
#[derive(Debug, Clone, PartialEq, Eq)]
pub struct NewLayerShellSettings {
    pub size: Option<WindowSize>,
    pub layer: Layer,
    pub anchor: u32,
    pub exclusive_zone: Option<i32>,
    pub margin: Option<Margin>,
    pub keyboard_interactivity: KeyboardInteractivity,
    pub output_option: OutputOption,
    pub events_transparent: bool,
    pub namespace: Option<String>,
    pub blur: bool,
    pub shadow: bool,
    pub corner_radius: Option<CornerRadius>,
    pub auto_size: bool,
}

/// Settings for a new transient positioned surface. `id` names the
/// parent unit the popup hangs off.
#[derive(Debug, Clone, Copy, PartialEq, Eq, Structural)]
pub struct NewPopUpSettings {
    pub size: WindowSize,
    pub position_x: i32,
    pub position_y: i32,
    pub id: Id,
}

/// Settings for a new regular top-level window.
#[derive(Debug, Clone, PartialEq, Eq)]
pub struct NewXdgWindowSettings {
    pub maximized: bool,
    pub title: Option<String>,
    pub size: Option<WindowSize>,
}

/// Settings for a new input-method panel surface.
#[derive(Debug, Clone, Copy, PartialEq, Eq, Structural)]
pub struct NewInputPanelSettings {
    pub size: WindowSize,
    /// Place as a keyboard panel at the bottom center; otherwise as an
    /// overlay panel.
    pub keyboard: bool,
    pub use_last_output: bool,
}

/// Which output-metadata field changed.
#[derive(Debug, Clone, Copy, PartialEq, Eq, Structural)]
pub enum XdgInfoChangedType {
    Size,
    Position,
    Name,
    Description,
}

/// One scroll axis of a pointer axis event. Lengths are signed 24.8
/// fixed-point protocol values.
#[derive(Debug, Clone, Copy, PartialEq, Eq, Structural)]
pub struct AxisScroll {
    /// The scroll length in fixed-point surface units.
    pub absolute: i32,
    /// The discrete step count, where the source provides one.
    pub discrete: i32,
    /// Whether this axis reported a scroll stop.
    pub stop: bool,
}

impl AxisScroll {
    /// No movement on this axis.
    pub fn none() -> (r: AxisScroll)
        ensures
            r == (AxisScroll { absolute: 0i32, discrete: 0i32, stop: false }),
    {
        AxisScroll { absolute: 0, discrete: 0, stop: false }
    }
}

/// A demultiplexed per-surface event, delivered to the caller tagged
/// with the unit it concerns, or with no unit for global events.
/// Coordinates are signed 24.8 fixed-point protocol values.
#[derive(Debug, Clone, PartialEq, Eq)]
pub enum DispatchMessage {
    /// The unit may redraw at this size.
    RequestRefresh { width: u32, height: u32, is_created: bool, scale: u32 },
    /// The unit was closed.
    Closed,
    /// The unit lost focus.
    Unfocus,
    /// The unit gained focus.
    Focused(Id),
    /// The keyboard modifier bits changed.
    ModifiersChanged(u32),
    /// A translated key event, with the raw keycode.
    KeyboardInput { keycode: u32, pressed: bool, is_synthetic: bool },
    /// The pointer entered the unit.
    MouseEnter { pointer: u32, serial: u32, surface_x: i32, surface_y: i32 },
    /// The pointer moved inside the unit.
    MouseMotion { time: u32, surface_x: i32, surface_y: i32 },
    /// A pointer button changed state; `state` is the raw protocol
    /// button state code.
    MouseButton { state: u32, serial: u32, button: u32, time: u32 },
    /// The pointer left the unit.
    MouseLeave,
    /// A finger went down on the unit.
    TouchDown { serial: u32, time: u32, id: i32, x: i32, y: i32 },
    /// A finger went up.
    TouchUp { serial: u32, time: u32, id: i32, x: i32, y: i32 },
    /// A finger moved.
    TouchMotion { time: u32, id: i32, x: i32, y: i32 },
    /// A touch point was cancelled.
    TouchCancel { id: i32, x: i32, y: i32 },
    /// The compositor advertised a new fractional scale for the unit.
    PreferredScale { scale_u32: u32 },
    /// The unit's output metadata changed.
    XdgInfoChanged(XdgInfoChangedType),
    /// A new output appeared on the connection.
    NewDisplay(OutputHandle),
    /// A pointer scroll event.
    Axis {
        time: u32,
        scale: u32,
        horizontal: AxisScroll,
        vertical: AxisScroll,
        source: Option<u32>,
    },
    /// An input-method event.
    Ime(Ime),
    /// The compositor's home state changed.
    HomeStateChanged(bool),
    /// The compositor-driven auto-hide changed the surface's
    /// visibility.
    AutoHideVisibilityChanged(bool),
    /// A voice-input event from the compositor.
    VoiceMode(VoiceModeEvent),
    /// A foreign window was created, changed or closed.
    ForeignToplevel(ForeignToplevelEvent),
    /// The user clicked or touched outside an armed dismiss group.
    DismissRequested,
}

/// The control value the caller's callback returns to direct the
/// engine.
#[derive(Debug)]
pub enum ReturnData<T> {
    /// Nothing to do.
    NoOp,
    /// During init: hand the caller the global list for binding.
    RequestBind,
    /// During init: hand the caller the compositor object.
    RequestCompositor,
    /// Stop the event loop.
    RequestExit,
    /// The caller allocated this buffer for the unit being refreshed.
    WlBuffer(BufferHandle),
    /// Change the cursor to the named shape, through this pointer.
    RequestSetCursorShape(String, u32),
    /// Create a new anchored panel surface.
    NewLayerShell { settings: NewLayerShellSettings, id: Id, binding: Option<T> },
    /// Create a new popup under the parent named in the settings.
    NewPopUp { settings: NewPopUpSettings, id: Id, binding: Option<T> },
    /// Create a new regular window.
    NewXdgBase { settings: NewXdgWindowSettings, id: Id, binding: Option<T> },
    /// Create a new input-method panel.
    NewInputPanel { settings: NewInputPanelSettings, id: Id, binding: Option<T> },
}

/// Which extension capability a controller belongs to.
#[derive(Debug, Clone, Copy, PartialEq, Eq, Structural)]
pub enum CapabilityKind {
    Blur,
    CornerRadius,
    Shadow,
    AutoHide,
    HomeVisibility,
    SurfaceVisibility,
    Dismiss,
    VoiceMode,
}

/// Whether a surface shows only at home, or hides at home.
#[derive(Debug, Clone, Copy, PartialEq, Eq, Structural)]
pub enum VisibilityMode {
    /// Visible only while the compositor is in home mode.
    HomeOnly,
    /// Hidden while the compositor is in home mode.
    HideOnHome,
}

/// A command sent through an extension controller.
#[derive(Debug, Clone, Copy, PartialEq, Eq, Structural)]
pub enum ControllerCommand {
    /// Blur the whole surface and commit the effect.
    ApplyBlur,
    /// Round the surface's corners.
    SetRadius(CornerRadius),
    /// Back to square corners.
    UnsetRadius,
    /// Draw a shadow under the surface.
    EnableShadow,
    /// Let the compositor hide the surface off this edge, with this
    /// hover-detection zone and mode.
    SetAutoHide { edge: u32, edge_zone: u32, mode: u32 },
    /// Stop compositor-driven auto-hide.
    UnsetAutoHide,
    /// Tie the surface's visibility to the compositor's home state.
    SetVisibilityMode(VisibilityMode),
    /// Hide the surface without destroying it.
    SetHidden,
    /// Show the surface again.
    SetVisible,
    /// Start dismiss notifications for clicks outside the group.
    Arm,
    /// Stop dismiss notifications.
    Disarm,
    /// Count this surface into the dismiss group.
    AddToGroup(SurfaceHandle),
    /// Take this surface out of the dismiss group.
    RemoveFromGroup(SurfaceHandle),
    /// Audio level for the voice orb, between 0 and 1000.
    SetAudioLevel(u32),
    /// Acknowledge a voice will-stop event, freezing the orb or not.
    AckStop { serial: u32, freeze: bool },
    /// Hide the frozen voice orb.
    VoiceDismiss,
}

/// A command for one text-input object.
#[derive(Debug, Clone, Copy, PartialEq, Eq, Structural)]
pub enum TextInputCommand {
    Enable,
    Disable,
    /// The content-type hint and purpose codes of the protocol.
    SetContentType { hint: u32, purpose: u32 },
    SetCursorRectangle { x: i32, y: i32, width: i32, height: i32 },
    Commit,
}

/// An outbound protocol request the engine decided on; the I/O shell
/// performs it against the live connection.
#[derive(Debug, Clone, PartialEq, Eq)]
pub enum ProtocolRequest {
    /// Create the protocol object behind a freshly named controller.
    /// For the voice capability, `is_default` registers the default
    /// receiver.
    CreateController {
        capability: CapabilityKind,
        surface: SurfaceHandle,
        controller: ControllerHandle,
        is_default: bool,
    },
    /// Send a command through a controller.
    Controller {
        capability: CapabilityKind,
        controller: ControllerHandle,
        command: ControllerCommand,
    },
    /// Send a command to a layer-shell object, followed by a surface
    /// commit.
    LayerShell { shell: LayerSurfaceHandle, surface: SurfaceHandle, command: LayerShellCommand },
    /// Send a command to a text-input object, followed by its commit.
    TextInput { handle: u32, command: TextInputCommand },
    /// Register a frame callback for the unit's surface.
    Frame { surface: SurfaceHandle, unit: Id },
    /// Flush the connection.
    Flush,
    /// Commit a surface.
    CommitSurface(SurfaceHandle),
    /// Activate a foreign window, through the given seat.
    ToplevelActivate { via_cosmic: bool, handle: u32, seat: u32 },
    /// Ask a foreign window to close.
    ToplevelClose { via_cosmic: bool, handle: u32 },
    /// Force-close a foreign window; only the newer control protocol
    /// offers this.
    ToplevelForceClose { handle: u32 },
    /// Change a foreign window's maximized state.
    ToplevelSetMaximized { via_cosmic: bool, handle: u32, on: bool },
    /// Change a foreign window's minimized state.
    ToplevelSetMinimized { via_cosmic: bool, handle: u32, on: bool },
    /// Change a foreign window's fullscreen state.
    ToplevelSetFullscreen { via_cosmic: bool, handle: u32, on: bool },
    /// Press or release a key on the virtual keyboard.
    VirtualKeyboardKey { time: u32, key: u32, pressed: bool },
    /// Destroy one shell-owned protocol object.
    DestroyShellObject(crate::shell::ShellObject),
    /// Destroy a surface object.
    DestroySurface(SurfaceHandle),
    /// Destroy a buffer object.
    DestroyBuffer(crate::shell::BufferHandle),
    /// Destroy the protocol object behind a controller.
    DestroyController { capability: CapabilityKind, controller: ControllerHandle },
}

} // verus!
