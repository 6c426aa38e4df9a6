//! The engine state: globals, surface units, seats, outputs and the
//! extension capabilities, with the queues crossing its interfaces.
//!
//! One value of [`WindowState`] owns everything: the negotiated global
//! handles, the collection of surface units, the per-seat input state,
//! the message queue towards the caller and the request queue towards
//! the I/O shell. All dispatch decisions are methods here; the I/O
//! shell only feeds events in and carries queued requests out.

use vstd::prelude::*;

use crate::capability::{CapabilityState, ControllerRef};
use crate::events::{
    CapabilityKind, ControllerCommand, CornerRadius, DispatchMessage, KeyboardInteractivity, Layer,
    Margin, ProtocolRequest, ReturnData, TextInputCommand, VisibilityMode, WindowSize,
};
use crate::foreign_toplevel::ToplevelHandleData;
use crate::id::{Id, IdAllocator};
use crate::input::{ActiveSurfaces, KeyboardState, TimerToken};
use crate::kvlist::KvList;
use crate::mode::StartMode;
use crate::shell::{OutputHandle, SurfaceHandle};
use crate::text_input::ImePurpose;
use crate::unit::{WindowStateUnit, ZxdgOutputInfo};
use crate::voice_mode::VoiceModeEvent;

verus! {

/// A staged keyboard-repeat arm: the driver installs the one-shot
/// timer outside the dispatch callback.
#[derive(Debug, Clone, Copy, PartialEq, Eq)]
pub struct KeyboardTokenState {
    /// The first repeat fires after this many milliseconds.
    pub delay_millis: u64,
    /// The raw keycode that repeats.
    pub key: u32,
    /// The unit that had keyboard focus when the key went down.
    pub surface_id: Option<Id>,
    /// Whether the repeated event is a press.
    pub pressed: bool,
}

/// A staged virtual-keyboard key release, fired after a delay.
#[derive(Debug, Clone, Copy, PartialEq, Eq, Structural)]
pub struct VirtualKeyRelease {
    /// The release fires after this many milliseconds.
    pub delay_millis: u64,
    /// The timestamp to release with.
    pub time: u32,
    /// The raw keycode to release.
    pub key: u32,
}

/// The position of the first unit with this identity, if any.
pub open spec fn spec_unit_index_of<T>(units: Seq<WindowStateUnit<T>>, id: Id) -> Option<int>
    decreases units.len(),
{
    if units.len() == 0 {
        None
    } else if units[0].id == id {
        Some(0int)
    } else {
        match spec_unit_index_of(units.drop_first(), id) {
            Some(i) => Some(i + 1),
            None => None,
        }
    }
}

/// The position of the first unit holding this surface object, if any.
pub open spec fn spec_surface_index_of<T>(
    units: Seq<WindowStateUnit<T>>,
    surface: SurfaceHandle,
) -> Option<int>
    decreases units.len(),
{
    if units.len() == 0 {
        None
    } else if units[0].wl_surface == surface {
        Some(0int)
    } else {
        match spec_surface_index_of(units.drop_first(), surface) {
            Some(i) => Some(i + 1),
            None => None,
        }
    }
}

/// The identity of the first unit holding this surface object, if any.
pub open spec fn spec_surface_unit<T>(
    units: Seq<WindowStateUnit<T>>,
    surface: SurfaceHandle,
) -> Option<Id> {
    match spec_surface_index_of(units, surface) {
        Some(i) => Some(units[i].id),
        None => None,
    }
}

/// The first identity match sits past an unmatched prefix exactly
/// where it sits in the rest.
pub proof fn lemma_unit_index_of_skip<T>(units: Seq<WindowStateUnit<T>>, id: Id, i: int)
    requires
        0 <= i <= units.len(),
        forall|j: int| 0 <= j < i ==> units[j].id != id,
    ensures
        spec_unit_index_of(units, id) == match spec_unit_index_of(units.skip(i), id) {
            Some(k) => Some(k + i),
            None => None::<int>,
        },
    decreases i,
{
    if i == 0 {
        assert(units.skip(0) =~= units);
    } else {
        lemma_unit_index_of_skip(units, id, i - 1);
        let rest = units.skip(i - 1);
        assert(rest[0] == units[i - 1]);
        assert(rest.drop_first() =~= units.skip(i));
    }
}

/// The first surface match sits past an unmatched prefix exactly
/// where it sits in the rest.
pub proof fn lemma_surface_index_of_skip<T>(
    units: Seq<WindowStateUnit<T>>,
    surface: SurfaceHandle,
    i: int,
)
    requires
        0 <= i <= units.len(),
        forall|j: int| 0 <= j < i ==> units[j].wl_surface != surface,
    ensures
        spec_surface_index_of(units, surface) == match spec_surface_index_of(
            units.skip(i),
            surface,
        ) {
            Some(k) => Some(k + i),
            None => None::<int>,
        },
    decreases i,
{
    if i == 0 {
        assert(units.skip(0) =~= units);
    } else {
        lemma_surface_index_of_skip(units, surface, i - 1);
        let rest = units.skip(i - 1);
        assert(rest[0] == units[i - 1]);
        assert(rest.drop_first() =~= units.skip(i));
    }
}

/// The focus messages a focus change emits: one `Focused` event for
/// the unit of the newly focused surface, none when the focus does
/// not move or the surface has no unit.
pub open spec fn spec_focus_messages<T>(
    units: Seq<WindowStateUnit<T>>,
    current: Option<SurfaceHandle>,
    surface: Option<SurfaceHandle>,
) -> Seq<(Option<Id>, DispatchMessage)> {
    if surface is Some && current != surface {
        match spec_surface_unit(units, surface->0) {
            Some(id) => seq![(Some(id), DispatchMessage::Focused(id))],
            None => Seq::empty(),
        }
    } else {
        Seq::empty()
    }
}

/// The cancellation messages a drained touch session emits: one per
/// drained record, tagged with its unit, carrying its touch id and
/// last known position.
pub open spec fn spec_cancel_messages(entries: Seq<(u64, crate::input::TouchPoint)>) -> Seq<
    (Option<Id>, DispatchMessage),
> {
    entries.map_values(
        |e: (u64, crate::input::TouchPoint)|
            (
                e.1.target.unit,
                DispatchMessage::TouchCancel { id: e.1.touch_id, x: e.1.position.x, y: e.1.position.y },
            ),
    )
}

/// Some unit's shell is the layer-shell object named.
pub open spec fn spec_has_layer_shell<T>(
    units: Seq<WindowStateUnit<T>>,
    shell: crate::shell::LayerSurfaceHandle,
) -> bool {
    exists|i: int|
        0 <= i < units.len() && (#[trigger] units[i]).shell is LayerShell
            && units[i].shell->LayerShell_0 == shell
}

/// Some unit listens on the fractional-scale object named.
pub open spec fn spec_has_scale_listener<T>(
    units: Seq<WindowStateUnit<T>>,
    listener: crate::shell::FractionalScaleHandle,
) -> bool {
    exists|i: int| 0 <= i < units.len() && (#[trigger] units[i]).fractional_scale == Some(listener)
}

/// The identities of the close-flagged units, in unit order.
pub open spec fn spec_close_ids<T>(units: Seq<WindowStateUnit<T>>) -> Seq<Id>
    decreases units.len(),
{
    if units.len() == 0 {
        Seq::empty()
    } else {
        spec_close_ids(units.drop_last()) + if units.last().request_flag.close {
            seq![units.last().id]
        } else {
            Seq::empty()
        }
    }
}

/// The engine state. `T` is the caller's per-unit binding type.
#[derive(Debug)]
pub struct WindowState<T> {
    /// Connected outputs, as (registry name, output handle).
    pub outputs: Vec<(u32, OutputHandle)>,
    /// The surface that last gained pointer, keyboard or first-touch
    /// focus.
    pub current_surface: Option<SurfaceHandle>,
    /// The device-to-surface slots of the seat.
    pub active_surfaces: ActiveSurfaces,
    /// One unit per live surface.
    pub units: Vec<WindowStateUnit<T>>,
    /// Demultiplexed events waiting for the caller, tagged with the
    /// unit they concern.
    pub message: Vec<(Option<Id>, DispatchMessage)>,
    /// Outbound protocol requests waiting for the I/O shell.
    pub requests: Vec<ProtocolRequest>,
    /// The source of fresh surface identities.
    pub id_allocator: IdAllocator,
    /// The background surface, in background start mode.
    pub background_surface: Option<SurfaceHandle>,
    /// The seat global, once bound.
    pub seat: Option<u32>,
    /// Keyboard state, while the seat offers a keyboard.
    pub keyboard_state: Option<KeyboardState>,
    /// The pointer object, while the seat offers one.
    pub pointer: Option<u32>,
    /// The touch object, while the seat offers one.
    pub touch: Option<u32>,
    /// A virtual-keyboard object the caller stored.
    pub virtual_keyboard: Option<u32>,
    /// The namespace new panel surfaces are created under.
    pub namespace: String,
    pub keyboard_interactivity: KeyboardInteractivity,
    /// The anchor bits of new panel surfaces.
    pub anchor: u32,
    pub layer: Layer,
    pub size: Option<WindowSize>,
    pub exclusive_zone: Option<i32>,
    pub margin: Option<Margin>,
    /// Whether the caller presents through its own display handle
    /// instead of engine-allocated buffers.
    pub use_display_handle: bool,
    /// A staged keyboard-repeat arm for the driver.
    pub repeat_delay: Option<KeyboardTokenState>,
    /// Timer tokens whose removal is deferred to the next driver tick:
    /// a timer must not be removed from inside its own callback.
    pub to_remove_tokens: Vec<TimerToken>,
    /// Units closed because their output disappeared; the caller is
    /// told on the next tick.
    pub closed_ids: Vec<Id>,
    /// A staged virtual-keyboard release for the driver.
    pub to_be_released_key: Option<VirtualKeyRelease>,
    /// Index into `outputs` of the output last used for placement.
    pub last_unit_index: usize,
    /// The output the engine last placed a surface on.
    pub last_wloutput: Option<OutputHandle>,
    /// Control values the caller returned, waiting to be acted on.
    pub return_data: Vec<ReturnData<T>>,
    /// The serial of the pointer's last surface enter.
    pub enter_serial: Option<u32>,
    /// Output metadata gathered while resolving a target screen by
    /// name during construction.
    pub xdg_info_cache: Vec<(OutputHandle, ZxdgOutputInfo)>,
    pub start_mode: StartMode,
    /// Whether construction finished; metadata events afterwards
    /// belong to units.
    pub init_finished: bool,
    /// Whether new surfaces take an empty input region.
    pub events_transparent: bool,
    /// Whether new surfaces ask for the blur effect.
    pub blur_enabled: bool,
    /// The blur capability.
    pub blur: CapabilityState,
    /// The corner radius new surfaces ask for, if any.
    pub corner_radius: Option<CornerRadius>,
    /// The corner-radius capability.
    pub corner_radius_cap: CapabilityState,
    /// Whether new surfaces ask for the shadow effect.
    pub shadow_enabled: bool,
    /// The shadow capability.
    pub shadow: CapabilityState,
    /// The auto-hide capability.
    pub auto_hide: CapabilityState,
    /// Whether new surfaces show only at home.
    pub home_only: bool,
    /// Whether new surfaces hide at home.
    pub hide_on_home: bool,
    /// The home-visibility capability.
    pub home_visibility: CapabilityState,
    /// The compositor's last reported home state.
    pub is_home: bool,
    /// Whether new surfaces register for voice events.
    pub voice_mode_enabled: bool,
    /// The voice-mode capability.
    pub voice_mode: CapabilityState,
    /// Whether voice processing is active right now; a will-stop event
    /// is acknowledged with this value at once.
    pub voice_active: bool,
    /// Voice events gathered for the caller.
    pub voice_mode_events: Vec<VoiceModeEvent>,
    /// The hide/show capability.
    pub surface_visibility: CapabilityState,
    /// The dismiss capability.
    pub dismiss: CapabilityState,
    /// Whether a dismiss was requested since last asked.
    pub dismiss_requested_flag: bool,
    /// Whether foreign windows are tracked.
    pub foreign_toplevel_enabled: bool,
    /// The standard foreign-window listing global, once bound.
    pub ext_foreign_toplevel_list: Option<u32>,
    /// The desktop extension's window-info global, once bound.
    pub cosmic_toplevel_info: Option<u32>,
    /// The desktop extension's window-control global, once bound.
    pub cosmic_toplevel_manager: Option<u32>,
    /// Extension handle id, keyed by standard handle id.
    pub cosmic_toplevel_handles: KvList<u32>,
    /// Standard handle id, keyed by extension handle id.
    pub cosmic_to_ext_handle_map: KvList<u32>,
    /// The older foreign-window manager global, once bound.
    pub foreign_toplevel_manager: Option<u32>,
    /// One buffered record per advertised foreign window.
    pub foreign_toplevel_data: KvList<ToplevelHandleData>,
    /// The older protocol's control handles, keyed by handle id.
    pub foreign_toplevel_handles: KvList<u32>,
    /// The text-input manager global, once bound.
    pub text_input_manager: Option<u32>,
    /// The seat's text-input object, while installed.
    pub text_input: Option<u32>,
    /// Text-input objects that entered one of our surfaces.
    pub text_inputs: Vec<u32>,
    pub ime_purpose: ImePurpose,
    pub ime_allowed: bool,
    /// The decoration manager global, once bound.
    pub xdg_decoration_manager: Option<u32>,
    /// The compositor global, once bound.
    pub wl_compositor: Option<u32>,
    /// The shared-memory global, once bound.
    pub shm: Option<u32>,
    /// The window-manager base global, once bound.
    pub wmbase: Option<u32>,
    /// The anchored-shell factory global, once bound.
    pub layer_shell: Option<u32>,
    /// The cursor-shape manager global, once bound.
    pub cursor_manager: Option<u32>,
    /// The viewport manager global, once bound.
    pub viewporter: Option<u32>,
    /// The fractional-scale manager global, once bound.
    pub fractional_scale_manager: Option<u32>,
    /// The output-metadata manager global, once bound.
    pub xdg_output_manager: Option<u32>,
    /// The protocol version the window-control global was bound with.
    pub cosmic_toplevel_manager_version: u32,
}

impl<T> WindowState<T> {
    /// The structural invariant: every keyed store keeps its keys
    /// distinct.
    pub open spec fn wf(self) -> bool {
        &&& self.active_surfaces.wf()
        &&& self.blur.wf()
        &&& self.corner_radius_cap.wf()
        &&& self.shadow.wf()
        &&& self.auto_hide.wf()
        &&& self.home_visibility.wf()
        &&& self.voice_mode.wf()
        &&& self.surface_visibility.wf()
        &&& self.dismiss.wf()
        &&& self.cosmic_toplevel_handles.wf()
        &&& self.cosmic_to_ext_handle_map.wf()
        &&& self.foreign_toplevel_data.wf()
        &&& self.foreign_toplevel_handles.wf()
    }

    /// Whether a unit with this identity exists.
    pub open spec fn spec_has_unit(self, id: Id) -> bool {
        exists|i: int| 0 <= i < self.units@.len() && #[trigger] self.units@[i].id == id
    }

    /// No controller map of any capability holds this identity.
    pub open spec fn spec_no_controllers(self, id: Id) -> bool {
        &&& !self.blur.controllers@.contains_key(id.0)
        &&& !self.corner_radius_cap.controllers@.contains_key(id.0)
        &&& !self.shadow.controllers@.contains_key(id.0)
        &&& !self.auto_hide.controllers@.contains_key(id.0)
        &&& !self.home_visibility.controllers@.contains_key(id.0)
        &&& !self.voice_mode.controllers@.contains_key(id.0)
        &&& !self.surface_visibility.controllers@.contains_key(id.0)
        &&& !self.dismiss.controllers@.contains_key(id.0)
    }

    /// The empty engine state, before any negotiation: no globals, no
    /// units, default panel configuration.
    pub fn empty() -> (r: WindowState<T>)
        ensures
            r.wf(),
            r.units@.len() == 0,
            r.outputs@.len() == 0,
            r.message@.len() == 0,
            r.requests@.len() == 0,
            r.namespace@ == Seq::<char>::empty(),
            r.start_mode == StartMode::Active,
            r.keyboard_interactivity == KeyboardInteractivity::OnDemand,
            r.layer == Layer::Overlay,
            r.anchor == (crate::events::ANCHOR_TOP | crate::events::ANCHOR_LEFT
                | crate::events::ANCHOR_RIGHT | crate::events::ANCHOR_BOTTOM),
            r.size is None,
            r.exclusive_zone is None,
            r.margin is None,
            !r.init_finished,
            !r.events_transparent,
            !r.blur_enabled && !r.shadow_enabled && r.corner_radius is None,
            !r.home_only && !r.hide_on_home && !r.is_home,
            !r.voice_mode_enabled && !r.voice_active,
            !r.foreign_toplevel_enabled,
            !r.ime_allowed,
            r.ime_purpose == ImePurpose::Normal,
            !r.dismiss_requested_flag,
            !r.use_display_handle,
            r.id_allocator.next == 0,
            r.current_surface is None,
            r.seat is None && r.keyboard_state is None && r.pointer is None && r.touch is None,
            r.text_input_manager is None && r.text_input is None,
            r.text_inputs@.len() == 0,
            r.blur.manager is None && r.corner_radius_cap.manager is None && r.shadow.manager
                is None && r.auto_hide.manager is None && r.home_visibility.manager is None
                && r.voice_mode.manager is None && r.surface_visibility.manager is None
                && r.dismiss.manager is None,
            r.spec_no_controllers_all(),
            r.return_data@.len() == 0,
            r.closed_ids@.len() == 0,
            r.to_remove_tokens@.len() == 0,
            r.repeat_delay is None && r.to_be_released_key is None,
            r.last_wloutput is None && r.last_unit_index == 0,
            r.enter_serial is None,
            r.background_surface is None,
            r.virtual_keyboard is None,
            r.xdg_decoration_manager is None,
            r.wl_compositor is None && r.shm is None && r.wmbase is None && r.layer_shell is None,
            r.cursor_manager is None && r.viewporter is None && r.fractional_scale_manager is None,
            r.xdg_output_manager is None,
            r.ext_foreign_toplevel_list is None && r.cosmic_toplevel_info is None
                && r.cosmic_toplevel_manager is None && r.foreign_toplevel_manager is None,
            r.foreign_toplevel_data@ =~= Map::<u64, ToplevelHandleData>::empty(),
            r.foreign_toplevel_handles@ =~= Map::<u64, u32>::empty(),
            r.cosmic_toplevel_handles@ =~= Map::<u64, u32>::empty(),
            r.cosmic_to_ext_handle_map@ =~= Map::<u64, u32>::empty(),
            r.voice_mode_events@.len() == 0,
            r.xdg_info_cache@.len() == 0,
    {
        WindowState {
            outputs: Vec::new(),
            current_surface: None,
            active_surfaces: ActiveSurfaces::new(),
            units: Vec::new(),
            message: Vec::new(),
            requests: Vec::new(),
            id_allocator: IdAllocator::new(),
            background_surface: None,
            seat: None,
            keyboard_state: None,
            pointer: None,
            touch: None,
            virtual_keyboard: None,
            namespace: String::new(),
            keyboard_interactivity: KeyboardInteractivity::OnDemand,
            anchor: crate::events::ANCHOR_TOP | crate::events::ANCHOR_LEFT
                | crate::events::ANCHOR_RIGHT | crate::events::ANCHOR_BOTTOM,
            layer: Layer::Overlay,
            size: None,
            exclusive_zone: None,
            margin: None,
            use_display_handle: false,
            repeat_delay: None,
            to_remove_tokens: Vec::new(),
            closed_ids: Vec::new(),
            to_be_released_key: None,
            last_unit_index: 0,
            last_wloutput: None,
            return_data: Vec::new(),
            enter_serial: None,
            xdg_info_cache: Vec::new(),
            start_mode: StartMode::Active,
            init_finished: false,
            events_transparent: false,
            blur_enabled: false,
            blur: CapabilityState::new(),
            corner_radius: None,
            corner_radius_cap: CapabilityState::new(),
            shadow_enabled: false,
            shadow: CapabilityState::new(),
            auto_hide: CapabilityState::new(),
            home_only: false,
            hide_on_home: false,
            home_visibility: CapabilityState::new(),
            is_home: false,
            voice_mode_enabled: false,
            voice_mode: CapabilityState::new(),
            voice_active: false,
            voice_mode_events: Vec::new(),
            surface_visibility: CapabilityState::new(),
            dismiss: CapabilityState::new(),
            dismiss_requested_flag: false,
            foreign_toplevel_enabled: false,
            ext_foreign_toplevel_list: None,
            cosmic_toplevel_info: None,
            cosmic_toplevel_manager: None,
            cosmic_toplevel_handles: KvList::new(),
            cosmic_to_ext_handle_map: KvList::new(),
            foreign_toplevel_manager: None,
            foreign_toplevel_data: KvList::new(),
            foreign_toplevel_handles: KvList::new(),
            text_input_manager: None,
            text_input: None,
            text_inputs: Vec::new(),
            ime_purpose: ImePurpose::Normal,
            ime_allowed: false,
            xdg_decoration_manager: None,
            wl_compositor: None,
            shm: None,
            wmbase: None,
            layer_shell: None,
            cursor_manager: None,
            viewporter: None,
            fractional_scale_manager: None,
            xdg_output_manager: None,
            cosmic_toplevel_manager_version: 0,
        }
    }

    /// No controller map of any capability holds any identity.
    pub open spec fn spec_no_controllers_all(self) -> bool {
        forall|id: Id| self.spec_no_controllers(id)
    }

    /// The destruction requests of every controller cached for this
    /// identity, capability by capability.
    pub open spec fn spec_controller_destroys(self, id: Id) -> Seq<ProtocolRequest> {
        spec_destroy_one(self.blur, CapabilityKind::Blur, id) + spec_destroy_one(
            self.corner_radius_cap,
            CapabilityKind::CornerRadius,
            id,
        ) + spec_destroy_one(self.shadow, CapabilityKind::Shadow, id) + spec_destroy_one(
            self.auto_hide,
            CapabilityKind::AutoHide,
            id,
        ) + spec_destroy_one(self.home_visibility, CapabilityKind::HomeVisibility, id)
            + spec_destroy_one(self.voice_mode, CapabilityKind::VoiceMode, id) + spec_destroy_one(
            self.surface_visibility,
            CapabilityKind::SurfaceVisibility,
            id,
        ) + spec_destroy_one(self.dismiss, CapabilityKind::Dismiss, id)
    }

    /// Create an engine state under a namespace, which must not be
    /// empty.
    pub fn new(namespace: &str) -> (r: WindowState<T>)
        requires
            namespace@.len() > 0,
        ensures
            r.wf(),
            r.namespace@ == namespace@,
            r.units@.len() == 0,
            r.start_mode == StartMode::Active,
    {
        let mut r = WindowState::empty();
        r.namespace = namespace.to_owned();
        r
    }
}

impl<T> Default for WindowState<T> {
    /// The empty engine state.
    fn default() -> (r: WindowState<T>)
        ensures
            r.wf(),
            r.units@.len() == 0,
            r.namespace@ == Seq::<char>::empty(),
            r.start_mode == StartMode::Active,
    {
        WindowState::empty()
    }
}

impl<T> WindowState<T> {
    /// Bind new surfaces once to the output advertising this name.
    pub fn with_xdg_output_name(self, binded_output_name: String) -> (r: Self)
        ensures
            r == (WindowState { start_mode: StartMode::TargetScreen(binded_output_name), ..self }),
    {
        WindowState { start_mode: StartMode::TargetScreen(binded_output_name), ..self }
    }

    /// Start in the given mode.
    pub fn with_start_mode(self, mode: StartMode) -> (r: Self)
        ensures
            r == (WindowState { start_mode: mode, ..self }),
    {
        WindowState { start_mode: mode, ..self }
    }

    /// Give new surfaces an empty input region.
    pub fn with_events_transparent(self, transparent: bool) -> (r: Self)
        ensures
            r == (WindowState { events_transparent: transparent, ..self }),
    {
        WindowState { events_transparent: transparent, ..self }
    }

    /// Ask for the blur effect on new surfaces.
    pub fn with_blur(self, blur: bool) -> (r: Self)
        ensures
            r == (WindowState { blur_enabled: blur, ..self }),
    {
        WindowState { blur_enabled: blur, ..self }
    }

    /// Round the corners of new surfaces.
    pub fn with_corner_radius(self, radii: CornerRadius) -> (r: Self)
        ensures
            r == (WindowState { corner_radius: Some(radii), ..self }),
    {
        WindowState { corner_radius: Some(radii), ..self }
    }

    /// Ask for the shadow effect on new surfaces.
    pub fn with_shadow(self, shadow: bool) -> (r: Self)
        ensures
            r == (WindowState { shadow_enabled: shadow, ..self }),
    {
        WindowState { shadow_enabled: shadow, ..self }
    }

    /// Show new surfaces only while the compositor is at home.
    pub fn with_home_only(self, home_only: bool) -> (r: Self)
        ensures
            r == (WindowState { home_only, ..self }),
    {
        WindowState { home_only, ..self }
    }

    /// Hide new surfaces while the compositor is at home.
    pub fn with_hide_on_home(self, hide_on_home: bool) -> (r: Self)
        ensures
            r == (WindowState { hide_on_home, ..self }),
    {
        WindowState { hide_on_home, ..self }
    }

    /// Track foreign windows, for taskbar-like callers.
    pub fn with_foreign_toplevel(self, enabled: bool) -> (r: Self)
        ensures
            r == (WindowState { foreign_toplevel_enabled: enabled, ..self }),
    {
        WindowState { foreign_toplevel_enabled: enabled, ..self }
    }

    /// Register new surfaces for voice events.
    pub fn with_voice_mode(self, enabled: bool) -> (r: Self)
        ensures
            r == (WindowState { voice_mode_enabled: enabled, ..self }),
    {
        WindowState { voice_mode_enabled: enabled, ..self }
    }

    /// Bind to the currently focused output.
    pub fn with_active(self) -> (r: Self)
        ensures
            r == (WindowState { start_mode: StartMode::Active, ..self }),
    {
        WindowState { start_mode: StartMode::Active, ..self }
    }

    /// Bind by output name where one is given, to the focused output
    /// otherwise.
    #[verifier::rlimit(50)]
    pub fn with_active_or_xdg_output_name(self, binded_output_name: Option<String>) -> (r: Self)
        ensures
            binded_output_name is Some ==> r == (WindowState {
                start_mode: StartMode::TargetScreen(binded_output_name->0),
                ..self
            }),
            binded_output_name is None ==> r == (WindowState {
                start_mode: StartMode::Active,
                ..self
            }),
    {
        match binded_output_name {
            Some(name) => self.with_xdg_output_name(name),
            None => self.with_active(),
        }
    }

    /// Bind by output name where one is given, to all screens
    /// otherwise.
    #[verifier::rlimit(50)]
    pub fn with_allscreens_or_xdg_output_name(self, binded_output_name: Option<String>) -> (r:
        Self)
        ensures
            binded_output_name is Some ==> r == (WindowState {
                start_mode: StartMode::TargetScreen(binded_output_name->0),
                ..self
            }),
            binded_output_name is None ==> r == (WindowState {
                start_mode: StartMode::AllScreens,
                ..self
            }),
    {
        match binded_output_name {
            Some(name) => self.with_xdg_output_name(name),
            None => self.with_allscreens(),
        }
    }

    /// Bind by output name where one is given; keep the mode
    /// otherwise.
    pub fn with_xdg_output_name_or_not(self, binded_output_name: Option<String>) -> (r: Self)
        ensures
            binded_output_name is Some ==> r == (WindowState {
                start_mode: StartMode::TargetScreen(binded_output_name->0),
                ..self
            }),
            binded_output_name is None ==> r == self,
    {
        match binded_output_name {
            Some(name) => self.with_xdg_output_name(name),
            None => self,
        }
    }

    /// All screens when asked, the focused output otherwise.
    pub fn with_allscreens_or_active(self, allscreen: bool) -> (r: Self)
        ensures
            allscreen ==> r == (WindowState { start_mode: StartMode::AllScreens, ..self }),
            !allscreen ==> r == (WindowState { start_mode: StartMode::Active, ..self }),
    {
        if allscreen {
            WindowState { start_mode: StartMode::AllScreens, ..self }
        } else {
            WindowState { start_mode: StartMode::Active, ..self }
        }
    }

    /// One surface per screen, new screens spawning new surfaces.
    pub fn with_allscreens(self) -> (r: Self)
        ensures
            r == (WindowState { start_mode: StartMode::AllScreens, ..self }),
    {
        WindowState { start_mode: StartMode::AllScreens, ..self }
    }

    /// Background mode when asked; keep the mode otherwise.
    pub fn with_background_or_not(self, background_mode: bool) -> (r: Self)
        ensures
            background_mode ==> r == (WindowState { start_mode: StartMode::Background, ..self }),
            !background_mode ==> r == self,
    {
        if !background_mode {
            self
        } else {
            self.with_background()
        }
    }

    /// Run as a background program with no visible placement.
    pub fn with_background(self) -> (r: Self)
        ensures
            r == (WindowState { start_mode: StartMode::Background, ..self }),
    {
        WindowState { start_mode: StartMode::Background, ..self }
    }

    /// How new panel surfaces take keyboard focus.
    pub fn with_keyboard_interacivity(self, keyboard_interacivity: KeyboardInteractivity) -> (r:
        Self)
        ensures
            r == (WindowState { keyboard_interactivity: keyboard_interacivity, ..self }),
    {
        WindowState { keyboard_interactivity: keyboard_interacivity, ..self }
    }

    /// The anchor bits of new panel surfaces.
    pub fn with_anchor(self, anchor: u32) -> (r: Self)
        ensures
            r == (WindowState { anchor, ..self }),
    {
        WindowState { anchor, ..self }
    }

    /// The layer new panel surfaces stack on.
    pub fn with_layer(self, layer: Layer) -> (r: Self)
        ensures
            r == (WindowState { layer, ..self }),
    {
        WindowState { layer, ..self }
    }

    /// The margin of new panel surfaces.
    pub fn with_margin(self, margin: Margin) -> (r: Self)
        ensures
            r == (WindowState { margin: Some(margin), ..self }),
    {
        WindowState { margin: Some(margin), ..self }
    }

    /// The size of new panel surfaces; without one, the compositor
    /// suggests a size from the anchors.
    pub fn with_size(self, size: WindowSize) -> (r: Self)
        ensures
            r == (WindowState { size: Some(size), ..self }),
    {
        WindowState { size: Some(size), ..self }
    }

    /// The size of new panel surfaces, where one is given.
    pub fn with_option_size(self, size: Option<WindowSize>) -> (r: Self)
        ensures
            r == (WindowState { size, ..self }),
    {
        WindowState { size, ..self }
    }

    /// The exclusive zone of new panel surfaces.
    pub fn with_exclusive_zone(self, exclusive_zone: i32) -> (r: Self)
        ensures
            r == (WindowState { exclusive_zone: Some(exclusive_zone), ..self }),
    {
        WindowState { exclusive_zone: Some(exclusive_zone), ..self }
    }

    /// Present through the caller's display handle instead of
    /// engine-allocated buffers.
    pub fn with_use_display_handle(self, use_display_handle: bool) -> (r: Self)
        ensures
            r == (WindowState { use_display_handle, ..self }),
    {
        WindowState { use_display_handle, ..self }
    }
}


impl<T> WindowState<T> {
    /// Queue a control value to be acted on by the driver.
    pub fn append_return_data(&mut self, data: ReturnData<T>)
        ensures
            final(self).return_data@ == old(self).return_data@.push(data),
            *final(self) == (WindowState {
                return_data: final(self).return_data,
                ..*old(self)
            }),
    {
        self.return_data.push(data);
    }

    /// The first unit, for single-window callers.
    pub fn main_window(&self) -> (r: &WindowStateUnit<T>)
        requires
            self.units@.len() > 0,
        ensures
            r == self.units@[0],
    {
        &self.units[0]
    }

    /// The position of the first unit with this identity.
    fn unit_index_of(&self, id: Id) -> (r: Option<usize>)
        ensures
            match r {
                Some(i) => i < self.units@.len() && self.units@[i as int].id == id && forall|
                    j: int,
                |
                    0 <= j < i ==> self.units@[j].id != id,
                None => forall|j: int| 0 <= j < self.units@.len() ==> self.units@[j].id != id,
            },
            spec_unit_index_of(self.units@, id) == match r {
                Some(i) => Some(i as int),
                None => None::<int>,
            },
    {
        let mut i: usize = 0;
        while i < self.units.len()
            invariant
                i <= self.units@.len(),
                forall|j: int| 0 <= j < i ==> self.units@[j].id != id,
            decreases self.units@.len() - i,
        {
            if self.units[i].id == id {
                proof {
                    lemma_unit_index_of_skip(self.units@, id, i as int);
                    assert(self.units@.skip(i as int)[0] == self.units@[i as int]);
                }
                return Some(i);
            }
            i = i + 1;
        }
        proof {
            lemma_unit_index_of_skip(self.units@, id, self.units@.len() as int);
            assert(self.units@.skip(self.units@.len() as int) =~= Seq::<WindowStateUnit<T>>::empty());
        }
        None
    }

    /// The first unit with this identity, if any.
    pub fn get_unit_with_id(&self, id: Id) -> (r: Option<&WindowStateUnit<T>>)
        ensures
            r is Some ==> exists|i: int|
                0 <= i < self.units@.len() && #[trigger] self.units@[i].id == id && r->0
                    == self.units@[i],
            r is None ==> !self.spec_has_unit(id),
    {
        match self.unit_index_of(id) {
            Some(i) => Some(&self.units[i]),
            None => None,
        }
    }

    /// The first unit with this identity, if any.
    pub fn get_window_with_id(&self, id: Id) -> (r: Option<&WindowStateUnit<T>>)
        ensures
            r is Some ==> exists|i: int|
                0 <= i < self.units@.len() && #[trigger] self.units@[i].id == id && r->0
                    == self.units@[i],
            r is None ==> !self.spec_has_unit(id),
    {
        self.get_unit_with_id(id)
    }

    /// All units.
    pub fn windows(&self) -> (r: &Vec<WindowStateUnit<T>>)
        ensures
            r == &self.units,
    {
        &self.units
    }

    /// The position of the first unit holding this surface object.
    fn unit_index_of_surface(&self, surface: SurfaceHandle) -> (r: Option<usize>)
        ensures
            match r {
                Some(i) => i < self.units@.len() && self.units@[i as int].wl_surface == surface
                    && forall|j: int| 0 <= j < i ==> self.units@[j].wl_surface != surface,
                None => forall|j: int|
                    0 <= j < self.units@.len() ==> self.units@[j].wl_surface != surface,
            },
            spec_surface_index_of(self.units@, surface) == match r {
                Some(i) => Some(i as int),
                None => None::<int>,
            },
    {
        let mut i: usize = 0;
        while i < self.units.len()
            invariant
                i <= self.units@.len(),
                forall|j: int| 0 <= j < i ==> self.units@[j].wl_surface != surface,
            decreases self.units@.len() - i,
        {
            if self.units[i].wl_surface == surface {
                proof {
                    lemma_surface_index_of_skip(self.units@, surface, i as int);
                    assert(self.units@.skip(i as int)[0] == self.units@[i as int]);
                }
                return Some(i);
            }
            i = i + 1;
        }
        proof {
            lemma_surface_index_of_skip(self.units@, surface, self.units@.len() as int);
            assert(self.units@.skip(self.units@.len() as int)
                =~= Seq::<WindowStateUnit<T>>::empty());
        }
        None
    }

    /// The identity of the first unit holding this surface object.
    pub fn get_id_from_surface(&self, surface: SurfaceHandle) -> (r: Option<Id>)
        ensures
            r == spec_surface_unit(self.units@, surface),
            r is Some ==> exists|i: int|
                0 <= i < self.units@.len() && #[trigger] self.units@[i].wl_surface == surface
                    && r->0 == self.units@[i].id,
            r is None ==> forall|i: int|
                0 <= i < self.units@.len() ==> self.units@[i].wl_surface != surface,
    {
        match self.unit_index_of_surface(surface) {
            Some(i) => Some(self.units[i].id),
            None => None,
        }
    }

    /// The identity of the focused surface, if the engine knows its
    /// unit.
    pub fn current_surface_id(&self) -> (r: Option<Id>)
        ensures
            self.current_surface is None ==> r is None,
            r is Some ==> self.current_surface is Some && exists|i: int|
                0 <= i < self.units@.len() && #[trigger] self.units@[i].wl_surface
                    == self.current_surface->0 && r->0 == self.units@[i].id,
    {
        match self.current_surface {
            Some(surface) => self.get_id_from_surface(surface),
            None => None,
        }
    }

    /// Whether the pointer currently occupies the unit with this
    /// identity.
    pub fn is_mouse_surface(&self, surface_id: Id) -> (r: bool)
        ensures
            r == (self.active_surfaces.pointer is Some && self.active_surfaces.pointer->0.unit
                == Some(surface_id)),
    {
        match self.active_surfaces.pointer_target() {
            Some(target) => match target.unit {
                Some(id) => id == surface_id,
                None => false,
            },
            None => false,
        }
    }

    /// Update the focused surface. Only a finger down, a pointer
    /// click or a surface creation moves focus. On a change, the
    /// keyboard repeat stops, the new surface's unit (if known) is
    /// told it is focused, and its output becomes the engine's
    /// placement hint.
    #[verifier::rlimit(100)]
    #[verifier::spinoff_prover]
    fn update_current_surface(&mut self, surface: Option<SurfaceHandle>)
        ensures
            final(self).units@ == old(self).units@,
            final(self).requests@ == old(self).requests@,
            final(self).message@ == old(self).message@ + spec_focus_messages(
                old(self).units@,
                old(self).current_surface,
                surface,
            ),
            surface is Some ==> final(self).current_surface == surface,
            surface is None ==> final(self).current_surface == old(self).current_surface,
            !(surface is Some && old(self).current_surface != surface) ==> *final(self) == *old(self),
            surface is Some && old(self).current_surface != surface ==> final(self).keyboard_state == match old(self).keyboard_state {
                Some(ks) => Some(crate::input::KeyboardState { current_repeat: None, ..ks }),
                None => None::<crate::input::KeyboardState>,
            },
            *final(self) == (WindowState {
                current_surface: final(self).current_surface,
                keyboard_state: final(self).keyboard_state,
                message: final(self).message,
                last_unit_index: final(self).last_unit_index,
                ..*old(self)
            }),
    {
        let same = match (&surface, &self.current_surface) {
            (Some(a), Some(b)) => *a == *b,
            (None, None) => true,
            _ => false,
        };
        if same {
            return ;
        }
        if let Some(surface) = surface {
            self.current_surface = Some(surface);
            if let Some(keyboard_state) = &mut self.keyboard_state {
                keyboard_state.current_repeat = None;
            }
            if let Some(i) = self.unit_index_of_surface(surface) {
                let unit_id = self.units[i].id;
                self.message.push((Some(unit_id), DispatchMessage::Focused(unit_id)));
                let unit_output = self.units[i].wl_output;
                if let Some(output) = unit_output {
                    let mut j: usize = 0;
                    let mut found: usize = 0;
                    while j < self.outputs.len()
                        invariant
                            j <= self.outputs@.len(),
                        decreases self.outputs@.len() - j,
                    {
                        if self.outputs[j].1 == output {
                            found = j;
                            break ;
                        }
                        j = j + 1;
                    }
                    self.last_unit_index = found;
                } else {
                    self.last_unit_index = 0;
                }
            }
        }
    }

    /// Add a freshly created unit; its surface becomes the focused
    /// surface, with the focus event and keyboard-repeat cancellation
    /// a focus change brings.
    #[verifier::rlimit(100)]
    #[verifier::spinoff_prover]
    pub fn push_window(&mut self, window_state_unit: WindowStateUnit<T>)
        ensures
            final(self).units@ == old(self).units@.push(window_state_unit),
            final(self).requests@ == old(self).requests@,
            final(self).current_surface == Some(window_state_unit.wl_surface),
            final(self).message@ == old(self).message@ + spec_focus_messages(
                old(self).units@.push(window_state_unit),
                old(self).current_surface,
                Some(window_state_unit.wl_surface),
            ),
            old(self).current_surface != Some(window_state_unit.wl_surface) ==> final(self).keyboard_state == match old(self).keyboard_state {
                Some(ks) => Some(crate::input::KeyboardState { current_repeat: None, ..ks }),
                None => None::<crate::input::KeyboardState>,
            },
            old(self).current_surface == Some(window_state_unit.wl_surface) ==> final(self).keyboard_state == old(self).keyboard_state,
            *final(self) == (WindowState {
                units: final(self).units,
                current_surface: final(self).current_surface,
                keyboard_state: final(self).keyboard_state,
                message: final(self).message,
                last_unit_index: final(self).last_unit_index,
                ..*old(self)
            }),
    {
        let surface = window_state_unit.wl_surface;
        self.units.push(window_state_unit);
        self.update_current_surface(Some(surface));
    }

    /// Merge a refresh request into every unit.
    #[verifier::rlimit(50)]
    pub fn request_refresh_all(&mut self, request: crate::refresh::RefreshRequest)
        ensures
            final(self).units@.len() == old(self).units@.len(),
            forall|i: int|
                0 <= i < old(self).units@.len() ==> final(self).units@[i]
                    == (WindowStateUnit {
                    request_flag: crate::unit::RequestFlag {
                        refresh: old(self).units@[i].request_flag.refresh.spec_merged(request),
                        ..old(self).units@[i].request_flag
                    },
                    ..old(self).units@[i]
                }),
            *final(self) == (WindowState { units: final(self).units, ..*old(self) }),
    {
        let mut i: usize = 0;
        while i < self.units.len()
            invariant
                i <= self.units@.len(),
                self.units@.len() == old(self).units@.len(),
                forall|j: int|
                    i <= j < old(self).units@.len() ==> self.units@[j] == old(self).units@[j],
                forall|j: int|
                    0 <= j < i ==> self.units@[j] == (WindowStateUnit {
                        request_flag: crate::unit::RequestFlag {
                            refresh: old(self).units@[j].request_flag.refresh.spec_merged(request),
                            ..old(self).units@[j].request_flag
                        },
                        ..old(self).units@[j]
                    }),
                *self == (WindowState { units: self.units, ..*old(self) }),
            decreases self.units@.len() - i,
        {
            self.units[i].request_refresh(request);
            i = i + 1;
        }
    }

    /// Merge a refresh request into the unit with this identity, if it
    /// exists.
    #[verifier::rlimit(50)]
    pub fn request_refresh(&mut self, id: Id, request: crate::refresh::RefreshRequest)
        ensures
            final(self).units@.len() == old(self).units@.len(),
            !old(self).spec_has_unit(id) ==> final(self).units@ == old(self).units@,
            old(self).spec_has_unit(id) ==> exists|i: int|
                0 <= i < old(self).units@.len() && #[trigger] old(self).units@[i].id == id && final(self).units@ == old(self).units@.update(
                    i,
                    (WindowStateUnit {
                        request_flag: crate::unit::RequestFlag {
                            refresh: old(self).units@[i].request_flag.refresh.spec_merged(request),
                            ..old(self).units@[i].request_flag
                        },
                        ..old(self).units@[i]
                    }),
                ),
            *final(self) == (WindowState { units: final(self).units, ..*old(self) }),
    {
        if let Some(i) = self.unit_index_of(id) {
            self.units[i].request_refresh(request);
        }
    }

    /// Ask for the unit with this identity to be closed.
    #[verifier::rlimit(50)]
    pub fn request_close(&mut self, id: Id)
        ensures
            final(self).units@.len() == old(self).units@.len(),
            !old(self).spec_has_unit(id) ==> final(self).units@ == old(self).units@,
            old(self).spec_has_unit(id) ==> exists|i: int|
                0 <= i < old(self).units@.len() && #[trigger] old(self).units@[i].id == id && final(self).units@ == old(self).units@.update(
                    i,
                    (WindowStateUnit {
                        request_flag: crate::unit::RequestFlag {
                            close: true,
                            ..old(self).units@[i].request_flag
                        },
                        ..old(self).units@[i]
                    }),
                ),
            *final(self) == (WindowState { units: final(self).units, ..*old(self) }),
    {
        if let Some(i) = self.unit_index_of(id) {
            self.units[i].request_close();
        }
    }

    /// After drawing, register the unit's next frame callback: where
    /// the unit's present slot was taken, it moves on to requested and
    /// exactly one frame request for its surface is queued; otherwise
    /// nothing changes.
    #[verifier::rlimit(100)]
    #[verifier::spinoff_prover]
    pub fn request_next_present(&mut self, id: Id)
        ensures
            final(self).message@ == old(self).message@,
            ({
                let oi = spec_unit_index_of(old(self).units@, id);
                match oi {
                    None => final(self).units@ == old(self).units@ && final(self).requests@ == old(self).requests@,
                    Some(i) => {
                        let u = old(self).units@[i];
                        if u.present_available_state == crate::present::PresentAvailableState::Taken {
                            final(self).units@ == old(self).units@.update(
                                i,
                                (WindowStateUnit {
                                    present_available_state:
                                        crate::present::PresentAvailableState::Requested,
                                    ..u
                                }),
                            ) && final(self).requests@ == old(self).requests@.push(
                                ProtocolRequest::Frame { surface: u.wl_surface, unit: id },
                            )
                        } else {
                            final(self).units@ == old(self).units@ && final(self).requests@
                                == old(self).requests@
                        }
                    },
                }
            }),
            *final(self) == (WindowState {
                units: final(self).units,
                requests: final(self).requests,
                ..*old(self)
            }),
    {
        if let Some(i) = self.unit_index_of(id) {
            let must_register = self.units[i].request_next_present();
            proof {
                if !must_register {
                    assert(self.units@ =~= old(self).units@);
                }
            }
            if must_register {
                let surface = self.units[i].wl_surface;
                self.requests.push(ProtocolRequest::Frame { surface, unit: id });
            }
        }
    }

    /// Give the unit's taken present slot back unused: a taken slot
    /// becomes available again; otherwise nothing changes.
    #[verifier::rlimit(100)]
    #[verifier::spinoff_prover]
    pub fn reset_present_slot(&mut self, id: Id)
        ensures
            final(self).message@ == old(self).message@,
            final(self).requests@ == old(self).requests@,
            ({
                let oi = spec_unit_index_of(old(self).units@, id);
                match oi {
                    None => final(self).units@ == old(self).units@,
                    Some(i) => final(self).units@ == old(self).units@.update(
                        i,
                        (WindowStateUnit {
                            present_available_state: old(self).units@[i].present_available_state.spec_reset().0,
                            ..old(self).units@[i]
                        }),
                    ),
                }
            }),
            *final(self) == (WindowState { units: final(self).units, ..*old(self) }),
    {
        if let Some(i) = self.unit_index_of(id) {
            self.units[i].reset_present_slot();
        }
    }

    /// The compositor fired the frame callback of this unit.
    #[verifier::rlimit(50)]
    pub fn present_slot_callback_done(&mut self, id: Id)
        ensures
            final(self).units@.len() == old(self).units@.len(),
            old(self).spec_has_unit(id) ==> exists|i: int|
                0 <= i < old(self).units@.len() && #[trigger] old(self).units@[i].id == id && final(self).units@ == old(self).units@.update(
                    i,
                    (WindowStateUnit {
                        present_available_state: crate::present::PresentAvailableState::Available,
                        ..old(self).units@[i]
                    }),
                ),
            !old(self).spec_has_unit(id) ==> final(self).units@ == old(self).units@,
            *final(self) == (WindowState { units: final(self).units, ..*old(self) }),
    {
        if let Some(i) = self.unit_index_of(id) {
            self.units[i].present_slot_callback_done();
        }
    }

    /// Ask the I/O shell to flush the connection.
    pub fn flush(&mut self)
        ensures
            final(self).requests@ == old(self).requests@.push(ProtocolRequest::Flush),
            *final(self) == (WindowState { requests: final(self).requests, ..*old(self) }),
    {
        self.requests.push(ProtocolRequest::Flush);
    }

    /// Forget the remembered placement output; the next placement
    /// falls back to the focused output.
    pub fn forget_last_output(&mut self)
        ensures
            final(self).last_wloutput is None,
            *final(self) == (WindowState { last_wloutput: None, ..*old(self) }),
    {
        self.last_wloutput = None;
    }
}


impl CapabilityState {
    /// Drop the controller cached for `id`, queuing the destruction of
    /// the protocol object where one existed.
    fn remove_and_queue(
        &mut self,
        id: Id,
        kind: CapabilityKind,
        requests: &mut Vec<ProtocolRequest>,
    )
        requires
            old(self).wf(),
        ensures
            final(self).wf(),
            final(self).controllers@ =~= old(self).controllers@.remove(id.0),
            !final(self).controllers@.contains_key(id.0),
            final(self).manager == old(self).manager,
            final(self).next_controller == old(self).next_controller,
            old(self).controllers@.contains_key(id.0) ==> final(requests)@ == old(requests)@.push(
                ProtocolRequest::DestroyController {
                    capability: kind,
                    controller: old(self).controllers@[id.0],
                },
            ),
            !old(self).controllers@.contains_key(id.0) ==> final(requests)@ == old(requests)@,
            old(requests)@.is_prefix_of(final(requests)@),
    {
        if let Some(h) = self.remove_surface(id) {
            requests.push(
                ProtocolRequest::DestroyController { capability: kind, controller: h },
            );
        }
    }
}

/// What the registry advertised and the I/O shell could bind during
/// global negotiation. A required global that failed to bind is fatal;
/// an optional one is simply absent.
#[derive(Debug, Clone, Copy, PartialEq, Eq)]
pub struct GlobalBindings {
    pub compositor: Option<u32>,
    pub shm: Option<u32>,
    pub seat: Option<u32>,
    pub wmbase: Option<u32>,
    pub layer_shell: Option<u32>,
    pub xdg_output_manager: Option<u32>,
    pub cursor_manager: Option<u32>,
    pub viewporter: Option<u32>,
    pub decoration_manager: Option<u32>,
    pub fractional_scale_manager: Option<u32>,
    pub text_input_manager: Option<u32>,
    pub blur_manager: Option<u32>,
    pub corner_radius_manager: Option<u32>,
    pub shadow_manager: Option<u32>,
    pub auto_hide_manager: Option<u32>,
    pub home_visibility_manager: Option<u32>,
    pub voice_mode_manager: Option<u32>,
    pub surface_visibility_manager: Option<u32>,
    pub dismiss_manager: Option<u32>,
    pub ext_foreign_toplevel_list: Option<u32>,
    pub cosmic_toplevel_info: Option<u32>,
    pub cosmic_toplevel_manager: Option<u32>,
    pub cosmic_toplevel_manager_version: u32,
    pub foreign_toplevel_manager: Option<u32>,
}

impl GlobalBindings {
    /// Whether every required global was bound: the object factory,
    /// shared memory, the seat, the window-manager base, the anchored
    /// shell factory and the output-metadata manager.
    pub open spec fn spec_required_ok(self) -> bool {
        &&& self.compositor is Some
        &&& self.shm is Some
        &&& self.seat is Some
        &&& self.wmbase is Some
        &&& self.layer_shell is Some
        &&& self.xdg_output_manager is Some
    }
}

impl<T> WindowState<T> {
    /// Record the outcome of global negotiation. A missing required
    /// global is fatal and reported as a bind error; each optional
    /// global is recorded as absent, so every later use of it degrades
    /// to a no-op. An extension manager counts only where its feature
    /// was asked for.
    pub fn record_negotiation(&mut self, binds: &GlobalBindings) -> (r: Result<
        (),
        crate::errors::LayerEventError,
    >)
        requires
            old(self).wf(),
        ensures
            final(self).wf(),
            r is Err <==> !binds.spec_required_ok(),
            r is Err ==> r->Err_0 == crate::errors::LayerEventError::BindError && *final(self)
                == *old(self),
            r is Ok ==> {
                &&& final(self).wl_compositor == binds.compositor
                &&& final(self).shm == binds.shm
                &&& final(self).seat == binds.seat
                &&& final(self).wmbase == binds.wmbase
                &&& final(self).layer_shell == binds.layer_shell
                &&& final(self).xdg_output_manager == binds.xdg_output_manager
                &&& final(self).cursor_manager == binds.cursor_manager
                &&& final(self).viewporter == binds.viewporter
                &&& final(self).xdg_decoration_manager == binds.decoration_manager
                &&& final(self).fractional_scale_manager == binds.fractional_scale_manager
                &&& final(self).text_input_manager == binds.text_input_manager
                &&& final(self).blur.manager == (if old(self).blur_enabled {
                    binds.blur_manager
                } else {
                    None
                })
                &&& final(self).corner_radius_cap.manager == binds.corner_radius_manager
                &&& final(self).shadow.manager == binds.shadow_manager
                &&& final(self).auto_hide.manager == binds.auto_hide_manager
                &&& final(self).home_visibility.manager == (if old(self).home_only || old(self).hide_on_home {
                    binds.home_visibility_manager
                } else {
                    None
                })
                &&& final(self).voice_mode.manager == (if old(self).voice_mode_enabled {
                    binds.voice_mode_manager
                } else {
                    None
                })
                &&& final(self).surface_visibility.manager == binds.surface_visibility_manager
                &&& final(self).dismiss.manager == binds.dismiss_manager
                &&& final(self).ext_foreign_toplevel_list == (if old(self).foreign_toplevel_enabled {
                    binds.ext_foreign_toplevel_list
                } else {
                    None
                })
                &&& final(self).cosmic_toplevel_info == (if old(self).foreign_toplevel_enabled {
                    binds.cosmic_toplevel_info
                } else {
                    None
                })
                &&& final(self).cosmic_toplevel_manager == (if old(self).foreign_toplevel_enabled {
                    binds.cosmic_toplevel_manager
                } else {
                    None
                })
                &&& final(self).foreign_toplevel_manager == (if old(self).foreign_toplevel_enabled
                    && binds.cosmic_toplevel_manager is None {
                    binds.foreign_toplevel_manager
                } else {
                    None
                })
                &&& final(self).blur.controllers@ =~= old(self).blur.controllers@
                &&& final(self).units@ == old(self).units@
            },
    {
        if binds.compositor.is_none() || binds.shm.is_none() || binds.seat.is_none()
            || binds.wmbase.is_none() || binds.layer_shell.is_none()
            || binds.xdg_output_manager.is_none() {
            return Err(crate::errors::LayerEventError::BindError);
        }
        self.wl_compositor = binds.compositor;
        self.shm = binds.shm;
        self.seat = binds.seat;
        self.wmbase = binds.wmbase;
        self.layer_shell = binds.layer_shell;
        self.xdg_output_manager = binds.xdg_output_manager;
        self.cursor_manager = binds.cursor_manager;
        self.viewporter = binds.viewporter;
        self.xdg_decoration_manager = binds.decoration_manager;
        self.fractional_scale_manager = binds.fractional_scale_manager;
        self.text_input_manager = binds.text_input_manager;
        self.blur.set_manager(
            if self.blur_enabled {
                binds.blur_manager
            } else {
                None
            },
        );
        self.corner_radius_cap.set_manager(binds.corner_radius_manager);
        self.shadow.set_manager(binds.shadow_manager);
        self.auto_hide.set_manager(binds.auto_hide_manager);
        self.home_visibility.set_manager(
            if self.home_only || self.hide_on_home {
                binds.home_visibility_manager
            } else {
                None
            },
        );
        self.voice_mode.set_manager(
            if self.voice_mode_enabled {
                binds.voice_mode_manager
            } else {
                None
            },
        );
        self.surface_visibility.set_manager(binds.surface_visibility_manager);
        self.dismiss.set_manager(binds.dismiss_manager);
        if self.foreign_toplevel_enabled {
            self.ext_foreign_toplevel_list = binds.ext_foreign_toplevel_list;
            self.cosmic_toplevel_info = binds.cosmic_toplevel_info;
            self.cosmic_toplevel_manager = binds.cosmic_toplevel_manager;
            self.cosmic_toplevel_manager_version = binds.cosmic_toplevel_manager_version;
            if self.cosmic_toplevel_manager.is_none() {
                self.foreign_toplevel_manager = binds.foreign_toplevel_manager;
            } else {
                self.foreign_toplevel_manager = None;
            }
        } else {
            self.ext_foreign_toplevel_list = None;
            self.cosmic_toplevel_info = None;
            self.cosmic_toplevel_manager = None;
            self.foreign_toplevel_manager = None;
        }
        Ok(())
    }

    /// A new output appeared in the registry: remember it and tell the
    /// caller.
    pub fn on_new_output(&mut self, registry_name: u32, output: OutputHandle)
        ensures
            final(self).outputs@ == old(self).outputs@.push((registry_name, output)),
            final(self).message@ == old(self).message@.push(
                (None::<Id>, DispatchMessage::NewDisplay(output)),
            ),
            *final(self) == (WindowState {
                outputs: final(self).outputs,
                message: final(self).message,
                ..*old(self)
            }),
    {
        self.outputs.push((registry_name, output));
        self.message.push((None, DispatchMessage::NewDisplay(output)));
    }

    /// An output disappeared from the registry: forget it, and forget
    /// the placement hint when it pointed there.
    pub fn on_output_removed(&mut self, registry_name: u32, last_output_dead: bool)
        ensures
            final(self).outputs@ == old(self).outputs@.filter(
                |e: (u32, OutputHandle)| e.0 != registry_name,
            ),
            last_output_dead ==> final(self).last_wloutput is None,
            !last_output_dead ==> final(self).last_wloutput == old(self).last_wloutput,
            *final(self) == (WindowState {
                outputs: final(self).outputs,
                last_wloutput: final(self).last_wloutput,
                ..*old(self)
            }),
    {
        if last_output_dead {
            self.last_wloutput = None;
        }
        let mut kept: Vec<(u32, OutputHandle)> = Vec::new();
        let mut i: usize = 0;
        while i < self.outputs.len()
            invariant
                i <= self.outputs@.len(),
                kept@ == self.outputs@.take(i as int).filter(
                    |e: (u32, OutputHandle)| e.0 != registry_name,
                ),
                self.outputs@ == old(self).outputs@,
            decreases self.outputs@.len() - i,
        {
            let entry = self.outputs[i];
            proof {
                reveal_with_fuel(Seq::filter, 2);
                assert(self.outputs@.take(i + 1).drop_last() =~= self.outputs@.take(i as int));
                assert(self.outputs@.take(i + 1).last() == self.outputs@[i as int]);
            }
            if entry.0 != registry_name {
                kept.push(entry);
            }
            i = i + 1;
        }
        proof {
            assert(self.outputs@.take(self.outputs@.len() as int) =~= self.outputs@);
        }
        self.outputs = kept;
    }

    /// A surface died with its output: drop its unit and remember its
    /// identity, so the caller hears of the close on the next tick.
    #[verifier::rlimit(100)]
    #[verifier::spinoff_prover]
    pub fn remove_dead_surface(&mut self, surface: SurfaceHandle)
        ensures
            (forall|i: int|
                0 <= i < old(self).units@.len() ==> #[trigger] old(self).units@[i].wl_surface
                    != surface) ==> *final(self) == *old(self),
            (exists|i: int|
                0 <= i < old(self).units@.len() && #[trigger] old(self).units@[i].wl_surface
                    == surface) ==> exists|i: int|
                {
                    &&& 0 <= i < old(self).units@.len()
                    &&& #[trigger] old(self).units@[i].wl_surface == surface
                    &&& final(self).units@ == old(self).units@.remove(i)
                    &&& final(self).closed_ids@ == old(self).closed_ids@.push(
                        old(self).units@[i].id,
                    )
                },
            *final(self) == (WindowState {
                units: final(self).units,
                closed_ids: final(self).closed_ids,
                ..*old(self)
            }),
    {
        if let Some(i) = self.unit_index_of_surface(surface) {
            let id = self.units[i].id;
            self.units.remove(i);
            self.closed_ids.push(id);
        }
    }

    /// Whether a newly discovered output must spawn a surface: only in
    /// the all-screens start mode.
    pub fn wants_surface_on_new_output(&self) -> (r: bool)
        ensures
            r == (self.start_mode is AllScreens),
    {
        self.start_mode.is_allscreens()
    }

    /// Install the unit of a surface the I/O shell created on an
    /// output, under a fresh identity; it becomes the focused surface.
    /// Existing units are untouched.
    #[verifier::rlimit(100)]
    #[verifier::spinoff_prover]
    pub fn install_output_unit(
        &mut self,
        wl_surface: SurfaceHandle,
        layer_shell_surface: crate::shell::LayerSurfaceHandle,
        output: OutputHandle,
        zxdgoutput: Option<ZxdgOutputInfo>,
        fractional_scale: Option<crate::shell::FractionalScaleHandle>,
        viewport: Option<crate::shell::ViewportHandle>,
    ) -> (r: Id)
        requires
            old(self).id_allocator.can_allocate(),
        ensures
            final(self).id_allocator.next == old(self).id_allocator.next + 1,
            r.0 == old(self).id_allocator.next,
            spec_installed_unit(old(self).units@, final(self).units@, r, output),
            final(self).units@.last().wl_surface == wl_surface,
            final(self).units@.last().shell == crate::shell::Shell::LayerShell(
                layer_shell_surface,
            ),
            final(self).units@.last().zxdgoutput == zxdgoutput,
            final(self).units@.last().fractional_scale == fractional_scale,
            final(self).units@.last().viewport == viewport,
            final(self).requests@ == old(self).requests@,
            final(self).outputs@ == old(self).outputs@,
            final(self).blur == old(self).blur,
            final(self).corner_radius_cap == old(self).corner_radius_cap,
            final(self).shadow == old(self).shadow,
            final(self).auto_hide == old(self).auto_hide,
            final(self).home_visibility == old(self).home_visibility,
            final(self).voice_mode == old(self).voice_mode,
            final(self).surface_visibility == old(self).surface_visibility,
            final(self).dismiss == old(self).dismiss,
    {
        let id = self.id_allocator.allocate();
        let mut unit: WindowStateUnit<T> = WindowStateUnit::new(
            id,
            wl_surface,
            crate::shell::Shell::LayerShell(layer_shell_surface),
        );
        unit.zxdgoutput = zxdgoutput;
        unit.fractional_scale = fractional_scale;
        unit.viewport = viewport;
        unit.wl_output = Some(output);
        self.push_window(unit);
        id
    }

    /// The position of the first caller-created unit with this
    /// identity.
    fn created_unit_index(&self, id: Id) -> (r: Option<usize>)
        ensures
            match r {
                Some(i) => i < self.units@.len() && self.units@[i as int].id == id
                    && self.units@[i as int].becreated,
                None => forall|j: int|
                    0 <= j < self.units@.len() ==> !(#[trigger] self.units@[j].id == id
                        && self.units@[j].becreated),
            },
    {
        let mut i: usize = 0;
        while i < self.units.len()
            invariant
                i <= self.units@.len(),
                forall|j: int|
                    0 <= j < i ==> !(#[trigger] self.units@[j].id == id
                        && self.units@[j].becreated),
            decreases self.units@.len() - i,
        {
            if self.units[i].id == id && self.units[i].becreated {
                return Some(i);
            }
            i = i + 1;
        }
        None
    }

    /// Drop the unit with this identity, provided it was created at
    /// the caller's request: its shell objects, surface, buffer and
    /// every extension controller are queued for destruction in that
    /// order, and no extension controller map keeps the identity.
    #[verifier::rlimit(100)]
    #[verifier::spinoff_prover]
    pub fn remove_shell(&mut self, id: Id) -> (r: Option<()>)
        requires
            old(self).wf(),
        ensures
            final(self).wf(),
            r is Some <==> exists|i: int|
                0 <= i < old(self).units@.len() && #[trigger] old(self).units@[i].id == id && old(self).units@[i].becreated,
            r is None ==> *final(self) == *old(self),
            r is Some ==> exists|i: int|
                {
                    &&& 0 <= i < old(self).units@.len()
                    &&& #[trigger] old(self).units@[i].id == id
                    &&& old(self).units@[i].becreated
                    &&& final(self).units@ == old(self).units@.remove(i)
                    &&& final(self).requests@ == old(self).requests@ + old(
                        self,
                    ).units@[i].shell.spec_destroy_order().map_values(
                        |o: crate::shell::ShellObject| ProtocolRequest::DestroyShellObject(o),
                    ) + seq![ProtocolRequest::DestroySurface(old(self).units@[i].wl_surface)] + (
                    match old(self).units@[i].buffer {
                        Some(b) => seq![ProtocolRequest::DestroyBuffer(b)],
                        None => Seq::<ProtocolRequest>::empty(),
                    }) + old(self).spec_controller_destroys(id)
                },
            r is Some ==> final(self).spec_no_controllers(id),
            r is Some ==> {
                &&& final(self).blur.controllers@ =~= old(self).blur.controllers@.remove(id.0)
                &&& final(self).corner_radius_cap.controllers@ =~= old(self).corner_radius_cap.controllers@.remove(id.0)
                &&& final(self).shadow.controllers@ =~= old(self).shadow.controllers@.remove(id.0)
                &&& final(self).auto_hide.controllers@ =~= old(self).auto_hide.controllers@.remove(id.0)
                &&& final(self).home_visibility.controllers@ =~= old(self).home_visibility.controllers@.remove(id.0)
                &&& final(self).voice_mode.controllers@ =~= old(self).voice_mode.controllers@.remove(id.0)
                &&& final(self).surface_visibility.controllers@ =~= old(self).surface_visibility.controllers@.remove(id.0)
                &&& final(self).dismiss.controllers@ =~= old(self).dismiss.controllers@.remove(
                    id.0,
                )
            },
            old(self).requests@.is_prefix_of(final(self).requests@),
    {
        let index = self.created_unit_index(id);
        let Some(i) = index else { return None };
        let ghost shell_destroys = self.units@[i as int].shell.spec_destroy_order().map_values(
            |o: crate::shell::ShellObject| ProtocolRequest::DestroyShellObject(o),
        );
        let destroy_list = self.units[i].shell.destroy_order();
        let mut k: usize = 0;
        while k < destroy_list.len()
            invariant
                k <= destroy_list@.len(),
                self.requests@ == old(self).requests@ + destroy_list@.take(k as int).map_values(
                    |o: crate::shell::ShellObject| ProtocolRequest::DestroyShellObject(o),
                ),
                *self == (WindowState { requests: self.requests, ..*old(self) }),
            decreases destroy_list@.len() - k,
        {
            self.requests.push(ProtocolRequest::DestroyShellObject(destroy_list[k]));
            proof {
                assert(self.requests@ =~= old(self).requests@ + destroy_list@.take(
                    k + 1,
                ).map_values(
                    |o: crate::shell::ShellObject| ProtocolRequest::DestroyShellObject(o),
                ));
            }
            k = k + 1;
        }
        proof {
            assert(destroy_list@.take(destroy_list@.len() as int) =~= destroy_list@);
            assert(self.requests@ =~= old(self).requests@ + shell_destroys);
        }
        let surface = self.units[i].wl_surface;
        let buffer = self.units[i].buffer;
        self.requests.push(ProtocolRequest::DestroySurface(surface));
        let ghost surface_destroy = seq![ProtocolRequest::DestroySurface(surface)];
        proof {
            assert(self.requests@ =~= old(self).requests@ + shell_destroys + surface_destroy);
        }
        let ghost buffer_destroy = match buffer {
            Some(b) => seq![ProtocolRequest::DestroyBuffer(b)],
            None => Seq::<ProtocolRequest>::empty(),
        };
        if let Some(b) = buffer {
            self.requests.push(ProtocolRequest::DestroyBuffer(b));
        }
        proof {
            assert(self.requests@ =~= old(self).requests@ + shell_destroys + surface_destroy
                + buffer_destroy);
        }
        self.units.remove(i);
        let ghost before_drop = self.requests@;
        self.drop_surface_controllers(id);
        proof {
            assert(self.requests@ =~= old(self).requests@ + shell_destroys + surface_destroy
                + buffer_destroy + old(self).spec_controller_destroys(id));
        }
        Some(())
    }

    /// Drop this identity from every extension controller map, queuing
    /// the destruction of each protocol object that existed.
    #[verifier::rlimit(100)]
    #[verifier::spinoff_prover]
    fn drop_surface_controllers(&mut self, id: Id)
        requires
            old(self).wf(),
        ensures
            final(self).wf(),
            final(self).spec_no_controllers(id),
            final(self).blur.controllers@ =~= old(self).blur.controllers@.remove(id.0),
            final(self).corner_radius_cap.controllers@ =~= old(
                self,
            ).corner_radius_cap.controllers@.remove(id.0),
            final(self).shadow.controllers@ =~= old(self).shadow.controllers@.remove(id.0),
            final(self).auto_hide.controllers@ =~= old(self).auto_hide.controllers@.remove(id.0),
            final(self).home_visibility.controllers@ =~= old(
                self,
            ).home_visibility.controllers@.remove(id.0),
            final(self).voice_mode.controllers@ =~= old(self).voice_mode.controllers@.remove(id.0),
            final(self).surface_visibility.controllers@ =~= old(
                self,
            ).surface_visibility.controllers@.remove(id.0),
            final(self).dismiss.controllers@ =~= old(self).dismiss.controllers@.remove(id.0),
            final(self).requests@ == old(self).requests@ + old(self).spec_controller_destroys(id),
            old(self).requests@.is_prefix_of(final(self).requests@),
            *final(self) == (WindowState {
                blur: final(self).blur,
                corner_radius_cap: final(self).corner_radius_cap,
                shadow: final(self).shadow,
                auto_hide: final(self).auto_hide,
                home_visibility: final(self).home_visibility,
                voice_mode: final(self).voice_mode,
                surface_visibility: final(self).surface_visibility,
                dismiss: final(self).dismiss,
                requests: final(self).requests,
                ..*old(self)
            }),
    {
        let ghost d1 = spec_destroy_one(self.blur, CapabilityKind::Blur, id);
        let ghost d2 = spec_destroy_one(self.corner_radius_cap, CapabilityKind::CornerRadius, id);
        let ghost d3 = spec_destroy_one(self.shadow, CapabilityKind::Shadow, id);
        let ghost d4 = spec_destroy_one(self.auto_hide, CapabilityKind::AutoHide, id);
        let ghost d5 = spec_destroy_one(self.home_visibility, CapabilityKind::HomeVisibility, id);
        let ghost d6 = spec_destroy_one(self.voice_mode, CapabilityKind::VoiceMode, id);
        let ghost d7 = spec_destroy_one(
            self.surface_visibility,
            CapabilityKind::SurfaceVisibility,
            id,
        );
        let ghost d8 = spec_destroy_one(self.dismiss, CapabilityKind::Dismiss, id);
        let mut queued: Vec<ProtocolRequest> = Vec::new();
        self.blur.remove_and_queue(id, CapabilityKind::Blur, &mut queued);
        proof {
            assert(queued@ =~= d1);
        }
        self.corner_radius_cap.remove_and_queue(id, CapabilityKind::CornerRadius, &mut queued);
        proof {
            assert(queued@ =~= d1 + d2);
        }
        self.shadow.remove_and_queue(id, CapabilityKind::Shadow, &mut queued);
        proof {
            assert(queued@ =~= d1 + d2 + d3);
        }
        self.auto_hide.remove_and_queue(id, CapabilityKind::AutoHide, &mut queued);
        proof {
            assert(queued@ =~= d1 + d2 + d3 + d4);
        }
        self.home_visibility.remove_and_queue(id, CapabilityKind::HomeVisibility, &mut queued);
        proof {
            assert(queued@ =~= d1 + d2 + d3 + d4 + d5);
        }
        self.voice_mode.remove_and_queue(id, CapabilityKind::VoiceMode, &mut queued);
        proof {
            assert(queued@ =~= d1 + d2 + d3 + d4 + d5 + d6);
        }
        self.surface_visibility.remove_and_queue(
            id,
            CapabilityKind::SurfaceVisibility,
            &mut queued,
        );
        proof {
            assert(queued@ =~= d1 + d2 + d3 + d4 + d5 + d6 + d7);
        }
        self.dismiss.remove_and_queue(id, CapabilityKind::Dismiss, &mut queued);
        proof {
            assert(queued@ =~= d1 + d2 + d3 + d4 + d5 + d6 + d7 + d8);
            assert(old(self).spec_controller_destroys(id) == d1 + d2 + d3 + d4 + d5 + d6 + d7
                + d8);
        }
        self.requests.append(&mut queued);
    }
}

/// One unit was appended for an output: the earlier units are exactly
/// as they were, and the new last unit carries the given identity and
/// is bound to the given output.
pub open spec fn spec_installed_unit<T>(
    pre: Seq<WindowStateUnit<T>>,
    post: Seq<WindowStateUnit<T>>,
    id: Id,
    output: OutputHandle,
) -> bool {
    &&& post.len() == pre.len() + 1
    &&& forall|i: int| 0 <= i < pre.len() ==> post[i] == pre[i]
    &&& post.last().id == id
    &&& post.last().wl_output == Some(output)
}

/// Starting all-screens with two outputs yields exactly two units,
/// each bound to its own output; a later-discovered third output
/// yields a third unit bound to it, without touching the first two.
pub proof fn lemma_allscreens_one_unit_per_output<T>(
    s0: Seq<WindowStateUnit<T>>,
    s1: Seq<WindowStateUnit<T>>,
    s2: Seq<WindowStateUnit<T>>,
    s3: Seq<WindowStateUnit<T>>,
    id_a: Id,
    id_b: Id,
    id_c: Id,
    out_a: OutputHandle,
    out_b: OutputHandle,
    out_c: OutputHandle,
)
    requires
        s0.len() == 0,
        spec_installed_unit(s0, s1, id_a, out_a),
        spec_installed_unit(s1, s2, id_b, out_b),
        spec_installed_unit(s2, s3, id_c, out_c),
    ensures
        s2.len() == 2,
        s2[0].id == id_a && s2[0].wl_output == Some(out_a),
        s2[1].id == id_b && s2[1].wl_output == Some(out_b),
        s3.len() == 3,
        s3[0] == s2[0] && s3[1] == s2[1],
        s3[2].id == id_c && s3[2].wl_output == Some(out_c),
{
}

impl<T> WindowState<T> {
    /// Record whether voice processing is active: recording started
    /// (true) or transcription completed (false). A later will-stop
    /// acknowledgement answers with this value at once.
    pub fn set_voice_active(&mut self, active: bool)
        ensures
            final(self).voice_active == active,
            *final(self) == (WindowState { voice_active: active, ..*old(self) }),
    {
        self.voice_active = active;
    }

    /// Whether voice processing is active.
    pub fn is_voice_active(&self) -> (r: bool)
        ensures
            r == self.voice_active,
    {
        self.voice_active
    }

    /// Whether input methods are allowed on the engine's surfaces.
    pub fn ime_allowed(&self) -> (r: bool)
        ensures
            r == self.ime_allowed,
    {
        self.ime_allowed
    }

    /// The configured input purpose.
    pub fn ime_purpose(&self) -> (r: ImePurpose)
        ensures
            r == self.ime_purpose,
    {
        self.ime_purpose
    }

    /// A text-input object entered one of our surfaces: remember it,
    /// once.
    pub fn text_input_entered(&mut self, text_input: u32)
        ensures
            (exists|i: int|
                0 <= i < old(self).text_inputs@.len() && old(self).text_inputs@[i]
                    == text_input) ==> *final(self) == *old(self),
            (forall|i: int|
                0 <= i < old(self).text_inputs@.len() ==> old(self).text_inputs@[i]
                    != text_input) ==> final(self).text_inputs@ == old(self).text_inputs@.push(
                text_input,
            ),
            *final(self) == (WindowState { text_inputs: final(self).text_inputs, ..*old(self) }),
    {
        let mut i: usize = 0;
        while i < self.text_inputs.len()
            invariant
                i <= self.text_inputs@.len(),
                forall|j: int| 0 <= j < i ==> self.text_inputs@[j] != text_input,
                self == old(self),
            decreases self.text_inputs@.len() - i,
        {
            if self.text_inputs[i] == text_input {
                return ;
            }
            i = i + 1;
        }
        self.text_inputs.push(text_input);
    }

    /// A text-input object left our surfaces: forget its first
    /// occurrence.
    pub fn text_input_left(&mut self, text_input: u32)
        ensures
            (forall|i: int|
                0 <= i < old(self).text_inputs@.len() ==> old(self).text_inputs@[i]
                    != text_input) ==> *final(self) == *old(self),
            (exists|i: int|
                0 <= i < old(self).text_inputs@.len() && old(self).text_inputs@[i]
                    == text_input) ==> exists|i: int|
                0 <= i < old(self).text_inputs@.len() && old(self).text_inputs@[i] == text_input
                    && final(self).text_inputs@ == old(self).text_inputs@.remove(i),
            *final(self) == (WindowState { text_inputs: final(self).text_inputs, ..*old(self) }),
    {
        let mut i: usize = 0;
        while i < self.text_inputs.len()
            invariant
                i <= self.text_inputs@.len(),
                forall|j: int| 0 <= j < i ==> self.text_inputs@[j] != text_input,
                self == old(self),
            decreases self.text_inputs@.len() - i,
        {
            if self.text_inputs[i] == text_input {
                self.text_inputs.remove(i);
                return ;
            }
            i = i + 1;
        }
    }
}


/// The content-hint bit for sensitive data of the text-input protocol.
pub const CONTENT_HINT_NONE: u32 = 0;

/// The sensitive-data content-hint bit of the text-input protocol.
pub const CONTENT_HINT_SENSITIVE_DATA: u32 = 0x80;

/// The normal content purpose code of the text-input protocol.
pub const CONTENT_PURPOSE_NORMAL: u32 = 0;

/// The password content purpose code of the text-input protocol.
pub const CONTENT_PURPOSE_PASSWORD: u32 = 8;

/// The terminal content purpose code of the text-input protocol.
pub const CONTENT_PURPOSE_TERMINAL: u32 = 12;

/// The content-type hint and purpose codes a purpose translates to on
/// the wire: passwords carry the sensitive-data hint, terminals the
/// terminal purpose, everything else the defaults.
pub open spec fn spec_content_type_for_purpose(purpose: ImePurpose) -> (u32, u32) {
    match purpose {
        ImePurpose::Normal => (CONTENT_HINT_NONE, CONTENT_PURPOSE_NORMAL),
        ImePurpose::Password => (CONTENT_HINT_SENSITIVE_DATA, CONTENT_PURPOSE_PASSWORD),
        ImePurpose::Terminal => (CONTENT_HINT_NONE, CONTENT_PURPOSE_TERMINAL),
    }
}

/// Translate an input purpose into the protocol's content-type codes.
pub fn content_type_for_purpose(purpose: ImePurpose) -> (r: (u32, u32))
    ensures
        r == spec_content_type_for_purpose(purpose),
{
    match purpose {
        ImePurpose::Normal => (CONTENT_HINT_NONE, CONTENT_PURPOSE_NORMAL),
        ImePurpose::Password => (CONTENT_HINT_SENSITIVE_DATA, CONTENT_PURPOSE_PASSWORD),
        ImePurpose::Terminal => (CONTENT_HINT_NONE, CONTENT_PURPOSE_TERMINAL),
    }
}

/// The surface object of the first unit with this identity, if any.
pub open spec fn spec_surface_of<T>(units: Seq<WindowStateUnit<T>>, id: Id) -> Option<
    SurfaceHandle,
> {
    match spec_unit_index_of(units, id) {
        Some(i) => Some(units[i].wl_surface),
        None => None,
    }
}

/// Whether a capability can serve this identity: a controller is
/// cached, or the manager is there to create one.
pub open spec fn spec_cap_active(pre: CapabilityState, id: Id) -> bool {
    pre.controllers@.contains_key(id.0) || pre.manager is Some
}

/// What a get-or-create yields from this state: the cached handle, a
/// fresh one through the manager, or nothing.
pub open spec fn spec_goc_result(pre: CapabilityState, id: Id) -> Option<ControllerRef> {
    if pre.controllers@.contains_key(id.0) {
        Some(ControllerRef { handle: pre.controllers@[id.0], fresh: false })
    } else if pre.manager is Some {
        Some(ControllerRef { handle: pre.next_controller, fresh: true })
    } else {
        None
    }
}

/// The protocol requests one controller command issues from this
/// state: the command through the cached controller; creation plus
/// the command for a fresh one; nothing where the capability
/// degrades.
pub open spec fn spec_issue_requests(
    pre: CapabilityState,
    kind: CapabilityKind,
    id: Id,
    surface: SurfaceHandle,
    command: ControllerCommand,
    is_default: bool,
) -> Seq<ProtocolRequest> {
    if pre.controllers@.contains_key(id.0) {
        seq![
            ProtocolRequest::Controller {
                capability: kind,
                controller: pre.controllers@[id.0],
                command,
            },
        ]
    } else if pre.manager is Some {
        seq![
            ProtocolRequest::CreateController {
                capability: kind,
                surface,
                controller: pre.next_controller,
                is_default,
            },
            ProtocolRequest::Controller {
                capability: kind,
                controller: pre.next_controller,
                command,
            },
        ]
    } else {
        Seq::empty()
    }
}

/// The destruction request of one capability's controller for this
/// identity, where one is cached.
pub open spec fn spec_destroy_one(
    cap: CapabilityState,
    kind: CapabilityKind,
    id: Id,
) -> Seq<ProtocolRequest> {
    if cap.controllers@.contains_key(id.0) {
        seq![
            ProtocolRequest::DestroyController {
                capability: kind,
                controller: cap.controllers@[id.0],
            },
        ]
    } else {
        Seq::empty()
    }
}

impl CapabilityState {
    /// Send one command through the surface's controller, creating the
    /// controller first where the manager allows it. Returns the
    /// controller used, or nothing where the capability degrades to a
    /// no-op.
    fn issue(
        &mut self,
        kind: CapabilityKind,
        id: Id,
        surface: SurfaceHandle,
        command: ControllerCommand,
        is_default: bool,
        requests: &mut Vec<ProtocolRequest>,
    ) -> (r: Option<ControllerRef>)
        requires
            old(self).wf(),
            old(self).next_controller < u64::MAX,
        ensures
            final(self).wf(),
            CapabilityState::spec_get_or_create(*old(self), id, *final(self), r),
            r == spec_goc_result(*old(self), id),
            final(requests)@ == old(requests)@ + spec_issue_requests(
                *old(self),
                kind,
                id,
                surface,
                command,
                is_default,
            ),
            old(requests)@.is_prefix_of(final(requests)@),
    {
        proof {
            assert(old(requests)@ + spec_issue_requests(*old(self), kind, id, surface, command, is_default) == old(requests)@ + spec_issue_requests(*old(self), kind, id, surface, command, is_default));
        }
        let got = self.get_or_create_controller(id);
        match got {
            Some(c) => {
                if c.fresh {
                    requests.push(
                        ProtocolRequest::CreateController {
                            capability: kind,
                            surface,
                            controller: c.handle,
                            is_default,
                        },
                    );
                }
                requests.push(
                    ProtocolRequest::Controller {
                        capability: kind,
                        controller: c.handle,
                        command,
                    },
                );
                proof {
                    assert(requests@ =~= old(requests)@ + spec_issue_requests(
                        *old(self),
                        kind,
                        id,
                        surface,
                        command,
                        is_default,
                    ));
                }
                Some(c)
            },
            None => {
                proof {
                    assert(requests@ =~= old(requests)@ + spec_issue_requests(
                        *old(self),
                        kind,
                        id,
                        surface,
                        command,
                        is_default,
                    ));
                }
                None
            },
        }
    }
}

impl<T> WindowState<T> {
    /// The surface object of the unit with this identity.
    fn surface_of(&self, id: Id) -> (r: Option<SurfaceHandle>)
        ensures
            r == spec_surface_of(self.units@, id),
            r is Some ==> exists|i: int|
                0 <= i < self.units@.len() && #[trigger] self.units@[i].id == id && r->0
                    == self.units@[i].wl_surface,
            r is None ==> !self.spec_has_unit(id),
    {
        match self.unit_index_of(id) {
            Some(i) => Some(self.units[i].wl_surface),
            None => None,
        }
    }

    /// Round or un-round the surface's corners: the command goes
    /// through the unit's corner-radius controller and the surface is
    /// committed. Without the manager, or for an unknown identity,
    /// this degrades to a no-op.
    #[verifier::rlimit(100)]
    #[verifier::spinoff_prover]
    pub fn set_corner_radius_for_surface(&mut self, id: Id, radii: Option<CornerRadius>) -> (r:
        bool)
        requires
            old(self).wf(),
            old(self).corner_radius_cap.next_controller < u64::MAX,
        ensures
            final(self).wf(),
            r == (old(self).spec_has_unit(id) && (old(self).corner_radius_cap.manager is Some
                || old(self).corner_radius_cap.controllers@.contains_key(id.0))),
            !old(self).spec_has_unit(id) ==> *final(self) == *old(self),
            old(self).spec_has_unit(id) ==> CapabilityState::spec_get_or_create(
                old(self).corner_radius_cap,
                id,
                final(self).corner_radius_cap,
                if r {
                    Some(
                        ControllerRef {
                            handle: final(self).corner_radius_cap.controllers@[id.0],
                            fresh: !old(self).corner_radius_cap.controllers@.contains_key(id.0),
                        },
                    )
                } else {
                    None
                },
            ),
            old(self).requests@.is_prefix_of(final(self).requests@),
            ({
                let cmd = match radii {
                    Some(rr) => ControllerCommand::SetRadius(rr),
                    None => ControllerCommand::UnsetRadius,
                };
                match spec_surface_of(old(self).units@, id) {
                    None => final(self).requests@ == old(self).requests@,
                    Some(surf) => final(self).requests@ == old(self).requests@
                        + spec_issue_requests(
                        old(self).corner_radius_cap,
                        CapabilityKind::CornerRadius,
                        id,
                        surf,
                        cmd,
                        false,
                    ) + if spec_cap_active(old(self).corner_radius_cap, id) {
                        seq![ProtocolRequest::CommitSurface(surf)]
                    } else {
                        Seq::<ProtocolRequest>::empty()
                    },
                }
            }),
            final(self).units@ == old(self).units@,
            final(self).message@ == old(self).message@,
    {
        let Some(surface) = self.surface_of(id) else { return false };
        let command = match radii {
            Some(radii) => ControllerCommand::SetRadius(radii),
            None => ControllerCommand::UnsetRadius,
        };
        let issued = self.corner_radius_cap.issue(
            CapabilityKind::CornerRadius,
            id,
            surface,
            command,
            false,
            &mut self.requests,
        );
        if issued.is_some() {
            self.requests.push(ProtocolRequest::CommitSurface(surface));
            proof {
                assert(self.requests@ =~= old(self).requests@ + spec_issue_requests(
                    old(self).corner_radius_cap,
                    CapabilityKind::CornerRadius,
                    id,
                    surface,
                    command,
                    false,
                ) + seq![ProtocolRequest::CommitSurface(surface)]);
            }
            true
        } else {
            false
        }
    }

    /// Let the compositor auto-hide the surface off an edge. Degrades
    /// to a no-op without the manager.
    #[verifier::rlimit(100)]
    #[verifier::spinoff_prover]
    pub fn set_auto_hide_for_surface(&mut self, id: Id, edge: u32, edge_zone: u32, mode: u32) -> (
    r: bool)
        requires
            old(self).wf(),
            old(self).auto_hide.next_controller < u64::MAX,
        ensures
            final(self).wf(),
            r == (old(self).spec_has_unit(id) && (old(self).auto_hide.manager is Some || old(self).auto_hide.controllers@.contains_key(id.0))),
            !old(self).spec_has_unit(id) ==> *final(self) == *old(self),
            old(self).requests@.is_prefix_of(final(self).requests@),
            ({
                match spec_surface_of(old(self).units@, id) {
                    None => final(self).requests@ == old(self).requests@ && final(self).auto_hide
                        == old(self).auto_hide,
                    Some(surf) => final(self).requests@ == old(self).requests@
                        + spec_issue_requests(
                        old(self).auto_hide,
                        CapabilityKind::AutoHide,
                        id,
                        surf,
                        ControllerCommand::SetAutoHide { edge, edge_zone, mode },
                        false,
                    ) + if spec_cap_active(old(self).auto_hide, id) {
                        seq![ProtocolRequest::CommitSurface(surf)]
                    } else {
                        Seq::<ProtocolRequest>::empty()
                    },
                }
            }),
            final(self).units@ == old(self).units@,
            final(self).message@ == old(self).message@,
    {
        let Some(surface) = self.surface_of(id) else { return false };
        let issued = self.auto_hide.issue(
            CapabilityKind::AutoHide,
            id,
            surface,
            ControllerCommand::SetAutoHide { edge, edge_zone, mode },
            false,
            &mut self.requests,
        );
        if issued.is_some() {
            self.requests.push(ProtocolRequest::CommitSurface(surface));
            proof {
                assert(self.requests@ =~= old(self).requests@ + spec_issue_requests(
                    old(self).auto_hide,
                    CapabilityKind::AutoHide,
                    id,
                    surface,
                    ControllerCommand::SetAutoHide { edge, edge_zone, mode },
                    false,
                ) + seq![ProtocolRequest::CommitSurface(surface)]);
            }
            true
        } else {
            false
        }
    }

    /// Stop compositor-driven auto-hide for the surface. Only an
    /// existing controller is spoken to; none is created for this.
    #[verifier::rlimit(100)]
    #[verifier::spinoff_prover]
    pub fn unset_auto_hide_for_surface(&mut self, id: Id) -> (r: bool)
        requires
            old(self).wf(),
        ensures
            final(self).wf(),
            r == (old(self).spec_has_unit(id) && old(self).auto_hide.controllers@.contains_key(
                id.0,
            )),
            old(self).requests@.is_prefix_of(final(self).requests@),
            ({
                match spec_surface_of(old(self).units@, id) {
                    None => final(self).requests@ == old(self).requests@,
                    Some(surf) => {
                        if old(self).auto_hide.controllers@.contains_key(id.0) {
                            final(self).requests@ == old(self).requests@ + seq![
                                ProtocolRequest::Controller {
                                    capability: CapabilityKind::AutoHide,
                                    controller: old(self).auto_hide.controllers@[id.0],
                                    command: ControllerCommand::UnsetAutoHide,
                                },
                                ProtocolRequest::CommitSurface(surf),
                            ]
                        } else {
                            final(self).requests@ == old(self).requests@
                        }
                    },
                }
            }),
            !r ==> *final(self) == *old(self),
            *final(self) == (WindowState { requests: final(self).requests, ..*old(self) }),
    {
        let Some(surface) = self.surface_of(id) else { return false };
        let existing = self.auto_hide.controller_of(id);
        match existing {
            Some(h) => {
                self.requests.push(
                    ProtocolRequest::Controller {
                        capability: CapabilityKind::AutoHide,
                        controller: h,
                        command: ControllerCommand::UnsetAutoHide,
                    },
                );
                self.requests.push(ProtocolRequest::CommitSurface(surface));
                proof {
                    assert(self.requests@ =~= old(self).requests@ + seq![
                        ProtocolRequest::Controller {
                            capability: CapabilityKind::AutoHide,
                            controller: old(self).auto_hide.controllers@[id.0],
                            command: ControllerCommand::UnsetAutoHide,
                        },
                        ProtocolRequest::CommitSurface(surface),
                    ]);
                }
                true
            },
            None => false,
        }
    }

    /// Tie the surface's visibility to the compositor's home state.
    #[verifier::rlimit(100)]
    #[verifier::spinoff_prover]
    pub fn set_visibility_mode_for_surface(&mut self, id: Id, mode: VisibilityMode) -> (r: bool)
        requires
            old(self).wf(),
            old(self).home_visibility.next_controller < u64::MAX,
        ensures
            final(self).wf(),
            r == (old(self).spec_has_unit(id) && (old(self).home_visibility.manager is Some || old(self).home_visibility.controllers@.contains_key(id.0))),
            old(self).requests@.is_prefix_of(final(self).requests@),
            ({
                match spec_surface_of(old(self).units@, id) {
                    None => final(self).requests@ == old(self).requests@ && final(self).home_visibility
                        == old(self).home_visibility,
                    Some(surf) => final(self).requests@ == old(self).requests@
                        + spec_issue_requests(
                        old(self).home_visibility,
                        CapabilityKind::HomeVisibility,
                        id,
                        surf,
                        ControllerCommand::SetVisibilityMode(mode),
                        false,
                    ) + if spec_cap_active(old(self).home_visibility, id) {
                        Seq::<ProtocolRequest>::empty()
                    } else {
                        Seq::<ProtocolRequest>::empty()
                    },
                }
            }),
            final(self).units@ == old(self).units@,
            final(self).message@ == old(self).message@,
    {
        let Some(surface) = self.surface_of(id) else { return false };
        let issued = self.home_visibility.issue(
            CapabilityKind::HomeVisibility,
            id,
            surface,
            ControllerCommand::SetVisibilityMode(mode),
            false,
            &mut self.requests,
        );
        issued.is_some()
    }

    /// Hide the surface without destroying it; the connection is
    /// flushed so the compositor acts at once.
    #[verifier::rlimit(100)]
    #[verifier::spinoff_prover]
    pub fn hide_surface(&mut self, id: Id) -> (r: bool)
        requires
            old(self).wf(),
            old(self).surface_visibility.next_controller < u64::MAX,
        ensures
            final(self).wf(),
            r == (old(self).spec_has_unit(id) && (old(self).surface_visibility.manager is Some
                || old(self).surface_visibility.controllers@.contains_key(id.0))),
            old(self).requests@.is_prefix_of(final(self).requests@),
            ({
                match spec_surface_of(old(self).units@, id) {
                    None => final(self).requests@ == old(self).requests@ && final(self).surface_visibility
                        == old(self).surface_visibility,
                    Some(surf) => final(self).requests@ == old(self).requests@
                        + spec_issue_requests(
                        old(self).surface_visibility,
                        CapabilityKind::SurfaceVisibility,
                        id,
                        surf,
                        ControllerCommand::SetHidden,
                        false,
                    ) + if spec_cap_active(old(self).surface_visibility, id) {
                        seq![ProtocolRequest::Flush]
                    } else {
                        Seq::<ProtocolRequest>::empty()
                    },
                }
            }),
            final(self).units@ == old(self).units@,
            final(self).message@ == old(self).message@,
    {
        let Some(surface) = self.surface_of(id) else { return false };
        let issued = self.surface_visibility.issue(
            CapabilityKind::SurfaceVisibility,
            id,
            surface,
            ControllerCommand::SetHidden,
            false,
            &mut self.requests,
        );
        if issued.is_some() {
            self.requests.push(ProtocolRequest::Flush);
            proof {
                assert(self.requests@ =~= old(self).requests@ + spec_issue_requests(
                    old(self).surface_visibility,
                    CapabilityKind::SurfaceVisibility,
                    id,
                    surface,
                    ControllerCommand::SetHidden,
                    false,
                ) + seq![ProtocolRequest::Flush]);
            }
            true
        } else {
            false
        }
    }

    /// Show a surface hidden by [`Self::hide_surface`].
    #[verifier::rlimit(100)]
    #[verifier::spinoff_prover]
    pub fn show_surface(&mut self, id: Id) -> (r: bool)
        requires
            old(self).wf(),
            old(self).surface_visibility.next_controller < u64::MAX,
        ensures
            final(self).wf(),
            r == (old(self).spec_has_unit(id) && (old(self).surface_visibility.manager is Some
                || old(self).surface_visibility.controllers@.contains_key(id.0))),
            old(self).requests@.is_prefix_of(final(self).requests@),
            ({
                match spec_surface_of(old(self).units@, id) {
                    None => final(self).requests@ == old(self).requests@ && final(self).surface_visibility
                        == old(self).surface_visibility,
                    Some(surf) => final(self).requests@ == old(self).requests@
                        + spec_issue_requests(
                        old(self).surface_visibility,
                        CapabilityKind::SurfaceVisibility,
                        id,
                        surf,
                        ControllerCommand::SetVisible,
                        false,
                    ) + if spec_cap_active(old(self).surface_visibility, id) {
                        seq![ProtocolRequest::Flush]
                    } else {
                        Seq::<ProtocolRequest>::empty()
                    },
                }
            }),
            final(self).units@ == old(self).units@,
            final(self).message@ == old(self).message@,
    {
        let Some(surface) = self.surface_of(id) else { return false };
        let issued = self.surface_visibility.issue(
            CapabilityKind::SurfaceVisibility,
            id,
            surface,
            ControllerCommand::SetVisible,
            false,
            &mut self.requests,
        );
        if issued.is_some() {
            self.requests.push(ProtocolRequest::Flush);
            proof {
                assert(self.requests@ =~= old(self).requests@ + spec_issue_requests(
                    old(self).surface_visibility,
                    CapabilityKind::SurfaceVisibility,
                    id,
                    surface,
                    ControllerCommand::SetVisible,
                    false,
                ) + seq![ProtocolRequest::Flush]);
            }
            true
        } else {
            false
        }
    }

    /// Start dismiss notifications for the surface: from now on a
    /// click or touch outside its dismiss group is reported.
    #[verifier::rlimit(100)]
    #[verifier::spinoff_prover]
    pub fn arm_dismiss(&mut self, id: Id) -> (r: bool)
        requires
            old(self).wf(),
            old(self).dismiss.next_controller < u64::MAX,
        ensures
            final(self).wf(),
            r == (old(self).spec_has_unit(id) && (old(self).dismiss.manager is Some || old(self).dismiss.controllers@.contains_key(id.0))),
            old(self).requests@.is_prefix_of(final(self).requests@),
            ({
                match spec_surface_of(old(self).units@, id) {
                    None => final(self).requests@ == old(self).requests@ && final(self).dismiss
                        == old(self).dismiss,
                    Some(surf) => final(self).requests@ == old(self).requests@
                        + spec_issue_requests(
                        old(self).dismiss,
                        CapabilityKind::Dismiss,
                        id,
                        surf,
                        ControllerCommand::Arm,
                        false,
                    ) + if spec_cap_active(old(self).dismiss, id) {
                        seq![ProtocolRequest::Flush]
                    } else {
                        Seq::<ProtocolRequest>::empty()
                    },
                }
            }),
            final(self).units@ == old(self).units@,
            final(self).message@ == old(self).message@,
    {
        let Some(surface) = self.surface_of(id) else { return false };
        let issued = self.dismiss.issue(
            CapabilityKind::Dismiss,
            id,
            surface,
            ControllerCommand::Arm,
            false,
            &mut self.requests,
        );
        if issued.is_some() {
            self.requests.push(ProtocolRequest::Flush);
            proof {
                assert(self.requests@ =~= old(self).requests@ + spec_issue_requests(
                    old(self).dismiss,
                    CapabilityKind::Dismiss,
                    id,
                    surface,
                    ControllerCommand::Arm,
                    false,
                ) + seq![ProtocolRequest::Flush]);
            }
            true
        } else {
            false
        }
    }

    /// Stop dismiss notifications for the surface.
    #[verifier::rlimit(100)]
    #[verifier::spinoff_prover]
    pub fn disarm_dismiss(&mut self, id: Id) -> (r: bool)
        requires
            old(self).wf(),
            old(self).dismiss.next_controller < u64::MAX,
        ensures
            final(self).wf(),
            r == (old(self).spec_has_unit(id) && (old(self).dismiss.manager is Some || old(self).dismiss.controllers@.contains_key(id.0))),
            old(self).requests@.is_prefix_of(final(self).requests@),
            ({
                match spec_surface_of(old(self).units@, id) {
                    None => final(self).requests@ == old(self).requests@ && final(self).dismiss
                        == old(self).dismiss,
                    Some(surf) => final(self).requests@ == old(self).requests@
                        + spec_issue_requests(
                        old(self).dismiss,
                        CapabilityKind::Dismiss,
                        id,
                        surf,
                        ControllerCommand::Disarm,
                        false,
                    ) + if spec_cap_active(old(self).dismiss, id) {
                        seq![ProtocolRequest::Flush]
                    } else {
                        Seq::<ProtocolRequest>::empty()
                    },
                }
            }),
            final(self).units@ == old(self).units@,
            final(self).message@ == old(self).message@,
    {
        let Some(surface) = self.surface_of(id) else { return false };
        let issued = self.dismiss.issue(
            CapabilityKind::Dismiss,
            id,
            surface,
            ControllerCommand::Disarm,
            false,
            &mut self.requests,
        );
        if issued.is_some() {
            self.requests.push(ProtocolRequest::Flush);
            proof {
                assert(self.requests@ =~= old(self).requests@ + spec_issue_requests(
                    old(self).dismiss,
                    CapabilityKind::Dismiss,
                    id,
                    surface,
                    ControllerCommand::Disarm,
                    false,
                ) + seq![ProtocolRequest::Flush]);
            }
            true
        } else {
            false
        }
    }

    /// Count another surface into the popup's dismiss group: clicks on
    /// it no longer dismiss the armed popup.
    #[verifier::rlimit(100)]
    #[verifier::spinoff_prover]
    pub fn add_to_dismiss_group(&mut self, popup: Id, group_surface: SurfaceHandle) -> (r: bool)
        requires
            old(self).wf(),
            old(self).dismiss.next_controller < u64::MAX,
        ensures
            final(self).wf(),
            r == (old(self).spec_has_unit(popup) && (old(self).dismiss.manager is Some || old(self).dismiss.controllers@.contains_key(popup.0))),
            old(self).requests@.is_prefix_of(final(self).requests@),
            ({
                match spec_surface_of(old(self).units@, popup) {
                    None => final(self).requests@ == old(self).requests@ && final(self).dismiss
                        == old(self).dismiss,
                    Some(surf) => final(self).requests@ == old(self).requests@
                        + spec_issue_requests(
                        old(self).dismiss,
                        CapabilityKind::Dismiss,
                        popup,
                        surf,
                        ControllerCommand::AddToGroup(group_surface),
                        false,
                    ) + if spec_cap_active(old(self).dismiss, popup) {
                        seq![ProtocolRequest::Flush]
                    } else {
                        Seq::<ProtocolRequest>::empty()
                    },
                }
            }),
            final(self).units@ == old(self).units@,
            final(self).message@ == old(self).message@,
    {
        let Some(surface) = self.surface_of(popup) else { return false };
        let issued = self.dismiss.issue(
            CapabilityKind::Dismiss,
            popup,
            surface,
            ControllerCommand::AddToGroup(group_surface),
            false,
            &mut self.requests,
        );
        if issued.is_some() {
            self.requests.push(ProtocolRequest::Flush);
            proof {
                assert(self.requests@ =~= old(self).requests@ + spec_issue_requests(
                    old(self).dismiss,
                    CapabilityKind::Dismiss,
                    popup,
                    surface,
                    ControllerCommand::AddToGroup(group_surface),
                    false,
                ) + seq![ProtocolRequest::Flush]);
            }
            true
        } else {
            false
        }
    }

    /// Take a surface out of the popup's dismiss group again.
    #[verifier::rlimit(100)]
    #[verifier::spinoff_prover]
    pub fn remove_from_dismiss_group(&mut self, popup: Id, group_surface: SurfaceHandle) -> (r:
        bool)
        requires
            old(self).wf(),
            old(self).dismiss.next_controller < u64::MAX,
        ensures
            final(self).wf(),
            r == (old(self).spec_has_unit(popup) && (old(self).dismiss.manager is Some || old(self).dismiss.controllers@.contains_key(popup.0))),
            old(self).requests@.is_prefix_of(final(self).requests@),
            ({
                match spec_surface_of(old(self).units@, popup) {
                    None => final(self).requests@ == old(self).requests@ && final(self).dismiss
                        == old(self).dismiss,
                    Some(surf) => final(self).requests@ == old(self).requests@
                        + spec_issue_requests(
                        old(self).dismiss,
                        CapabilityKind::Dismiss,
                        popup,
                        surf,
                        ControllerCommand::RemoveFromGroup(group_surface),
                        false,
                    ) + if spec_cap_active(old(self).dismiss, popup) {
                        seq![ProtocolRequest::Flush]
                    } else {
                        Seq::<ProtocolRequest>::empty()
                    },
                }
            }),
            final(self).units@ == old(self).units@,
            final(self).message@ == old(self).message@,
    {
        let Some(surface) = self.surface_of(popup) else { return false };
        let issued = self.dismiss.issue(
            CapabilityKind::Dismiss,
            popup,
            surface,
            ControllerCommand::RemoveFromGroup(group_surface),
            false,
            &mut self.requests,
        );
        if issued.is_some() {
            self.requests.push(ProtocolRequest::Flush);
            proof {
                assert(self.requests@ =~= old(self).requests@ + spec_issue_requests(
                    old(self).dismiss,
                    CapabilityKind::Dismiss,
                    popup,
                    surface,
                    ControllerCommand::RemoveFromGroup(group_surface),
                    false,
                ) + seq![ProtocolRequest::Flush]);
            }
            true
        } else {
            false
        }
    }

    /// Whether a dismiss was requested since last asked; asking clears
    /// the flag.
    pub fn take_dismiss_requested(&mut self) -> (r: bool)
        ensures
            r == old(self).dismiss_requested_flag,
            final(self).dismiss_requested_flag == false,
            *final(self) == (WindowState { dismiss_requested_flag: false, ..*old(self) }),
    {
        let was = self.dismiss_requested_flag;
        self.dismiss_requested_flag = false;
        was
    }

    /// The compositor's last reported home state: true while at home,
    /// with no windows visible.
    pub fn is_home(&self) -> (r: bool)
        ensures
            r == self.is_home,
    {
        self.is_home
    }

    /// Blur what is behind the surface, as configured at start.
    #[verifier::rlimit(100)]
    #[verifier::spinoff_prover]
    pub fn apply_blur_to_surface(&mut self, id: Id, surface: SurfaceHandle)
        requires
            old(self).wf(),
            old(self).blur.next_controller < u64::MAX,
        ensures
            final(self).wf(),
            old(self).requests@.is_prefix_of(final(self).requests@),
            CapabilityState::spec_get_or_create(
                old(self).blur,
                id,
                final(self).blur,
                spec_goc_result(old(self).blur, id),
            ),
            final(self).requests@ == old(self).requests@ + spec_issue_requests(
                old(self).blur,
                CapabilityKind::Blur,
                id,
                surface,
                ControllerCommand::ApplyBlur,
                false,
            ),
            final(self).units@ == old(self).units@,
            final(self).message@ == old(self).message@,
    {
        self.blur.issue(
            CapabilityKind::Blur,
            id,
            surface,
            ControllerCommand::ApplyBlur,
            false,
            &mut self.requests,
        );
    }

    /// Round the surface's corners, as configured at start.
    #[verifier::rlimit(100)]
    #[verifier::spinoff_prover]
    pub fn apply_corner_radius_to_surface(
        &mut self,
        id: Id,
        surface: SurfaceHandle,
        radii: CornerRadius,
    )
        requires
            old(self).wf(),
            old(self).corner_radius_cap.next_controller < u64::MAX,
        ensures
            final(self).wf(),
            old(self).requests@.is_prefix_of(final(self).requests@),
            CapabilityState::spec_get_or_create(
                old(self).corner_radius_cap,
                id,
                final(self).corner_radius_cap,
                spec_goc_result(old(self).corner_radius_cap, id),
            ),
            final(self).requests@ == old(self).requests@ + spec_issue_requests(
                old(self).corner_radius_cap,
                CapabilityKind::CornerRadius,
                id,
                surface,
                ControllerCommand::SetRadius(radii),
                false,
            ),
            final(self).units@ == old(self).units@,
            final(self).message@ == old(self).message@,
    {
        self.corner_radius_cap.issue(
            CapabilityKind::CornerRadius,
            id,
            surface,
            ControllerCommand::SetRadius(radii),
            false,
            &mut self.requests,
        );
    }

    /// Shade the surface, as configured at start.
    #[verifier::rlimit(100)]
    #[verifier::spinoff_prover]
    pub fn apply_shadow_to_surface(&mut self, id: Id, surface: SurfaceHandle)
        requires
            old(self).wf(),
            old(self).shadow.next_controller < u64::MAX,
        ensures
            final(self).wf(),
            old(self).requests@.is_prefix_of(final(self).requests@),
            CapabilityState::spec_get_or_create(
                old(self).shadow,
                id,
                final(self).shadow,
                spec_goc_result(old(self).shadow, id),
            ),
            final(self).requests@ == old(self).requests@ + spec_issue_requests(
                old(self).shadow,
                CapabilityKind::Shadow,
                id,
                surface,
                ControllerCommand::EnableShadow,
                false,
            ),
            final(self).units@ == old(self).units@,
            final(self).message@ == old(self).message@,
    {
        self.shadow.issue(
            CapabilityKind::Shadow,
            id,
            surface,
            ControllerCommand::EnableShadow,
            false,
            &mut self.requests,
        );
    }

    /// Tie the surface's visibility to the home state, as configured
    /// at start.
    #[verifier::rlimit(100)]
    #[verifier::spinoff_prover]
    pub fn apply_home_visibility_to_surface(
        &mut self,
        id: Id,
        surface: SurfaceHandle,
        mode: VisibilityMode,
    )
        requires
            old(self).wf(),
            old(self).home_visibility.next_controller < u64::MAX,
        ensures
            final(self).wf(),
            old(self).requests@.is_prefix_of(final(self).requests@),
            CapabilityState::spec_get_or_create(
                old(self).home_visibility,
                id,
                final(self).home_visibility,
                spec_goc_result(old(self).home_visibility, id),
            ),
            final(self).requests@ == old(self).requests@ + spec_issue_requests(
                old(self).home_visibility,
                CapabilityKind::HomeVisibility,
                id,
                surface,
                ControllerCommand::SetVisibilityMode(mode),
                false,
            ),
            final(self).units@ == old(self).units@,
            final(self).message@ == old(self).message@,
    {
        self.home_visibility.issue(
            CapabilityKind::HomeVisibility,
            id,
            surface,
            ControllerCommand::SetVisibilityMode(mode),
            false,
            &mut self.requests,
        );
    }

    /// Register the surface for voice events. The first registered
    /// receiver becomes the connection's default receiver.
    #[verifier::rlimit(100)]
    #[verifier::spinoff_prover]
    pub fn register_voice_mode_for_surface(&mut self, id: Id, surface: SurfaceHandle)
        requires
            old(self).wf(),
            old(self).voice_mode.next_controller < u64::MAX,
        ensures
            final(self).wf(),
            old(self).requests@.is_prefix_of(final(self).requests@),
            CapabilityState::spec_get_or_create(
                old(self).voice_mode,
                id,
                final(self).voice_mode,
                spec_goc_result(old(self).voice_mode, id),
            ),
            final(self).requests@ == old(self).requests@ + ({
                let pre = old(self).voice_mode;
                if !pre.controllers@.contains_key(id.0) && pre.manager is Some {
                    seq![
                        ProtocolRequest::CreateController {
                            capability: CapabilityKind::VoiceMode,
                            surface,
                            controller: pre.next_controller,
                            is_default: pre.controllers.entries@.len() == 0,
                        },
                    ]
                } else {
                    Seq::<ProtocolRequest>::empty()
                }
            }),
            final(self).units@ == old(self).units@,
            final(self).message@ == old(self).message@,
    {
        let is_default = self.voice_mode.controllers.len() == 0;
        match self.voice_mode.get_or_create_controller(id) {
            Some(c) => {
                if c.fresh {
                    self.requests.push(
                        ProtocolRequest::CreateController {
                            capability: CapabilityKind::VoiceMode,
                            surface,
                            controller: c.handle,
                            is_default,
                        },
                    );
                    proof {
                        assert(self.requests@ =~= old(self).requests@ + seq![
                            ProtocolRequest::CreateController {
                                capability: CapabilityKind::VoiceMode,
                                surface,
                                controller: c.handle,
                                is_default,
                            },
                        ]);
                    }
                } else {
                    proof {
                        assert(self.requests@ =~= old(self).requests@
                            + Seq::<ProtocolRequest>::empty());
                    }
                }
            },
            None => {
                proof {
                    assert(self.requests@ =~= old(self).requests@
                        + Seq::<ProtocolRequest>::empty());
                }
            },
        }
    }
}


/// A light handle on one window, for callers that need the surface
/// and its role objects without the whole unit.
#[derive(Debug, Clone, Copy, PartialEq, Eq)]
pub struct WindowWrapper {
    pub id: Id,
    pub wl_surface: SurfaceHandle,
    pub viewport: Option<crate::shell::ViewportHandle>,
    pub toplevel: Option<crate::shell::XdgToplevelHandle>,
}

impl WindowWrapper {
    /// The identity of the wrapped window.
    pub fn id(&self) -> (r: Id)
        ensures
            r == self.id,
    {
        self.id
    }
}

impl<T> WindowState<T> {
    /// Whether the engine binds to the focused output.
    pub fn is_active(&self) -> (r: bool)
        ensures
            r == (self.start_mode is Active),
    {
        self.start_mode.is_active()
    }

    /// Whether the engine runs as a background program.
    pub fn is_background(&self) -> (r: bool)
        ensures
            r == (self.start_mode is Background),
    {
        self.start_mode.is_background()
    }

    /// Whether the engine keeps one surface per screen.
    pub fn is_allscreens(&self) -> (r: bool)
        ensures
            r == (self.start_mode is AllScreens),
    {
        self.start_mode.is_allscreens()
    }

    /// Whether the engine binds to a named target screen.
    pub fn is_with_target(&self) -> (r: bool)
        ensures
            r == (self.start_mode is TargetScreen),
    {
        self.start_mode.is_with_target()
    }

    /// The bound seat global; negotiation must have succeeded.
    pub fn get_seat(&self) -> (r: u32)
        requires
            self.seat is Some,
        ensures
            r == self.seat->0,
    {
        match self.seat {
            Some(seat) => seat,
            None => 0,
        }
    }

    /// The seat's keyboard object, while one is installed.
    pub fn get_keyboard(&self) -> (r: Option<u32>)
        ensures
            r is Some <==> self.keyboard_state is Some,
            r is Some ==> r->0 == self.keyboard_state->0.keyboard,
    {
        match &self.keyboard_state {
            Some(ks) => Some(ks.keyboard),
            None => None,
        }
    }

    /// The seat's pointer object, while one is installed.
    pub fn get_pointer(&self) -> (r: Option<u32>)
        ensures
            r == self.pointer,
    {
        self.pointer
    }

    /// The seat's touch object, while one is installed.
    pub fn get_touch(&self) -> (r: Option<u32>)
        ensures
            r == self.touch,
    {
        self.touch
    }

    /// Store a virtual-keyboard object for later key injection.
    pub fn set_virtual_keyboard(&mut self, keyboard: u32)
        ensures
            final(self).virtual_keyboard == Some(keyboard),
            *final(self) == (WindowState { virtual_keyboard: Some(keyboard), ..*old(self) }),
    {
        self.virtual_keyboard = Some(keyboard);
    }

    /// The stored virtual-keyboard object, if any.
    pub fn get_virtual_keyboard(&self) -> (r: Option<u32>)
        ensures
            r == self.virtual_keyboard,
    {
        self.virtual_keyboard
    }

    /// Stage a delayed virtual-keyboard key release; the driver arms
    /// the one-shot timer.
    pub fn set_virtual_key_release(&mut self, key_info: VirtualKeyRelease)
        ensures
            final(self).to_be_released_key == Some(key_info),
            *final(self) == (WindowState { to_be_released_key: Some(key_info), ..*old(self) }),
    {
        self.to_be_released_key = Some(key_info);
    }

    /// A light handle on the first window.
    pub fn gen_mainwindow_wrapper(&self) -> (r: WindowWrapper)
        requires
            self.units@.len() > 0,
        ensures
            r.id == self.units@[0].id,
            r.wl_surface == self.units@[0].wl_surface,
    {
        self.main_window().gen_wrapper()
    }
}

impl<T> WindowStateUnit<T> {
    /// A light handle on this unit's window.
    pub fn gen_wrapper(&self) -> (r: WindowWrapper)
        ensures
            r.id == self.id,
            r.wl_surface == self.wl_surface,
            r.viewport == self.viewport,
            self.shell is XdgTopLevel ==> r.toplevel == Some(self.shell->XdgTopLevel_0.0),
            !(self.shell is XdgTopLevel) ==> r.toplevel is None,
    {
        WindowWrapper {
            id: self.id,
            wl_surface: self.wl_surface,
            viewport: self.viewport,
            toplevel: self.shell.top_level(),
        }
    }
}


/// The requests one voice command fans out to: one per registered
/// receiver, in cache order.
pub open spec fn spec_voice_fanout(
    entries: Seq<(u64, u64)>,
    command: ControllerCommand,
) -> Seq<ProtocolRequest> {
    entries.map_values(
        |e: (u64, u64)|
            ProtocolRequest::Controller {
                capability: CapabilityKind::VoiceMode,
                controller: e.1,
                command,
            },
    )
}

/// The requests one text-input object receives when input is allowed
/// or forbidden.
pub open spec fn spec_ime_requests_for(
    h: u32,
    allowed: bool,
    purpose: ImePurpose,
) -> Seq<ProtocolRequest> {
    if allowed {
        seq![
            ProtocolRequest::TextInput { handle: h, command: TextInputCommand::Enable },
            ProtocolRequest::TextInput {
                handle: h,
                command: TextInputCommand::SetContentType {
                    hint: spec_content_type_for_purpose(purpose).0,
                    purpose: spec_content_type_for_purpose(purpose).1,
                },
            },
            ProtocolRequest::TextInput { handle: h, command: TextInputCommand::Commit },
        ]
    } else {
        seq![
            ProtocolRequest::TextInput { handle: h, command: TextInputCommand::Disable },
            ProtocolRequest::TextInput { handle: h, command: TextInputCommand::Commit },
        ]
    }
}

/// The fan-out of an allow/forbid change over all entered text-input
/// objects.
pub open spec fn spec_ime_fanout(
    handles: Seq<u32>,
    allowed: bool,
    purpose: ImePurpose,
) -> Seq<ProtocolRequest>
    decreases handles.len(),
{
    if handles.len() == 0 {
        Seq::empty()
    } else {
        spec_ime_fanout(handles.drop_last(), allowed, purpose) + spec_ime_requests_for(
            handles.last(),
            allowed,
            purpose,
        )
    }
}

/// Scale one physical coordinate into logical space: multiply by the
/// scale base and divide by the unit's fractional scale, saturating at
/// the coordinate range. A non-negative input scales to exactly
/// `v * 120 / scale`, saturated at the top of the range; a negative
/// input mirrors through its magnitude, saturated at the bottom.
pub fn logical_coordinate(v: i32, scale: i64) -> (r: i32)
    requires
        scale >= 1,
    ensures
        v >= 0 ==> ({
            let exact = (v as int) * (crate::unit::SCALE_BASE as int) / (scale as int);
            r == if exact > i32::MAX as int {
                i32::MAX as int
            } else {
                exact
            }
        }),
        v < 0 ==> ({
            let exact = (-(v as int)) * (crate::unit::SCALE_BASE as int) / (scale as int);
            r == if exact > i32::MAX as int {
                i32::MIN as int
            } else {
                -exact
            }
        }),
{
    if v >= 0 {
        proof {
            assert((v as int) * (crate::unit::SCALE_BASE as int) <= 0x8000_0000int * 120)
                by (nonlinear_arith)
                requires
                    0 <= v <= 0x7fff_ffffi32,
            ;
        }
        let wide: u64 = (v as u64) * (crate::unit::SCALE_BASE as u64) / (scale as u64);
        if wide > (i32::MAX as u64) {
            i32::MAX
        } else {
            wide as i32
        }
    } else {
        let magnitude: u64 = (-(v as i64)) as u64;
        proof {
            assert(magnitude <= 0x8000_0000u64);
            assert((magnitude as int) * (crate::unit::SCALE_BASE as int) <= 0x8000_0000int * 120)
                by (nonlinear_arith)
                requires
                    magnitude <= 0x8000_0000u64,
            ;
        }
        let wide: u64 = magnitude * (crate::unit::SCALE_BASE as u64) / (scale as u64);
        if wide > (i32::MAX as u64) {
            i32::MIN
        } else {
            -(wide as i32)
        }
    }
}

impl<T> WindowState<T> {
    /// Fan one controller command out to every registered voice
    /// receiver.
    #[verifier::spinoff_prover]
    fn voice_fanout(&mut self, command: ControllerCommand)
        requires
            old(self).wf(),
        ensures
            final(self).wf(),
            final(self).requests@ == old(self).requests@ + spec_voice_fanout(
                old(self).voice_mode.controllers.entries@,
                command,
            ),
            *final(self) == (WindowState { requests: final(self).requests, ..*old(self) }),
    {
        let ghost entries = self.voice_mode.controllers.entries@;
        let mut queued: Vec<ProtocolRequest> = Vec::new();
        let mut i: usize = 0;
        while i < self.voice_mode.controllers.entries.len()
            invariant
                i <= entries.len(),
                self == old(self),
                self.voice_mode.controllers.entries@ == entries,
                queued@ == spec_voice_fanout(entries.take(i as int), command),
            decreases entries.len() - i,
        {
            let h = self.voice_mode.controllers.entries[i].1;
            queued.push(
                ProtocolRequest::Controller {
                    capability: CapabilityKind::VoiceMode,
                    controller: h,
                    command,
                },
            );
            proof {
                assert(queued@ =~= spec_voice_fanout(entries.take(i + 1), command));
            }
            i = i + 1;
        }
        proof {
            assert(entries.take(entries.len() as int) =~= entries);
        }
        self.requests.append(&mut queued);
    }

    /// Send the audio level to the compositor for orb visualization;
    /// levels above 1000 are clamped.
    pub fn send_voice_audio_level(&mut self, level: u32)
        requires
            old(self).wf(),
        ensures
            final(self).wf(),
            final(self).requests@ == old(self).requests@ + spec_voice_fanout(
                old(self).voice_mode.controllers.entries@,
                ControllerCommand::SetAudioLevel(
                    if level <= 1000 {
                        level
                    } else {
                        1000
                    },
                ),
            ),
            *final(self) == (WindowState { requests: final(self).requests, ..*old(self) }),
    {
        let clamped = if level <= 1000 {
            level
        } else {
            1000
        };
        self.voice_fanout(ControllerCommand::SetAudioLevel(clamped));
    }

    /// Acknowledge a will-stop event: freeze the orb for processing,
    /// or let it hide.
    pub fn voice_ack_stop(&mut self, serial: u32, freeze: bool)
        requires
            old(self).wf(),
        ensures
            final(self).wf(),
            final(self).requests@ == old(self).requests@ + spec_voice_fanout(
                old(self).voice_mode.controllers.entries@,
                ControllerCommand::AckStop { serial, freeze },
            ),
            *final(self) == (WindowState { requests: final(self).requests, ..*old(self) }),
    {
        self.voice_fanout(ControllerCommand::AckStop { serial, freeze });
    }

    /// Hide the frozen voice orb without spawning a window.
    pub fn voice_dismiss(&mut self)
        requires
            old(self).wf(),
        ensures
            final(self).wf(),
            final(self).requests@ == old(self).requests@ + spec_voice_fanout(
                old(self).voice_mode.controllers.entries@,
                ControllerCommand::VoiceDismiss,
            ),
            *final(self) == (WindowState { requests: final(self).requests, ..*old(self) }),
    {
        self.voice_fanout(ControllerCommand::VoiceDismiss);
    }

    /// A voice event arrived on a receiver: the active flag follows
    /// start/stop/cancel, a will-stop event is acknowledged at once
    /// with the cached flag, and the event is stored and queued for
    /// the caller.
    #[verifier::rlimit(100)]
    #[verifier::spinoff_prover]
    pub fn on_voice_event(&mut self, event: VoiceModeEvent)
        requires
            old(self).wf(),
        ensures
            final(self).wf(),
            final(self).voice_active == match event {
                VoiceModeEvent::Started { .. } => true,
                VoiceModeEvent::Stopped | VoiceModeEvent::Cancelled => false,
                _ => old(self).voice_active,
            },
            event is WillStop ==> final(self).requests@ == old(self).requests@
                + spec_voice_fanout(
                old(self).voice_mode.controllers.entries@,
                ControllerCommand::AckStop {
                    serial: event->WillStop_serial,
                    freeze: old(self).voice_active,
                },
            ),
            !(event is WillStop) ==> final(self).requests@ == old(self).requests@,
            final(self).voice_mode_events@ == old(self).voice_mode_events@.push(event),
            final(self).message@ == old(self).message@.push(
                (None::<Id>, DispatchMessage::VoiceMode(event)),
            ),
            final(self).units@ == old(self).units@,
    {
        match event {
            VoiceModeEvent::Started { .. } => {
                self.voice_active = true;
            },
            VoiceModeEvent::Stopped => {
                self.voice_active = false;
            },
            VoiceModeEvent::Cancelled => {
                self.voice_active = false;
            },
            VoiceModeEvent::WillStop { serial } => {
                let freeze = self.voice_active;
                self.voice_fanout(ControllerCommand::AckStop { serial, freeze });
            },
            _ => {},
        }
        self.voice_mode_events.push(event);
        self.message.push((None, DispatchMessage::VoiceMode(event)));
    }

    /// Allow or forbid input methods: every entered text-input object
    /// is enabled with the current purpose, or disabled, and
    /// committed. State is pushed eagerly; it takes effect on the
    /// protocol's commit.
    #[verifier::spinoff_prover]
    pub fn set_ime_allowed(&mut self, ime_allowed: bool)
        requires
            old(self).wf(),
        ensures
            final(self).wf(),
            final(self).ime_allowed == ime_allowed,
            final(self).requests@ == old(self).requests@ + spec_ime_fanout(
                old(self).text_inputs@,
                ime_allowed,
                old(self).ime_purpose,
            ),
            final(self).units@ == old(self).units@,
            final(self).message@ == old(self).message@,
            final(self).text_inputs@ == old(self).text_inputs@,
            final(self).ime_purpose == old(self).ime_purpose,
    {
        self.ime_allowed = ime_allowed;
        let ghost handles = self.text_inputs@;
        let purpose = self.ime_purpose;
        let mut queued: Vec<ProtocolRequest> = Vec::new();
        let mut i: usize = 0;
        while i < self.text_inputs.len()
            invariant
                i <= handles.len(),
                self.text_inputs@ == handles,
                purpose == self.ime_purpose,
                queued@ == spec_ime_fanout(handles.take(i as int), ime_allowed, purpose),
            decreases handles.len() - i,
        {
            let h = self.text_inputs[i];
            if ime_allowed {
                let (hint, purpose_code) = content_type_for_purpose(purpose);
                queued.push(
                    ProtocolRequest::TextInput { handle: h, command: TextInputCommand::Enable },
                );
                queued.push(
                    ProtocolRequest::TextInput {
                        handle: h,
                        command: TextInputCommand::SetContentType {
                            hint,
                            purpose: purpose_code,
                        },
                    },
                );
                queued.push(
                    ProtocolRequest::TextInput { handle: h, command: TextInputCommand::Commit },
                );
            } else {
                queued.push(
                    ProtocolRequest::TextInput { handle: h, command: TextInputCommand::Disable },
                );
                queued.push(
                    ProtocolRequest::TextInput { handle: h, command: TextInputCommand::Commit },
                );
            }
            proof {
                assert(handles.take(i + 1).drop_last() =~= handles.take(i as int));
                assert(spec_ime_fanout(handles.take(i + 1), ime_allowed, purpose)
                    == spec_ime_fanout(handles.take(i as int), ime_allowed, purpose)
                    + spec_ime_requests_for(handles[i as int], ime_allowed, purpose));
                assert(queued@ =~= spec_ime_fanout(handles.take(i + 1), ime_allowed, purpose));
            }
            i = i + 1;
        }
        proof {
            assert(handles.take(handles.len() as int) =~= handles);
        }
        self.requests.append(&mut queued);
    }

    /// Change the input purpose: every entered text-input object gets
    /// the new content type and is committed.
    #[verifier::spinoff_prover]
    pub fn set_ime_purpose(&mut self, purpose: ImePurpose)
        requires
            old(self).wf(),
        ensures
            final(self).wf(),
            final(self).ime_purpose == purpose,
            old(self).requests@.is_prefix_of(final(self).requests@),
            final(self).units@ == old(self).units@,
            final(self).message@ == old(self).message@,
            final(self).text_inputs@ == old(self).text_inputs@,
    {
        let (hint, purpose_code) = content_type_for_purpose(purpose);
        let mut queued: Vec<ProtocolRequest> = Vec::new();
        let mut i: usize = 0;
        while i < self.text_inputs.len()
            invariant
                self == old(self),
            decreases self.text_inputs@.len() - i,
        {
            let h = self.text_inputs[i];
            queued.push(
                ProtocolRequest::TextInput {
                    handle: h,
                    command: TextInputCommand::SetContentType { hint, purpose: purpose_code },
                },
            );
            queued.push(
                ProtocolRequest::TextInput { handle: h, command: TextInputCommand::Commit },
            );
            i = i + 1;
        }
        self.ime_purpose = purpose;
        self.requests.append(&mut queued);
    }

    /// Push the cursor rectangle to every entered text-input object,
    /// scaled from physical to logical coordinates by the unit's
    /// fractional scale. A no-op while input methods are forbidden or
    /// the unit is unknown.
    #[verifier::spinoff_prover]
    pub fn set_ime_cursor_area(&mut self, x: i32, y: i32, width: i32, height: i32, id: Id)
        requires
            old(self).wf(),
        ensures
            final(self).wf(),
            old(self).requests@.is_prefix_of(final(self).requests@),
            !old(self).ime_allowed ==> *final(self) == *old(self),
            final(self).units@ == old(self).units@,
            final(self).message@ == old(self).message@,
            final(self).text_inputs@ == old(self).text_inputs@,
    {
        if !self.ime_allowed {
            return ;
        }
        let Some(i) = self.unit_index_of(id) else { return };
        let scale = self.units[i].scale;
        let divisor: i64 = if scale == 0 {
            crate::unit::SCALE_BASE as i64
        } else {
            scale as i64
        };
        let lx = logical_coordinate(x, divisor);
        let ly = logical_coordinate(y, divisor);
        let lw = logical_coordinate(width, divisor);
        let lh = logical_coordinate(height, divisor);
        let mut queued: Vec<ProtocolRequest> = Vec::new();
        let mut k: usize = 0;
        while k < self.text_inputs.len()
            invariant
                self == old(self),
            decreases self.text_inputs@.len() - k,
        {
            let h = self.text_inputs[k];
            queued.push(
                ProtocolRequest::TextInput {
                    handle: h,
                    command: TextInputCommand::SetCursorRectangle {
                        x: lx,
                        y: ly,
                        width: lw,
                        height: lh,
                    },
                },
            );
            queued.push(
                ProtocolRequest::TextInput { handle: h, command: TextInputCommand::Commit },
            );
            k = k + 1;
        }
        self.requests.append(&mut queued);
    }
}


impl<T> WindowState<T> {
    /// A finger went down on a surface: its routing slot binds to
    /// that surface, the surface gains focus (emitting a focus event
    /// on a change), and the caller hears a touch-down on the
    /// surface's unit. The pointer slot and every other touch id keep
    /// their slots.
    #[verifier::rlimit(100)]
    #[verifier::spinoff_prover]
    pub fn on_touch_down(&mut self, serial: u32, time: u32, touch_id: i32, surface: SurfaceHandle, x: i32, y: i32)
        requires
            old(self).wf(),
        ensures
            final(self).wf(),
            final(self).units@ == old(self).units@,
            final(self).requests@ == old(self).requests@,
            final(self).active_surfaces.pointer == old(self).active_surfaces.pointer,
            final(self).active_surfaces.touch@ =~= old(self).active_surfaces.touch@.insert(
                crate::input::spec_touch_key(touch_id),
                crate::input::TouchPoint {
                    touch_id,
                    target: crate::input::ActiveTarget {
                        surface,
                        unit: spec_surface_unit(old(self).units@, surface),
                    },
                    position: crate::input::FingerPosition { x, y },
                },
            ),
            final(self).current_surface == Some(surface),
            final(self).message@ == old(self).message@ + spec_focus_messages(
                old(self).units@,
                old(self).current_surface,
                Some(surface),
            ) + seq![
                (
                    spec_surface_unit(old(self).units@, surface),
                    DispatchMessage::TouchDown { serial, time, id: touch_id, x, y },
                ),
            ],
    {
        let unit = self.get_id_from_surface(surface);
        self.active_surfaces.touch_down(
            touch_id,
            crate::input::ActiveTarget { surface, unit },
            crate::input::FingerPosition { x, y },
        );
        self.update_current_surface(Some(surface));
        self.message.push(
            (unit, DispatchMessage::TouchDown { serial, time, id: touch_id, x, y }),
        );
    }

    /// A finger went up: its slot is dropped and the caller hears a
    /// touch-up at the finger's last position, on the unit its slot
    /// named — or untagged at the origin for a finger that was never
    /// down. The pointer slot and every other touch id keep theirs.
    #[verifier::rlimit(100)]
    #[verifier::spinoff_prover]
    pub fn on_touch_up(&mut self, serial: u32, time: u32, touch_id: i32)
        requires
            old(self).wf(),
        ensures
            final(self).wf(),
            final(self).units@ == old(self).units@,
            final(self).requests@ == old(self).requests@,
            final(self).active_surfaces.touch@ =~= old(self).active_surfaces.touch@.remove(
                crate::input::spec_touch_key(touch_id),
            ),
            final(self).active_surfaces.pointer == old(self).active_surfaces.pointer,
            final(self).message@ == old(self).message@.push(
                ({
                    let key = crate::input::spec_touch_key(touch_id);
                    if old(self).active_surfaces.touch@.contains_key(key) {
                        let record = old(self).active_surfaces.touch@[key];
                        (
                            record.target.unit,
                            DispatchMessage::TouchUp {
                                serial,
                                time,
                                id: touch_id,
                                x: record.position.x,
                                y: record.position.y,
                            },
                        )
                    } else {
                        (
                            None::<Id>,
                            DispatchMessage::TouchUp { serial, time, id: touch_id, x: 0, y: 0 },
                        )
                    }
                }),
            ),
    {
        let record = self.active_surfaces.touch_up(touch_id);
        let (unit, x, y) = match record {
            Some(r) => (r.target.unit, r.position.x, r.position.y),
            None => (None, 0, 0),
        };
        self.message.push((unit, DispatchMessage::TouchUp { serial, time, id: touch_id, x, y }));
    }

    /// A finger moved: its position is updated and the caller hears a
    /// touch-motion on the unit its slot names. The pointer slot and
    /// every other touch id keep theirs.
    #[verifier::rlimit(100)]
    #[verifier::spinoff_prover]
    pub fn on_touch_motion(&mut self, time: u32, touch_id: i32, x: i32, y: i32)
        requires
            old(self).wf(),
        ensures
            final(self).wf(),
            final(self).units@ == old(self).units@,
            final(self).requests@ == old(self).requests@,
            final(self).active_surfaces.pointer == old(self).active_surfaces.pointer,
            ({
                let key = crate::input::spec_touch_key(touch_id);
                if old(self).active_surfaces.touch@.contains_key(key) {
                    let record = old(self).active_surfaces.touch@[key];
                    final(self).active_surfaces.touch@ =~= old(self).active_surfaces.touch@.insert(
                        key,
                        crate::input::TouchPoint {
                            touch_id,
                            target: record.target,
                            position: crate::input::FingerPosition { x, y },
                        },
                    ) && final(self).message@ == old(self).message@.push(
                        (
                            record.target.unit,
                            DispatchMessage::TouchMotion { time, id: touch_id, x, y },
                        ),
                    )
                } else {
                    final(self).active_surfaces.touch@ =~= old(self).active_surfaces.touch@
                        && final(self).message@ == old(self).message@.push(
                        (None::<Id>, DispatchMessage::TouchMotion { time, id: touch_id, x, y }),
                    )
                }
            }),
    {
        let target = self.active_surfaces.touch_motion(
            touch_id,
            crate::input::FingerPosition { x, y },
        );
        let unit = match target {
            Some(t) => t.unit,
            None => None,
        };
        self.message.push((unit, DispatchMessage::TouchMotion { time, id: touch_id, x, y }));
    }

    /// The touch session was cancelled: every touch slot is dropped
    /// and reported with its id and last known position, tagged with
    /// its unit; the pointer keeps its slot.
    #[verifier::rlimit(100)]
    #[verifier::spinoff_prover]
    pub fn on_touch_cancel(&mut self)
        requires
            old(self).wf(),
        ensures
            final(self).wf(),
            final(self).units@ == old(self).units@,
            final(self).requests@ == old(self).requests@,
            final(self).active_surfaces.touch@ =~= Map::<u64, crate::input::TouchPoint>::empty(),
            final(self).active_surfaces.pointer == old(self).active_surfaces.pointer,
            final(self).message@ == old(self).message@ + spec_cancel_messages(
                old(self).active_surfaces.touch.entries@,
            ),
    {
        let records = self.active_surfaces.touch_cancel();
        let ghost mid = *self;
        let mut queued: Vec<(Option<Id>, DispatchMessage)> = Vec::new();
        let mut i: usize = 0;
        while i < records.len()
            invariant
                *self == mid,
                i <= records@.len(),
                queued@ == spec_cancel_messages(records@.take(i as int)),
            decreases records@.len() - i,
        {
            let (_, record) = records[i];
            queued.push(
                (
                    record.target.unit,
                    DispatchMessage::TouchCancel {
                        id: record.touch_id,
                        x: record.position.x,
                        y: record.position.y,
                    },
                ),
            );
            proof {
                assert(queued@ =~= spec_cancel_messages(records@.take(i + 1)));
            }
            i = i + 1;
        }
        proof {
            assert(records@.take(records@.len() as int) =~= records@);
        }
        self.message.append(&mut queued);
    }

    /// The pointer entered a surface: its slot binds, the enter
    /// serial is remembered, and the caller hears a mouse-enter.
    #[verifier::spinoff_prover]
    pub fn on_pointer_enter(&mut self, pointer: u32, serial: u32, surface: SurfaceHandle, surface_x: i32, surface_y: i32)
        requires
            old(self).wf(),
        ensures
            final(self).wf(),
            final(self).units@ == old(self).units@,
            final(self).requests@ == old(self).requests@,
            final(self).active_surfaces.pointer is Some,
            final(self).active_surfaces.pointer->0.surface == surface,
            final(self).active_surfaces.touch@ =~= old(self).active_surfaces.touch@,
            final(self).enter_serial == Some(serial),
            final(self).message@.len() == old(self).message@.len() + 1,
            final(self).message@.last().1 == (DispatchMessage::MouseEnter {
                pointer,
                serial,
                surface_x,
                surface_y,
            }),
    {
        let unit = self.get_id_from_surface(surface);
        self.active_surfaces.pointer_enter(crate::input::ActiveTarget { surface, unit });
        self.enter_serial = Some(serial);
        self.message.push(
            (unit, DispatchMessage::MouseEnter { pointer, serial, surface_x, surface_y }),
        );
    }

    /// The pointer left its surface: the slot is dropped and the
    /// caller hears a mouse-leave on the unit it named.
    #[verifier::spinoff_prover]
    pub fn on_pointer_leave(&mut self)
        requires
            old(self).wf(),
        ensures
            final(self).wf(),
            final(self).units@ == old(self).units@,
            final(self).requests@ == old(self).requests@,
            final(self).active_surfaces.pointer is None,
            final(self).active_surfaces.touch@ =~= old(self).active_surfaces.touch@,
            final(self).message@.len() == old(self).message@.len() + 1,
            final(self).message@.last() == (
                match old(self).active_surfaces.pointer {
                    Some(t) => t.unit,
                    None => None,
                },
                DispatchMessage::MouseLeave,
            ),
    {
        let target = self.active_surfaces.pointer_leave();
        let unit = match target {
            Some(t) => t.unit,
            None => None,
        };
        self.message.push((unit, DispatchMessage::MouseLeave));
    }

    /// A pointer button changed state: the hovered surface gains
    /// focus and the caller hears the button event on its unit.
    #[verifier::spinoff_prover]
    pub fn on_pointer_button(&mut self, state_code: u32, serial: u32, button: u32, time: u32)
        requires
            old(self).wf(),
        ensures
            final(self).wf(),
            final(self).units@ == old(self).units@,
            final(self).requests@ == old(self).requests@,
            final(self).active_surfaces.pointer == old(self).active_surfaces.pointer,
            final(self).active_surfaces.touch@ =~= old(self).active_surfaces.touch@,
            final(self).message@ == old(self).message@ + spec_focus_messages(
                old(self).units@,
                old(self).current_surface,
                match old(self).active_surfaces.pointer {
                    Some(t) => Some(t.surface),
                    None => None,
                },
            ) + seq![
                (
                    match old(self).active_surfaces.pointer {
                        Some(t) => t.unit,
                        None => None::<Id>,
                    },
                    DispatchMessage::MouseButton { state: state_code, serial, button, time },
                ),
            ],
    {
        let target = self.active_surfaces.pointer_target();
        let (mouse_surface, unit) = match target {
            Some(t) => (Some(t.surface), t.unit),
            None => (None, None),
        };
        self.update_current_surface(mouse_surface);
        self.message.push(
            (unit, DispatchMessage::MouseButton { state: state_code, serial, button, time }),
        );
    }

    /// The pointer moved: the caller hears a mouse-motion on the unit
    /// the pointer occupies.
    #[verifier::spinoff_prover]
    pub fn on_pointer_motion(&mut self, time: u32, surface_x: i32, surface_y: i32)
        requires
            old(self).wf(),
        ensures
            final(self).wf(),
            final(self).units@ == old(self).units@,
            final(self).requests@ == old(self).requests@,
            final(self).message@.len() == old(self).message@.len() + 1,
            final(self).message@.last() == (
                match old(self).active_surfaces.pointer {
                    Some(t) => t.unit,
                    None => None,
                },
                DispatchMessage::MouseMotion { time, surface_x, surface_y },
            ),
    {
        let target = self.active_surfaces.pointer_target();
        let unit = match target {
            Some(t) => t.unit,
            None => None,
        };
        self.message.push((unit, DispatchMessage::MouseMotion { time, surface_x, surface_y }));
    }

    /// The compositor configured a layer surface: the matching unit
    /// takes the size and will redraw on the next frame. Returns
    /// whether a unit matched; the I/O shell acknowledges either way.
    #[verifier::spinoff_prover]
    pub fn on_layer_configure(&mut self, shell: crate::shell::LayerSurfaceHandle, width: u32, height: u32) -> (r: bool)
        ensures
            final(self).units@.len() == old(self).units@.len(),
            final(self).requests@ == old(self).requests@,
            final(self).message@ == old(self).message@,
            r == spec_has_layer_shell(old(self).units@, shell),
            r ==> exists|i: int|
                0 <= i < old(self).units@.len() && #[trigger] old(self).units@[i].shell
                    is LayerShell && old(self).units@[i].shell->LayerShell_0 == shell && final(self).units@ == old(self).units@.update(
                    i,
                    (WindowStateUnit {
                        size: (width, height),
                        request_flag: crate::unit::RequestFlag {
                            refresh: old(self).units@[i].request_flag.refresh.spec_merged(
                                crate::refresh::RefreshRequest::NextFrame,
                            ),
                            ..old(self).units@[i].request_flag
                        },
                        ..old(self).units@[i]
                    }),
                ),
            !r ==> final(self).units@ == old(self).units@,
    {
        let mut i: usize = 0;
        while i < self.units.len()
            invariant
                i <= self.units@.len(),
                self == old(self),
                forall|j: int|
                    0 <= j < i ==> !((#[trigger] self.units@[j]).shell is LayerShell
                        && self.units@[j].shell->LayerShell_0 == shell),
            decreases self.units@.len() - i,
        {
            if self.units[i].shell.matches_layer_surface(shell) {
                self.units[i].size = (width, height);
                self.units[i].request_refresh(crate::refresh::RefreshRequest::NextFrame);
                return true;
            }
            i = i + 1;
        }
        false
    }

    /// The compositor closed a layer surface: the matching unit is
    /// flagged to close; the driver removes it on its next tick.
    #[verifier::spinoff_prover]
    pub fn on_layer_closed(&mut self, shell: crate::shell::LayerSurfaceHandle) -> (r: bool)
        ensures
            final(self).units@.len() == old(self).units@.len(),
            final(self).requests@ == old(self).requests@,
            final(self).message@ == old(self).message@,
            r == spec_has_layer_shell(old(self).units@, shell),
            r ==> exists|i: int|
                0 <= i < old(self).units@.len() && #[trigger] old(self).units@[i].shell
                    is LayerShell && old(self).units@[i].shell->LayerShell_0 == shell && final(self).units@ == old(self).units@.update(
                    i,
                    (WindowStateUnit {
                        request_flag: crate::unit::RequestFlag {
                            close: true,
                            ..old(self).units@[i].request_flag
                        },
                        ..old(self).units@[i]
                    }),
                ),
            !r ==> final(self).units@ == old(self).units@,
    {
        let mut i: usize = 0;
        while i < self.units.len()
            invariant
                i <= self.units@.len(),
                self == old(self),
                forall|j: int|
                    0 <= j < i ==> !((#[trigger] self.units@[j]).shell is LayerShell
                        && self.units@[j].shell->LayerShell_0 == shell),
            decreases self.units@.len() - i,
        {
            if self.units[i].shell.matches_layer_surface(shell) {
                self.units[i].request_close();
                return true;
            }
            i = i + 1;
        }
        false
    }

    /// The compositor advertised a new fractional scale: the matching
    /// unit takes it, will redraw, and the caller hears of the scale.
    #[verifier::spinoff_prover]
    pub fn on_preferred_scale(&mut self, fractional_scale: crate::shell::FractionalScaleHandle, scale: u32) -> (r: bool)
        ensures
            final(self).units@.len() == old(self).units@.len(),
            final(self).requests@ == old(self).requests@,
            r == spec_has_scale_listener(old(self).units@, fractional_scale),
            r ==> exists|i: int|
                0 <= i < old(self).units@.len() && #[trigger] old(self).units@[i].fractional_scale
                    == Some(fractional_scale) && final(self).units@[i].scale == scale && final(self).message@ == old(self).message@.push(
                    (
                        Some(old(self).units@[i].id),
                        DispatchMessage::PreferredScale { scale_u32: scale },
                    ),
                ),
            !r ==> final(self).units@ == old(self).units@ && final(self).message@ == old(self).message@,
    {
        let mut i: usize = 0;
        while i < self.units.len()
            invariant
                i <= self.units@.len(),
                self == old(self),
                forall|j: int|
                    0 <= j < i ==> (#[trigger] self.units@[j]).fractional_scale != Some(
                        fractional_scale,
                    ),
            decreases self.units@.len() - i,
        {
            let matches_listener = match self.units[i].fractional_scale {
                Some(h) => h == fractional_scale,
                None => false,
            };
            if matches_listener {
                self.units[i].scale = scale;
                self.units[i].request_refresh(crate::refresh::RefreshRequest::NextFrame);
                let unit_id = self.units[i].id;
                self.message.push(
                    (Some(unit_id), DispatchMessage::PreferredScale { scale_u32: scale }),
                );
                return true;
            }
            i = i + 1;
        }
        false
    }

    /// Hand the queued messages to the driver, oldest first, leaving
    /// the queue empty.
    pub fn drain_messages(&mut self) -> (r: Vec<(Option<Id>, DispatchMessage)>)
        ensures
            r@ == old(self).message@,
            final(self).message@.len() == 0,
            *final(self) == (WindowState { message: final(self).message, ..*old(self) }),
    {
        let mut drained: Vec<(Option<Id>, DispatchMessage)> = Vec::new();
        core::mem::swap(&mut drained, &mut self.message);
        drained
    }

    /// Hand the queued protocol requests to the I/O shell, oldest
    /// first, leaving the queue empty.
    pub fn drain_requests(&mut self) -> (r: Vec<ProtocolRequest>)
        ensures
            r@ == old(self).requests@,
            final(self).requests@.len() == 0,
            *final(self) == (WindowState { requests: final(self).requests, ..*old(self) }),
    {
        let mut drained: Vec<ProtocolRequest> = Vec::new();
        core::mem::swap(&mut drained, &mut self.requests);
        drained
    }

    /// Hand the caller's queued control values to the driver, oldest
    /// first, leaving the queue empty.
    pub fn drain_return_data(&mut self) -> (r: Vec<ReturnData<T>>)
        ensures
            r@ == old(self).return_data@,
            final(self).return_data@.len() == 0,
            *final(self) == (WindowState { return_data: final(self).return_data, ..*old(self) }),
    {
        let mut drained: Vec<ReturnData<T>> = Vec::new();
        core::mem::swap(&mut drained, &mut self.return_data);
        drained
    }

    /// Hand over the timer tokens whose removal was deferred; the
    /// driver removes them at the start of its tick, never from
    /// inside their own callbacks.
    pub fn take_removal_tokens(&mut self) -> (r: Vec<TimerToken>)
        ensures
            r@ == old(self).to_remove_tokens@,
            final(self).to_remove_tokens@.len() == 0,
            *final(self) == (WindowState {
                to_remove_tokens: final(self).to_remove_tokens,
                ..*old(self)
            }),
    {
        let mut drained: Vec<TimerToken> = Vec::new();
        core::mem::swap(&mut drained, &mut self.to_remove_tokens);
        drained
    }

    /// Hand over the identities of units closed because their output
    /// disappeared; the caller is told once per identity.
    pub fn take_closed_ids(&mut self) -> (r: Vec<Id>)
        ensures
            r@ == old(self).closed_ids@,
            final(self).closed_ids@.len() == 0,
            *final(self) == (WindowState { closed_ids: final(self).closed_ids, ..*old(self) }),
    {
        let mut drained: Vec<Id> = Vec::new();
        core::mem::swap(&mut drained, &mut self.closed_ids);
        drained
    }

    /// Hand over the staged keyboard-repeat arm, if any.
    pub fn take_repeat_delay(&mut self) -> (r: Option<KeyboardTokenState>)
        ensures
            r == old(self).repeat_delay,
            final(self).repeat_delay is None,
            *final(self) == (WindowState { repeat_delay: None, ..*old(self) }),
    {
        self.repeat_delay.take()
    }

    /// Hand over the staged virtual-keyboard release, if any.
    pub fn take_virtual_key_release(&mut self) -> (r: Option<VirtualKeyRelease>)
        ensures
            r == old(self).to_be_released_key,
            final(self).to_be_released_key is None,
            *final(self) == (WindowState { to_be_released_key: None, ..*old(self) }),
    {
        self.to_be_released_key.take()
    }

    /// The identities of the units flagged to close, in unit order;
    /// the driver delivers a closed event for each and removes it.
    #[verifier::spinoff_prover]
    pub fn units_to_close(&self) -> (r: Vec<Id>)
        ensures
            r@ == spec_close_ids(self.units@),
    {
        let mut ids: Vec<Id> = Vec::new();
        let mut i: usize = 0;
        while i < self.units.len()
            invariant
                i <= self.units@.len(),
                ids@ == spec_close_ids(self.units@.take(i as int)),
            decreases self.units@.len() - i,
        {
            proof {
                assert(self.units@.take(i + 1).drop_last() =~= self.units@.take(i as int));
            }
            if self.units[i].request_flag.close {
                let unit_id = self.units[i].id;
                ids.push(unit_id);
            }
            proof {
                assert(ids@ =~= spec_close_ids(self.units@.take(i + 1)));
            }
            i = i + 1;
        }
        proof {
            assert(self.units@.take(self.units@.len() as int) =~= self.units@);
        }
        ids
    }

    /// Try to take the unit's present slot at time `now` for the
    /// driver's redraw sweep. Succeeds exactly when the unit exists,
    /// has non-zero size, its pending refresh is due and its slot is
    /// free; the returned size, creation flag and scale parameterize
    /// the redraw.
    #[verifier::rlimit(100)]
    #[verifier::spinoff_prover]
    pub fn try_take_present_slot(&mut self, id: Id, now: u64) -> (r: Option<(u32, u32, bool, u32)>)
        ensures
            final(self).requests@ == old(self).requests@,
            final(self).message@ == old(self).message@,
            ({
                let oi = spec_unit_index_of(old(self).units@, id);
                match oi {
                    None => r is None && final(self).units@ == old(self).units@,
                    Some(i) => {
                        let u = old(self).units@[i];
                        if u.size.0 > 0 && u.size.1 > 0 && u.request_flag.refresh.spec_due(now)
                            && u.present_available_state
                            == crate::present::PresentAvailableState::Available {
                            r == Some((u.size.0, u.size.1, u.becreated, u.scale)) && final(self).units@ == old(self).units@.update(
                                i,
                                (WindowStateUnit {
                                    request_flag: crate::unit::RequestFlag {
                                        refresh: crate::refresh::RefreshRequest::Wait,
                                        ..u.request_flag
                                    },
                                    present_available_state:
                                        crate::present::PresentAvailableState::Taken,
                                    ..u
                                }),
                            )
                        } else {
                            r is None && final(self).units@ == old(self).units@
                        }
                    },
                }
            }),
            *final(self) == (WindowState { units: final(self).units, ..*old(self) }),
    {
        let Some(i) = self.unit_index_of(id) else { return None };
        let (width, height) = self.units[i].size;
        if width == 0 || height == 0 {
            return None;
        }
        let took = self.units[i].take_present_slot(now);
        proof {
            if !took {
                assert(self.units@ =~= old(self).units@);
            }
        }
        if took {
            let becreated = self.units[i].becreated;
            let scale = self.units[i].scale;
            Some((width, height, becreated, scale))
        } else {
            None
        }
    }

    /// Remember the buffer attached to the unit during its first
    /// redraw.
    pub fn set_unit_buffer(&mut self, id: Id, buffer: crate::shell::BufferHandle)
        ensures
            final(self).units@.len() == old(self).units@.len(),
            final(self).requests@ == old(self).requests@,
            final(self).message@ == old(self).message@,
            old(self).spec_has_unit(id) ==> exists|i: int|
                0 <= i < old(self).units@.len() && #[trigger] old(self).units@[i].id == id && final(self).units@ == old(self).units@.update(
                    i,
                    (WindowStateUnit { buffer: Some(buffer), ..old(self).units@[i] }),
                ),
            !old(self).spec_has_unit(id) ==> final(self).units@ == old(self).units@,
    {
        if let Some(i) = self.unit_index_of(id) {
            self.units[i].buffer = Some(buffer);
        }
    }
}


impl<T> WindowState<T> {
    /// The compositor's home state changed: remember it and tell the
    /// caller, untagged — the mode is compositor-wide.
    pub fn home_state_changed(&mut self, is_home: bool)
        ensures
            final(self).is_home == is_home,
            final(self).message@ == old(self).message@.push(
                (None::<Id>, DispatchMessage::HomeStateChanged(is_home)),
            ),
            *final(self) == (WindowState {
                is_home,
                message: final(self).message,
                ..*old(self)
            }),
    {
        self.is_home = is_home;
        self.message.push((None, DispatchMessage::HomeStateChanged(is_home)));
    }

    /// The user clicked or touched outside an armed dismiss group:
    /// raise the flag and tell the caller.
    pub fn on_dismiss_requested(&mut self)
        ensures
            final(self).dismiss_requested_flag,
            final(self).message@ == old(self).message@.push(
                (None::<Id>, DispatchMessage::DismissRequested),
            ),
            *final(self) == (WindowState {
                dismiss_requested_flag: true,
                message: final(self).message,
                ..*old(self)
            }),
    {
        self.dismiss_requested_flag = true;
        self.message.push((None, DispatchMessage::DismissRequested));
    }

    /// Compositor-driven auto-hide changed a surface's visibility:
    /// tell the caller, untagged as the protocol reports it.
    pub fn on_auto_hide_visibility_changed(&mut self, visible: bool)
        ensures
            final(self).message@ == old(self).message@.push(
                (None::<Id>, DispatchMessage::AutoHideVisibilityChanged(visible)),
            ),
            *final(self) == (WindowState { message: final(self).message, ..*old(self) }),
    {
        self.message.push((None, DispatchMessage::AutoHideVisibilityChanged(visible)));
    }

    /// A pointer scroll event: the caller hears it on the unit the
    /// pointer occupies, with the unit's scale for the adapter's
    /// arithmetic.
    pub fn on_pointer_axis(
        &mut self,
        time: u32,
        horizontal: crate::events::AxisScroll,
        vertical: crate::events::AxisScroll,
        source: Option<u32>,
    )
        ensures
            final(self).message@ == old(self).message@.push(
                (
                    match old(self).active_surfaces.pointer {
                        Some(t) => t.unit,
                        None => None::<Id>,
                    },
                    DispatchMessage::Axis {
                        time,
                        scale: final(self).message@.last().1->Axis_scale,
                        horizontal,
                        vertical,
                        source,
                    },
                ),
            ),
            *final(self) == (WindowState { message: final(self).message, ..*old(self) }),
    {
        let (unit, scale) = match self.active_surfaces.pointer_target() {
            Some(t) => {
                let scale = match t.unit {
                    Some(id) => match self.unit_index_of(id) {
                        Some(i) => self.units[i].scale,
                        None => crate::unit::SCALE_BASE,
                    },
                    None => crate::unit::SCALE_BASE,
                };
                (t.unit, scale)
            },
            None => (None, crate::unit::SCALE_BASE),
        };
        self.message.push(
            (unit, DispatchMessage::Axis { time, scale, horizontal, vertical, source }),
        );
    }
}


/// The request one foreign-window action issues through a given
/// protocol: activation needs a seat; only the newer control protocol
/// force-closes, and below its fifth version the plain close is sent
/// instead.
pub open spec fn spec_toplevel_request_via(
    via_cosmic: bool,
    handle: u32,
    version: u32,
    seat: Option<u32>,
    action: crate::foreign_toplevel::ToplevelAction,
) -> Option<ProtocolRequest> {
    match action {
        crate::foreign_toplevel::ToplevelAction::Activate(_) => match seat {
            Some(st) => Some(ProtocolRequest::ToplevelActivate { via_cosmic, handle, seat: st }),
            None => None,
        },
        crate::foreign_toplevel::ToplevelAction::Close(_) => Some(
            ProtocolRequest::ToplevelClose { via_cosmic, handle },
        ),
        crate::foreign_toplevel::ToplevelAction::ForceClose(_) => if via_cosmic && version >= 5 {
            Some(ProtocolRequest::ToplevelForceClose { handle })
        } else {
            Some(ProtocolRequest::ToplevelClose { via_cosmic, handle })
        },
        crate::foreign_toplevel::ToplevelAction::SetMaximized(_) => Some(
            ProtocolRequest::ToplevelSetMaximized { via_cosmic, handle, on: true },
        ),
        crate::foreign_toplevel::ToplevelAction::UnsetMaximized(_) => Some(
            ProtocolRequest::ToplevelSetMaximized { via_cosmic, handle, on: false },
        ),
        crate::foreign_toplevel::ToplevelAction::SetMinimized(_) => Some(
            ProtocolRequest::ToplevelSetMinimized { via_cosmic, handle, on: true },
        ),
        crate::foreign_toplevel::ToplevelAction::UnsetMinimized(_) => Some(
            ProtocolRequest::ToplevelSetMinimized { via_cosmic, handle, on: false },
        ),
        crate::foreign_toplevel::ToplevelAction::SetFullscreen(_) => Some(
            ProtocolRequest::ToplevelSetFullscreen { via_cosmic, handle, on: true },
        ),
        crate::foreign_toplevel::ToplevelAction::UnsetFullscreen(_) => Some(
            ProtocolRequest::ToplevelSetFullscreen { via_cosmic, handle, on: false },
        ),
    }
}

/// The request a foreign-window action issues from this state: the
/// newer control protocol is preferred where its handle exists, the
/// older manager protocol is the fallback, and an unknown handle
/// issues nothing.
pub open spec fn spec_toplevel_request<T>(
    s: WindowState<T>,
    action: crate::foreign_toplevel::ToplevelAction,
) -> Option<ProtocolRequest> {
    let hid = action.spec_handle_id() as u64;
    if s.cosmic_toplevel_manager is Some && s.cosmic_toplevel_handles@.contains_key(hid) {
        spec_toplevel_request_via(
            true,
            s.cosmic_toplevel_handles@[hid],
            s.cosmic_toplevel_manager_version,
            s.seat,
            action,
        )
    } else if s.foreign_toplevel_handles@.contains_key(hid) {
        spec_toplevel_request_via(false, s.foreign_toplevel_handles@[hid], 0, s.seat, action)
    } else {
        None
    }
}

impl<T> WindowState<T> {
    /// Perform a caller action on a foreign window: exactly the
    /// matching control request is queued, the newer protocol
    /// preferred, force-close degrading to close below its fifth
    /// version. Returns whether a request was issued; a handle the
    /// engine does not know, or an activation without a seat, issues
    /// nothing.
    #[verifier::rlimit(100)]
    #[verifier::spinoff_prover]
    pub fn execute_toplevel_action(&mut self, action: crate::foreign_toplevel::ToplevelAction) -> (
    r: bool)
        requires
            old(self).wf(),
        ensures
            final(self).wf(),
            r == (spec_toplevel_request(*old(self), action) is Some),
            match spec_toplevel_request(*old(self), action) {
                Some(request) => final(self).requests@ == old(self).requests@.push(request),
                None => final(self).requests@ == old(self).requests@,
            },
            *final(self) == (WindowState { requests: final(self).requests, ..*old(self) }),
    {
        let handle_id = action.handle_id() as u64;
        let (via_cosmic, handle, version) = if self.cosmic_toplevel_manager.is_some() {
            match self.cosmic_toplevel_handles.get(handle_id) {
                Some(h) => (true, Some(*h), self.cosmic_toplevel_manager_version),
                None => match self.foreign_toplevel_handles.get(handle_id) {
                    Some(h) => (false, Some(*h), 0),
                    None => (false, None, 0),
                },
            }
        } else {
            match self.foreign_toplevel_handles.get(handle_id) {
                Some(h) => (false, Some(*h), 0),
                None => (false, None, 0),
            }
        };
        let Some(handle) = handle else { return false };
        let request: Option<ProtocolRequest> = match action {
            crate::foreign_toplevel::ToplevelAction::Activate(_) => match self.seat {
                Some(seat) => Some(
                    ProtocolRequest::ToplevelActivate { via_cosmic, handle, seat },
                ),
                None => None,
            },
            crate::foreign_toplevel::ToplevelAction::Close(_) => Some(
                ProtocolRequest::ToplevelClose { via_cosmic, handle },
            ),
            crate::foreign_toplevel::ToplevelAction::ForceClose(_) => if via_cosmic && version
                >= 5 {
                Some(ProtocolRequest::ToplevelForceClose { handle })
            } else {
                Some(ProtocolRequest::ToplevelClose { via_cosmic, handle })
            },
            crate::foreign_toplevel::ToplevelAction::SetMaximized(_) => Some(
                ProtocolRequest::ToplevelSetMaximized { via_cosmic, handle, on: true },
            ),
            crate::foreign_toplevel::ToplevelAction::UnsetMaximized(_) => Some(
                ProtocolRequest::ToplevelSetMaximized { via_cosmic, handle, on: false },
            ),
            crate::foreign_toplevel::ToplevelAction::SetMinimized(_) => Some(
                ProtocolRequest::ToplevelSetMinimized { via_cosmic, handle, on: true },
            ),
            crate::foreign_toplevel::ToplevelAction::UnsetMinimized(_) => Some(
                ProtocolRequest::ToplevelSetMinimized { via_cosmic, handle, on: false },
            ),
            crate::foreign_toplevel::ToplevelAction::SetFullscreen(_) => Some(
                ProtocolRequest::ToplevelSetFullscreen { via_cosmic, handle, on: true },
            ),
            crate::foreign_toplevel::ToplevelAction::UnsetFullscreen(_) => Some(
                ProtocolRequest::ToplevelSetFullscreen { via_cosmic, handle, on: false },
            ),
        };
        match request {
            Some(request) => {
                self.requests.push(request);
                true
            },
            None => false,
        }
    }
}

} // verus!
