//! Surface units: one record per on-screen surface.
//!
//! A unit owns its protocol handles, geometry, fractional scale, an
//! optional caller-supplied binding value, the close/refresh request
//! flags and the presentation state. Exactly one unit exists per live
//! surface object; the engine state keeps the collection.

use vstd::prelude::*;

use crate::id::Id;
use crate::present::PresentAvailableState;
use crate::refresh::RefreshRequest;
use crate::shell::{
    BufferHandle, FractionalScaleHandle, OutputHandle, Shell, SurfaceHandle, ViewportHandle,
    XdgOutputHandle,
};

verus! {

/// Output metadata reported by the output-metadata listener.
#[derive(Debug, Clone, PartialEq, Eq)]
pub struct ZxdgOutputInfo {
    pub name: String,
    pub description: String,
    pub zxdgoutput: XdgOutputHandle,
    pub logical_width: i32,
    pub logical_height: i32,
    pub position_x: i32,
    pub position_y: i32,
}

impl ZxdgOutputInfo {
    /// Fresh metadata for a listener object: empty names, zero geometry.
    pub fn new(zxdgoutput: XdgOutputHandle) -> (r: ZxdgOutputInfo)
        ensures
            r.zxdgoutput == zxdgoutput,
            r.name@ == Seq::<char>::empty(),
            r.description@ == Seq::<char>::empty(),
            r.logical_width == 0 && r.logical_height == 0,
            r.position_x == 0 && r.position_y == 0,
    {
        ZxdgOutputInfo {
            zxdgoutput,
            name: String::new(),
            description: String::new(),
            logical_width: 0,
            logical_height: 0,
            position_x: 0,
            position_y: 0,
        }
    }

    /// The logical position of the screen this surface is on.
    pub fn get_position(&self) -> (r: (i32, i32))
        ensures
            r == (self.position_x, self.position_y),
    {
        (self.position_x, self.position_y)
    }

    /// The logical size of the screen this surface is on.
    pub fn get_logical_size(&self) -> (r: (i32, i32))
        ensures
            r == (self.logical_width, self.logical_height),
    {
        (self.logical_width, self.logical_height)
    }
}

/// The caller-request flags of one unit.
#[derive(Debug, Clone, Copy, PartialEq, Eq, Structural)]
pub struct RequestFlag {
    /// Whether this window has been asked to close.
    pub close: bool,
    /// The pending refresh request of this window.
    pub refresh: RefreshRequest,
}

/// A command for the layer-shell object of one unit; the I/O shell
/// sends it and commits the surface.
#[derive(Debug, Clone, Copy, PartialEq, Eq, Structural)]
pub enum LayerShellCommand {
    SetAnchor(u32),
    SetMargin(i32, i32, i32, i32),
    SetLayer(u32),
    SetSize(u32, u32),
    SetAnchorWithSize(u32, u32, u32),
    SetExclusiveZone(i32),
}

/// The fractional-scale denominator: a unit scale of this value means a
/// scale factor of one.
pub const SCALE_BASE: u32 = 120;

/// One record per on-screen surface.
#[derive(Debug)]
pub struct WindowStateUnit<T> {
    pub id: Id,
    pub wl_surface: SurfaceHandle,
    pub size: (u32, u32),
    pub buffer: Option<BufferHandle>,
    pub shell: Shell,
    pub zxdgoutput: Option<ZxdgOutputInfo>,
    pub fractional_scale: Option<FractionalScaleHandle>,
    pub viewport: Option<ViewportHandle>,
    pub wl_output: Option<OutputHandle>,
    pub binding: Option<T>,
    pub becreated: bool,
    pub scale: u32,
    pub request_flag: RequestFlag,
    pub present_available_state: PresentAvailableState,
}

impl<T> WindowStateUnit<T> {
    /// A fresh unit for a surface: default geometry, base scale, no
    /// pending request, present slot available.
    pub fn new(id: Id, wl_surface: SurfaceHandle, shell: Shell) -> (r: WindowStateUnit<T>)
        ensures
            r.id == id,
            r.wl_surface == wl_surface,
            r.shell == shell,
            r.size == (0u32, 0u32),
            r.buffer is None,
            r.zxdgoutput is None,
            r.fractional_scale is None,
            r.viewport is None,
            r.wl_output is None,
            r.binding is None,
            !r.becreated,
            r.scale == SCALE_BASE,
            r.request_flag.close == false,
            r.request_flag.refresh == RefreshRequest::Wait,
            r.present_available_state == PresentAvailableState::Available,
    {
        WindowStateUnit {
            id,
            wl_surface,
            shell,
            size: (0, 0),
            buffer: None,
            zxdgoutput: None,
            fractional_scale: None,
            viewport: None,
            wl_output: None,
            binding: None,
            becreated: false,
            scale: SCALE_BASE,
            request_flag: RequestFlag { close: false, refresh: RefreshRequest::Wait },
            present_available_state: PresentAvailableState::Available,
        }
    }

    /// Whether this unit's shell is a popup.
    pub fn is_popup(&self) -> (r: bool)
        ensures
            r == (self.shell is PopUp),
    {
        self.shell.is_popup()
    }

    /// The unit's identity.
    pub fn id(&self) -> (r: Id)
        ensures
            r == self.id,
    {
        self.id
    }

    /// The surface object of this unit.
    pub fn get_wlsurface(&self) -> (r: SurfaceHandle)
        ensures
            r == self.wl_surface,
    {
        self.wl_surface
    }

    /// The output metadata bound to this unit, if any.
    pub fn get_xdgoutput_info(&self) -> (r: Option<&ZxdgOutputInfo>)
        ensures
            r is Some <==> self.zxdgoutput is Some,
            r is Some ==> r->0 == self.zxdgoutput->0,
    {
        self.zxdgoutput.as_ref()
    }

    /// Store the caller's binding value for this unit.
    pub fn set_binding(&mut self, binding: T)
        ensures
            final(self).binding == Some(binding),
            *final(self) == (WindowStateUnit { binding: Some(binding), ..*old(self) }),
    {
        self.binding = Some(binding);
    }

    /// The caller's binding value, if one was set.
    pub fn get_binding(&self) -> (r: Option<&T>)
        ensures
            r is Some <==> self.binding is Some,
            r is Some ==> r->0 == self.binding->0,
    {
        self.binding.as_ref()
    }

    /// The current size of the surface.
    pub fn get_size(&self) -> (r: (u32, u32))
        ensures
            r == self.size,
    {
        self.size
    }

    /// The fractional scale of this unit, in units of [`SCALE_BASE`].
    pub fn scale_u32(&self) -> (r: u32)
        ensures
            r == self.scale,
    {
        self.scale
    }

    /// Ask for this window to be closed; the driver removes it on its
    /// next tick.
    pub fn request_close(&mut self)
        ensures
            final(self).request_flag.close,
            *final(self) == (WindowStateUnit {
                request_flag: RequestFlag { close: true, ..old(self).request_flag },
                ..*old(self)
            }),
    {
        self.request_flag.close = true;
    }

    /// Merge a refresh request into the pending one. A request in the
    /// nearest future has the highest priority; an existing stronger
    /// request is never weakened.
    pub fn request_refresh(&mut self, request: RefreshRequest)
        ensures
            final(self).request_flag.refresh == old(self).request_flag.refresh.spec_merged(
                request,
            ),
            *final(self) == (WindowStateUnit {
                request_flag: RequestFlag {
                    refresh: old(self).request_flag.refresh.spec_merged(request),
                    ..old(self).request_flag
                },
                ..*old(self)
            }),
    {
        self.request_flag.refresh = self.request_flag.refresh.merged(request);
    }

    /// Whether the pending refresh request is due at time `now`.
    pub fn should_refresh(&self, now: u64) -> (r: bool)
        ensures
            r == self.request_flag.refresh.spec_due(now),
    {
        self.request_flag.refresh.due(now)
    }

    /// Try to take the present slot at time `now`. Succeeds only when
    /// the pending refresh request is due and the slot is available; on
    /// success the pending request resets to `Wait` and the slot is
    /// taken, so at most one redraw is in flight for this surface.
    pub fn take_present_slot(&mut self, now: u64) -> (r: bool)
        ensures
            r == (old(self).request_flag.refresh.spec_due(now) && old(
                self,
            ).present_available_state == PresentAvailableState::Available),
            r ==> *final(self) == (WindowStateUnit {
                request_flag: RequestFlag {
                    refresh: RefreshRequest::Wait,
                    ..old(self).request_flag
                },
                present_available_state: PresentAvailableState::Taken,
                ..*old(self)
            }),
            !r ==> *final(self) == *old(self),
    {
        if !self.should_refresh(now) {
            return false;
        }
        if !matches!(self.present_available_state, PresentAvailableState::Available) {
            return false;
        }
        self.request_flag.refresh = RefreshRequest::Wait;
        self.present_available_state = PresentAvailableState::Taken;
        true
    }

    /// Give a taken present slot back unused. Returns whether the slot
    /// was indeed taken and is available again.
    pub fn reset_present_slot(&mut self) -> (r: bool)
        ensures
            r == (old(self).present_available_state == PresentAvailableState::Taken),
            final(self).present_available_state == old(
                self,
            ).present_available_state.spec_reset().0,
            *final(self) == (WindowStateUnit {
                present_available_state: old(self).present_available_state.spec_reset().0,
                ..*old(self)
            }),
    {
        if matches!(self.present_available_state, PresentAvailableState::Taken) {
            self.present_available_state = PresentAvailableState::Available;
            true
        } else {
            false
        }
    }

    /// After the frame was drawn, move a taken slot on to `Requested`.
    /// Returns whether a frame callback must now be registered on the
    /// surface; the callback's firing calls
    /// [`Self::present_slot_callback_done`].
    pub fn request_next_present(&mut self) -> (r: bool)
        ensures
            r == (old(self).present_available_state == PresentAvailableState::Taken),
            final(self).present_available_state == old(
                self,
            ).present_available_state.spec_request_next().0,
            *final(self) == (WindowStateUnit {
                present_available_state: old(self).present_available_state.spec_request_next().0,
                ..*old(self)
            }),
    {
        if matches!(self.present_available_state, PresentAvailableState::Taken) {
            self.present_available_state = PresentAvailableState::Requested;
            true
        } else {
            false
        }
    }

    /// The compositor fired the frame callback: the slot is available
    /// again.
    pub fn present_slot_callback_done(&mut self)
        ensures
            *final(self) == (WindowStateUnit {
                present_available_state: PresentAvailableState::Available,
                ..*old(self)
            }),
    {
        self.present_available_state = PresentAvailableState::Available;
    }

    /// Command to set the anchor, for layer-shell units only.
    pub fn set_anchor(&self, anchor: u32) -> (r: Option<LayerShellCommand>)
        ensures
            self.shell is LayerShell ==> r == Some(LayerShellCommand::SetAnchor(anchor)),
            !(self.shell is LayerShell) ==> r is None,
    {
        if self.shell.is_layer_shell() {
            Some(LayerShellCommand::SetAnchor(anchor))
        } else {
            None
        }
    }

    /// Command to reset the margin, for layer-shell units only.
    pub fn set_margin(&self, top: i32, right: i32, bottom: i32, left: i32) -> (r: Option<
        LayerShellCommand,
    >)
        ensures
            self.shell is LayerShell ==> r == Some(
                LayerShellCommand::SetMargin(top, right, bottom, left),
            ),
            !(self.shell is LayerShell) ==> r is None,
    {
        if self.shell.is_layer_shell() {
            Some(LayerShellCommand::SetMargin(top, right, bottom, left))
        } else {
            None
        }
    }

    /// Command to change the layer, for layer-shell units only.
    pub fn set_layer(&self, layer: u32) -> (r: Option<LayerShellCommand>)
        ensures
            self.shell is LayerShell ==> r == Some(LayerShellCommand::SetLayer(layer)),
            !(self.shell is LayerShell) ==> r is None,
    {
        if self.shell.is_layer_shell() {
            Some(LayerShellCommand::SetLayer(layer))
        } else {
            None
        }
    }

    /// Command to set anchor and size together, for layer-shell units
    /// only.
    pub fn set_anchor_with_size(&self, anchor: u32, width: u32, height: u32) -> (r: Option<
        LayerShellCommand,
    >)
        ensures
            self.shell is LayerShell ==> r == Some(
                LayerShellCommand::SetAnchorWithSize(anchor, width, height),
            ),
            !(self.shell is LayerShell) ==> r is None,
    {
        if self.shell.is_layer_shell() {
            Some(LayerShellCommand::SetAnchorWithSize(anchor, width, height))
        } else {
            None
        }
    }

    /// Command to set the size, for layer-shell units only.
    pub fn set_size(&self, width: u32, height: u32) -> (r: Option<LayerShellCommand>)
        ensures
            self.shell is LayerShell ==> r == Some(LayerShellCommand::SetSize(width, height)),
            !(self.shell is LayerShell) ==> r is None,
    {
        if self.shell.is_layer_shell() {
            Some(LayerShellCommand::SetSize(width, height))
        } else {
            None
        }
    }

    /// Command to set the exclusive zone, for layer-shell units only.
    pub fn set_exclusive_zone(&self, zone: i32) -> (r: Option<LayerShellCommand>)
        ensures
            self.shell is LayerShell ==> r == Some(LayerShellCommand::SetExclusiveZone(zone)),
            !(self.shell is LayerShell) ==> r is None,
    {
        if self.shell.is_layer_shell() {
            Some(LayerShellCommand::SetExclusiveZone(zone))
        } else {
            None
        }
    }
}

} // verus!
