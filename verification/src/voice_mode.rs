//! Voice-input events from the compositor.
//!
//! A registered receiver surface is told when voice input starts,
//! stops or is cancelled, where the voice orb is attached, and when
//! input is about to stop — the last must be acknowledged, freezing
//! the orb while transcription is still running. The engine caches
//! whether voice processing is active so the acknowledgement can be
//! answered at once, without a round trip through the caller.

use vstd::prelude::*;

use crate::shell::SurfaceHandle;

verus! {

/// A voice-mode event from the compositor. Orb geometry is in surface
/// coordinates; `orb_state` carries the raw protocol code for where
/// the orb is shown.
#[derive(Debug, Clone, Copy, PartialEq, Eq, Structural)]
pub enum VoiceModeEvent {
    /// Voice input started.
    Started { orb_state: u32 },
    /// Voice input stopped normally.
    Stopped,
    /// Voice input was cancelled.
    Cancelled,
    /// The orb attached to this receiver's window.
    OrbAttached { x: i32, y: i32, width: i32, height: i32 },
    /// The orb detached from this receiver's window.
    OrbDetached,
    /// Voice input is about to stop; the serial must be echoed in the
    /// acknowledgement.
    WillStop { serial: u32 },
    /// The user tapped the orb to focus text input.
    FocusInput,
}

/// Marker data of the voice-mode manager global.
#[derive(Debug, Clone, Copy, PartialEq, Eq, Structural)]
pub struct VoiceModeManagerData;

/// Data of one voice-mode receiver: its surface, and whether it is the
/// default receiver of the connection.
#[derive(Debug, Clone, Copy, PartialEq, Eq, Structural)]
pub struct VoiceModeReceiverData {
    pub surface: SurfaceHandle,
    pub is_default: bool,
}

/// Implemented by the state that consumes voice-mode events.
pub trait VoiceModeHandler {
    /// Called once per voice-mode event.
    fn voice_mode_event(&mut self, event: VoiceModeEvent);
}

} // verus!
