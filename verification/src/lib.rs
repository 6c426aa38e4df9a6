//! A verified client-side engine for a Wayland compositor's windowing
//! protocol, in the shape of a layer-shell event loop.
//!
//! The crate models the protocol/event-loop core: global negotiation,
//! per-surface object lifecycle, the presentation (frame-pacing) state
//! machine, multi-seat input demultiplexing, multi-output resolution,
//! and the pluggable compositor-extension capability pattern.
//!
//! Protocol objects are carried as plain handles; every outbound protocol
//! request the engine decides on is recorded as a data value that the
//! unverified I/O shell performs against the live connection.

pub mod actions;
pub mod blur;
pub mod capability;
pub mod corner_radius;
pub mod errors;
pub mod events;
pub mod foreign_toplevel;
pub mod home_visibility;
pub mod id;
pub mod input;
pub mod kvlist;
pub mod layer_auto_hide;
pub mod layer_surface_dismiss;
pub mod layer_surface_visibility;
pub mod mode;
pub mod present;
pub mod refresh;
pub mod shadow;
pub mod shell;
pub mod state;
pub mod text_input;
pub mod unit;
pub mod voice_mode;

pub use errors::LayerEventError;
pub use events::{DispatchMessage, ProtocolRequest, ReturnData};
pub use id::Id;
pub use mode::StartMode;
pub use present::PresentAvailableState;
pub use refresh::RefreshRequest;
pub use shell::Shell;
pub use state::WindowState;
pub use text_input::Ime;
pub use unit::{WindowStateUnit, ZxdgOutputInfo};
