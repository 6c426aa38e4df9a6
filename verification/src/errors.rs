//! The setup-phase error taxonomy.
//!
//! Every failure of the setup phase is fatal and surfaced once as one
//! of these variants; nothing is retried. Absence of an optional global
//! is not an error.

use vstd::prelude::*;

verus! {

/// Why the engine could not be brought up.
#[derive(Debug, Clone, Copy, PartialEq, Eq, Structural)]
pub enum LayerEventError {
    /// Connecting to the compositor failed.
    ConnectError,
    /// The global registry could not be retrieved.
    GlobalError,
    /// A required global could not be bound.
    BindError,
    /// Dispatching the protocol queue failed.
    DispatchError,
    /// The buffer backing file could not be created.
    TempFileCreateFailed,
    /// The reactor could not be initialized.
    EventLoopInitError,
}

impl LayerEventError {
    /// A short description of the failure.
    pub fn message(&self) -> (r: &'static str)
        ensures
            r@ == match self {
                LayerEventError::ConnectError => "connect error"@,
                LayerEventError::GlobalError => "Global Error"@,
                LayerEventError::BindError => "Bind Error"@,
                LayerEventError::DispatchError => "Error during queue"@,
                LayerEventError::TempFileCreateFailed => "create file failed"@,
                LayerEventError::EventLoopInitError => "Event Loop Error"@,
            },
    {
        match self {
            LayerEventError::ConnectError => "connect error",
            LayerEventError::GlobalError => "Global Error",
            LayerEventError::BindError => "Bind Error",
            LayerEventError::DispatchError => "Error during queue",
            LayerEventError::TempFileCreateFailed => "create file failed",
            LayerEventError::EventLoopInitError => "Event Loop Error",
        }
    }
}

} // verus!
