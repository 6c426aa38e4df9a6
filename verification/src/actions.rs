//! Settings values of the caller-facing action vocabulary.
//!
//! A GUI adapter sitting on the engine directs it with small settings
//! values: where a popup opens, how a menu unfolds, how a plain window
//! starts. They carry plain data only; the engine turns them into
//! surface-creation control values.

use vstd::prelude::*;

use crate::events::{NewXdgWindowSettings, WindowSize};

verus! {

/// Settings for a plain top-level window opened by the caller.
#[derive(Debug, Clone, Copy, PartialEq, Eq, Structural)]
pub struct IcedXdgWindowSettings {
    pub maximized: bool,
    pub size: Option<WindowSize>,
}

impl IcedXdgWindowSettings {
    /// The window-creation settings these caller settings stand for:
    /// same maximized state and size, no title.
    pub fn into_window_settings(self) -> (r: NewXdgWindowSettings)
        ensures
            r.maximized == self.maximized,
            r.title is None,
            r.size == self.size,
    {
        NewXdgWindowSettings { maximized: self.maximized, title: None, size: self.size }
    }
}

/// Settings for a popup opened by the caller, positioned relative to
/// its parent surface.
#[derive(Debug, Clone, Copy, PartialEq, Eq, Structural)]
pub struct IcedNewPopupSettings {
    pub size: WindowSize,
    pub position_x: i32,
    pub position_y: i32,
}

/// Which way a menu unfolds from its anchor.
#[derive(Debug, Clone, Copy, PartialEq, Eq, Structural)]
pub enum MenuDirection {
    Up,
    Down,
}

/// Settings for a menu opened by the caller.
#[derive(Debug, Clone, Copy, PartialEq, Eq, Structural)]
pub struct IcedNewMenuSettings {
    pub size: WindowSize,
    pub direction: MenuDirection,
}

/// A key's state in the caller's vocabulary.
#[derive(Debug, Clone, Copy, PartialEq, Eq, Structural)]
pub enum IcedKeyState {
    Pressed,
    Released,
}

impl IcedKeyState {
    /// Translate the protocol's pressed flag.
    pub fn from_pressed(pressed: bool) -> (r: IcedKeyState)
        ensures
            r == if pressed {
                IcedKeyState::Pressed
            } else {
                IcedKeyState::Released
            },
    {
        if pressed {
            IcedKeyState::Pressed
        } else {
            IcedKeyState::Released
        }
    }
}

} // verus!
