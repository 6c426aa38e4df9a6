//! Shells: the role a surface plays, and the protocol objects behind it.
//!
//! Protocol objects are carried as plain numeric handles. The engine
//! never dereferences them; it only stores them, compares them to
//! resolve raw protocol events back to a surface unit, and lists them
//! in destruction order for the I/O shell to destroy.

use vstd::prelude::*;

verus! {

/// A protocol object handle, as the wire protocol names objects.
pub type ProtocolHandle = u32;

/// Handle of a plain surface object.
pub type SurfaceHandle = u32;

/// Handle of an anchored layer-surface shell object.
pub type LayerSurfaceHandle = u32;

/// Handle of a shell-surface base object.
pub type XdgSurfaceHandle = u32;

/// Handle of a regular top-level window object.
pub type XdgToplevelHandle = u32;

/// Handle of a transient positioned popup object.
pub type XdgPopupHandle = u32;

/// Handle of a window-decoration controller object.
pub type DecorationHandle = u32;

/// Handle of an input-method panel surface object.
pub type InputPanelHandle = u32;

/// Handle of a connected output.
pub type OutputHandle = u32;

/// Handle of a pixel buffer object.
pub type BufferHandle = u32;

/// Handle of a viewport object.
pub type ViewportHandle = u32;

/// Handle of a fractional-scale listener object.
pub type FractionalScaleHandle = u32;

/// Handle of an output-metadata listener object.
pub type XdgOutputHandle = u32;

/// The shell kind of a surface, with the protocol objects it owns.
#[derive(Debug, Clone, Copy, PartialEq, Eq)]
pub enum Shell {
    /// An anchored panel-style surface.
    LayerShell(LayerSurfaceHandle),
    /// A transient positioned surface with a parent: popup object plus
    /// its shell-surface base.
    PopUp((XdgPopupHandle, XdgSurfaceHandle)),
    /// A regular window: top-level object, its shell-surface base, and
    /// an optional decoration controller.
    XdgTopLevel((XdgToplevelHandle, XdgSurfaceHandle, Option<DecorationHandle>)),
    /// An input-method panel surface.
    InputPanel(InputPanelHandle),
}

/// One protocol object a shell owns, named for destruction.
#[derive(Debug, Clone, Copy, PartialEq, Eq, Structural)]
pub enum ShellObject {
    Decoration(DecorationHandle),
    TopLevel(XdgToplevelHandle),
    Popup(XdgPopupHandle),
    XdgSurface(XdgSurfaceHandle),
    LayerSurface(LayerSurfaceHandle),
}

impl Shell {
    /// True for the layer-shell variant holding exactly this object.
    pub fn matches_layer_surface(&self, other: LayerSurfaceHandle) -> (r: bool)
        ensures
            r == (self is LayerShell && self->LayerShell_0 == other),
    {
        match self {
            Shell::LayerShell(shell) => *shell == other,
            _ => false,
        }
    }

    /// True for the popup variant holding exactly this popup object.
    pub fn matches_popup(&self, other: XdgPopupHandle) -> (r: bool)
        ensures
            r == (self is PopUp && self->PopUp_0.0 == other),
    {
        match self {
            Shell::PopUp((popup, _)) => *popup == other,
            _ => false,
        }
    }

    /// True for a popup or top-level variant holding exactly this
    /// shell-surface base object.
    pub fn matches_xdg_surface(&self, other: XdgSurfaceHandle) -> (r: bool)
        ensures
            r == ((self is PopUp && self->PopUp_0.1 == other) || (self is XdgTopLevel
                && self->XdgTopLevel_0.1 == other)),
    {
        match self {
            Shell::PopUp((_, surface)) => *surface == other,
            Shell::XdgTopLevel((_, surface, _)) => *surface == other,
            _ => false,
        }
    }

    /// True for the top-level variant holding exactly this window object.
    pub fn matches_toplevel(&self, other: XdgToplevelHandle) -> (r: bool)
        ensures
            r == (self is XdgTopLevel && self->XdgTopLevel_0.0 == other),
    {
        match self {
            Shell::XdgTopLevel((level, _, _)) => *level == other,
            _ => false,
        }
    }

    /// Whether this shell is a layer shell.
    pub fn is_layer_shell(&self) -> (r: bool)
        ensures
            r == (self is LayerShell),
    {
        matches!(self, Shell::LayerShell(_))
    }

    /// Whether this shell is a popup.
    pub fn is_popup(&self) -> (r: bool)
        ensures
            r == (self is PopUp),
    {
        matches!(self, Shell::PopUp(_))
    }

    /// The top-level window object, for shells that have one.
    pub fn top_level(&self) -> (r: Option<XdgToplevelHandle>)
        ensures
            self is XdgTopLevel ==> r == Some(self->XdgTopLevel_0.0),
            !(self is XdgTopLevel) ==> r is None,
    {
        match self {
            Shell::XdgTopLevel((level, _, _)) => Some(*level),
            _ => None,
        }
    }

    /// The shell's objects in the order they must be destroyed:
    /// decoration first, the role object next, the shell-surface base
    /// after it, the shell object last of its kind. An input panel owns
    /// no destroyable object of its own.
    pub open spec fn spec_destroy_order(self) -> Seq<ShellObject> {
        match self {
            Shell::PopUp((popup, xdg_surface)) => seq![
                ShellObject::Popup(popup),
                ShellObject::XdgSurface(xdg_surface),
            ],
            Shell::XdgTopLevel((level, xdg_surface, decoration)) => match decoration {
                Some(d) => seq![
                    ShellObject::Decoration(d),
                    ShellObject::TopLevel(level),
                    ShellObject::XdgSurface(xdg_surface),
                ],
                None => seq![ShellObject::TopLevel(level), ShellObject::XdgSurface(xdg_surface)],
            },
            Shell::LayerShell(shell) => seq![ShellObject::LayerSurface(shell)],
            Shell::InputPanel(_) => seq![],
        }
    }

    /// List this shell's objects in destruction order, for the I/O
    /// shell to destroy one by one.
    pub fn destroy_order(&self) -> (r: Vec<ShellObject>)
        ensures
            r@ == self.spec_destroy_order(),
    {
        match self {
            Shell::PopUp((popup, xdg_surface)) => {
                let mut v: Vec<ShellObject> = Vec::new();
                v.push(ShellObject::Popup(*popup));
                v.push(ShellObject::XdgSurface(*xdg_surface));
                proof {
                    assert(v@ =~= self.spec_destroy_order());
                }
                v
            },
            Shell::XdgTopLevel((level, xdg_surface, decoration)) => {
                let mut v: Vec<ShellObject> = Vec::new();
                if let Some(d) = decoration {
                    v.push(ShellObject::Decoration(*d));
                }
                v.push(ShellObject::TopLevel(*level));
                v.push(ShellObject::XdgSurface(*xdg_surface));
                proof {
                    assert(v@ =~= self.spec_destroy_order());
                }
                v
            },
            Shell::LayerShell(shell) => {
                let mut v: Vec<ShellObject> = Vec::new();
                v.push(ShellObject::LayerSurface(*shell));
                proof {
                    assert(v@ =~= self.spec_destroy_order());
                }
                v
            },
            Shell::InputPanel(_) => Vec::new(),
        }
    }
}

} // verus!
