//! Text-input / IME state, per seat.
//!
//! Preedit and commit strings received between the protocol's "done"
//! commit signals are buffered. On "done", a buffered commit clears any
//! stale preedit and is emitted as a `Commit` event, preceded by an
//! empty `Preedit` that clears what was shown; otherwise a buffered
//! preedit is emitted with a validated cursor-boundary range. Invalid
//! byte offsets are dropped, never propagated.

use vstd::prelude::*;

use crate::shell::SurfaceHandle;

verus! {

/// The hint the input method is given about the edited content.
#[derive(Debug, Clone, Copy, PartialEq, Eq, Hash, Structural)]
pub enum ImePurpose {
    /// No special hint.
    Normal,
    /// Password input: the input method must not show or learn it.
    Password,
    /// Terminal input: an on-screen keyboard may show extra keys.
    Terminal,
}

/// An input-method event delivered to the caller.
#[derive(Debug, Clone, PartialEq, Eq)]
pub enum Ime {
    /// The surface gained input-method focus.
    Enabled,
    /// Show this preedit text, with an optional cursor byte range.
    Preedit(String, Option<(usize, usize)>),
    /// Commit this text into the widget.
    Commit(String),
    /// The surface lost input-method focus.
    Disabled,
}

impl Ime {
    /// An empty preedit without a cursor: what clears the display.
    pub open spec fn is_clear_preedit(self) -> bool {
        self is Preedit && self->Preedit_0@ == Seq::<char>::empty() && self->Preedit_1 is None
    }

    /// A commit of exactly this text.
    pub open spec fn is_commit_of(self, text: Seq<char>) -> bool {
        self is Commit && self->Commit_0@ == text
    }

    /// A preedit of exactly this text and cursor range.
    pub open spec fn is_preedit_of(self, text: Seq<char>, range: Option<(usize, usize)>) -> bool {
        self is Preedit && self->Preedit_0@ == text && self->Preedit_1 == range
    }
}

/// A buffered preedit: its text and the validated cursor byte offsets.
#[derive(Debug, Clone, PartialEq, Eq)]
pub struct Preedit {
    pub text: String,
    pub cursor_begin: Option<usize>,
    pub cursor_end: Option<usize>,
}

/// A byte offset into `text` that may serve as a cursor bound: it is
/// non-negative, within the text, and on a character boundary.
pub open spec fn spec_valid_cursor(text: Seq<char>, idx: i32) -> bool {
    0 <= idx && vstd::utf8::is_char_boundary(vstd::utf8::encode_utf8(text), idx as int)
}

/// The state one text-input object buffers between "done" signals.
#[derive(Debug, Clone, PartialEq, Eq)]
pub struct TextInputDataInner {
    /// The surface input is being performed to.
    pub surface: Option<SurfaceHandle>,
    /// The commit to submit on "done".
    pub pending_commit: Option<String>,
    /// The preedit to submit on "done".
    pub pending_preedit: Option<Preedit>,
}

/// Per-object text-input state.
#[derive(Debug, Clone, PartialEq, Eq)]
pub struct TextInputData {
    pub inner: TextInputDataInner,
}

impl TextInputData {
    /// Fresh state: no focused surface, nothing buffered.
    pub fn new() -> (r: TextInputData)
        ensures
            r.inner.surface is None,
            r.inner.pending_commit is None,
            r.inner.pending_preedit is None,
    {
        TextInputData {
            inner: TextInputDataInner {
                surface: None,
                pending_commit: None,
                pending_preedit: None,
            },
        }
    }

    /// The input method entered a surface.
    pub fn enter(&mut self, surface: SurfaceHandle)
        ensures
            final(self).inner.surface == Some(surface),
            final(self).inner.pending_commit == old(self).inner.pending_commit,
            final(self).inner.pending_preedit == old(self).inner.pending_preedit,
    {
        self.inner.surface = Some(surface);
    }

    /// The input method left its surface.
    pub fn leave(&mut self)
        ensures
            final(self).inner.surface is None,
            final(self).inner.pending_commit == old(self).inner.pending_commit,
            final(self).inner.pending_preedit == old(self).inner.pending_preedit,
    {
        self.inner.surface = None;
    }

    /// The surface the input method occupies, if any.
    pub fn surface(&self) -> (r: Option<SurfaceHandle>)
        ensures
            r == self.inner.surface,
    {
        self.inner.surface
    }

    /// Buffer a commit string. A commit clears any stale buffered
    /// preedit: the "clear-before-new-commit" rule.
    pub fn commit_string(&mut self, text: Option<String>)
        ensures
            final(self).inner.pending_preedit is None,
            final(self).inner.pending_commit == text,
            final(self).inner.surface == old(self).inner.surface,
    {
        self.inner.pending_preedit = None;
        self.inner.pending_commit = text;
    }

    /// Buffer a preedit string with its cursor byte offsets. An offset
    /// that is negative, out of range or not on a character boundary is
    /// dropped, not propagated.
    pub fn preedit_string(&mut self, text: Option<String>, cursor_begin: i32, cursor_end: i32)
        ensures
            final(self).inner.pending_preedit is Some,
            ({
                let p = final(self).inner.pending_preedit->0;
                &&& text is Some ==> p.text@ == text->0@
                &&& text is None ==> p.text@ == Seq::<char>::empty()
                &&& p.cursor_begin == if spec_valid_cursor(p.text@, cursor_begin) {
                    Some(cursor_begin as usize)
                } else {
                    None::<usize>
                }
                &&& p.cursor_end == if spec_valid_cursor(p.text@, cursor_end) {
                    Some(cursor_end as usize)
                } else {
                    None::<usize>
                }
            }),
            final(self).inner.pending_commit == old(self).inner.pending_commit,
            final(self).inner.surface == old(self).inner.surface,
    {
        let text: String = match text {
            Some(t) => t,
            None => String::new(),
        };
        let cursor_begin_validated: Option<usize> = if cursor_begin >= 0 && text.as_str()
            .is_char_boundary(cursor_begin as usize) {
            Some(cursor_begin as usize)
        } else {
            None
        };
        let cursor_end_validated: Option<usize> = if cursor_end >= 0 && text.as_str()
            .is_char_boundary(cursor_end as usize) {
            Some(cursor_end as usize)
        } else {
            None
        };
        self.inner.pending_preedit = Some(
            Preedit {
                text,
                cursor_begin: cursor_begin_validated,
                cursor_end: cursor_end_validated,
            },
        );
    }

    /// The protocol's "done" commit signal: emit the buffered state.
    ///
    /// A buffered commit clears any pending preedit — the stale
    /// preedit is dropped, never shown — and is emitted as a clearing
    /// empty preedit followed by the commit. With no commit buffered,
    /// a buffered preedit is emitted alone; with nothing buffered, the
    /// display is cleared. Both buffers drain.
    pub fn done(&mut self) -> (r: Vec<Ime>)
        ensures
            final(self).inner.surface == old(self).inner.surface,
            final(self).inner.pending_commit is None,
            final(self).inner.pending_preedit is None,
            ({
                let pre = old(self).inner;
                if pre.pending_commit is Some {
                    r@.len() == 2 && r@[0].is_clear_preedit() && r@[1].is_commit_of(
                        pre.pending_commit->0@,
                    )
                } else if pre.pending_preedit is Some {
                    let p = pre.pending_preedit->0;
                    let range = match p.cursor_begin {
                        Some(b) => Some(
                            (
                                b,
                                match p.cursor_end {
                                    Some(e) => e,
                                    None => b,
                                },
                            ),
                        ),
                        None => None::<(usize, usize)>,
                    };
                    r@.len() == 1 && r@[0].is_preedit_of(p.text@, range)
                } else {
                    r@.len() == 1 && r@[0].is_clear_preedit()
                }
            }),
    {
        let mut events: Vec<Ime> = Vec::new();
        if let Some(text) = self.inner.pending_commit.take() {
            self.inner.pending_preedit = None;
            events.push(Ime::Preedit(String::new(), None));
            events.push(Ime::Commit(text));
        } else if let Some(preedit) = self.inner.pending_preedit.take() {
            let cursor_range: Option<(usize, usize)> = match preedit.cursor_begin {
                Some(b) => {
                    let e = match preedit.cursor_end {
                        Some(e) => e,
                        None => b,
                    };
                    Some((b, e))
                },
                None => None,
            };
            events.push(Ime::Preedit(preedit.text, cursor_range));
        } else {
            events.push(Ime::Preedit(String::new(), None));
        }
        events
    }
}

} // verus!
