//! The drag-selection state machine.
//!
//! A session starts idle, becomes active on a left-button press, records the
//! first movement as the drag start and every later movement as the drag
//! end, and commits on release: if both endpoints were recorded the spanned
//! rectangle is handed to the shell for capture, otherwise nothing is.
//! Either way the release fully resets the session and tells the shell to
//! finish.

use vstd::prelude::*;

use crate::geometry::{PointerPosition, SelectionRectangle};

verus! {

/// The ephemeral record of one press-to-release pointer interaction.
#[derive(Clone, Copy, Debug, PartialEq, Eq)]
pub struct DragSession {
    /// The left button is currently held down.
    pub is_active: bool,
    /// Where the first movement after the press happened, set once per session.
    pub start: Option<PointerPosition>,
    /// Where the most recent movement happened.
    pub end: Option<PointerPosition>,
}

/// A raw input event as the windowing substrate delivers it.
#[derive(Clone, Copy, Debug, PartialEq, Eq)]
pub enum InputEvent {
    /// The left pointer button went down.
    LeftPress,
    /// The left pointer button came up.
    LeftRelease,
    /// The pointer moved to the given position.
    PointerMove(PointerPosition),
    /// The window was asked to close.
    CloseRequested,
}

/// What the application shell must do after an event has been absorbed.
#[derive(Clone, Copy, Debug, PartialEq, Eq)]
pub enum ShellAction {
    /// Nothing to do; keep waiting for events.
    Continue,
    /// Redraw the overlay with the current selection.
    Redraw,
    /// The drag ended: run the capture pipeline on the rectangle if one was
    /// selected, then terminate.  `None` means the drag never recorded a
    /// movement, so no capture must be attempted.
    Finish(Option<SelectionRectangle>),
    /// Terminate immediately without capturing anything.
    Exit,
}

impl DragSession {
    /// Start and end are recorded together, only while a drag is active or
    /// being committed: an inactive session holds no endpoints.
    pub open spec fn wf(self) -> bool {
        &&& !self.is_active ==> self.start is None && self.end is None
        &&& self.start is Some <==> self.end is Some
    }
}

/// The rectangle a release would commit: present exactly when both drag
/// endpoints have been recorded.
pub open spec fn spec_committed_rectangle(s: DragSession) -> Option<SelectionRectangle> {
    match (s.start, s.end) {
        (Some(a), Some(b)) => Some(SelectionRectangle::spec_from_points(a, b)),
        _ => None,
    }
}

/// The transition relation of the state machine: the session after an event,
/// and the action the shell owes for it.
pub open spec fn spec_handle_event(s: DragSession, e: InputEvent) -> (DragSession, ShellAction) {
    match e {
        InputEvent::LeftPress => (
            DragSession { is_active: true, start: s.start, end: s.end },
            ShellAction::Continue,
        ),
        InputEvent::PointerMove(p) => if s.is_active {
            (
                DragSession {
                    is_active: true,
                    start: if s.start is Some { s.start } else { Some(p) },
                    end: Some(p),
                },
                ShellAction::Redraw,
            )
        } else {
            (s, ShellAction::Continue)
        },
        InputEvent::LeftRelease => (
            DragSession { is_active: false, start: None, end: None },
            ShellAction::Finish(spec_committed_rectangle(s)),
        ),
        InputEvent::CloseRequested => (s, ShellAction::Exit),
    }
}

impl DragSession {
    /// A fresh, idle session with no endpoints recorded.
    pub fn new() -> (s: DragSession)
        ensures
            !s.is_active,
            s.start is None,
            s.end is None,
            s.wf(),
    {
        DragSession { is_active: false, start: None, end: None }
    }

    /// The rectangle the current endpoints span, for redrawing the overlay;
    /// present exactly when both endpoints have been recorded.
    pub fn current_selection(&self) -> (r: Option<SelectionRectangle>)
        ensures
            r == spec_committed_rectangle(*self),
    {
        match (self.start, self.end) {
            (Some(a), Some(b)) => Some(SelectionRectangle::from_points(a, b)),
            _ => None,
        }
    }

    /// Absorbs one input event and returns what the shell must do next.
    ///
    /// A press activates the session; a movement while active records the
    /// drag start once and the drag end every time and asks for a redraw;
    /// movements while idle are ignored; a release commits the spanned
    /// rectangle when both endpoints exist, resets the session and tells
    /// the shell to finish; a close request tells it to exit untouched.
    pub fn handle_event(&mut self, e: InputEvent) -> (a: ShellAction)
        ensures
            *final(self) == spec_handle_event(*old(self), e).0,
            a == spec_handle_event(*old(self), e).1,
            old(self).wf() ==> final(self).wf(),
    {
        match e {
            InputEvent::LeftPress => {
                self.is_active = true;
                ShellAction::Continue
            }
            InputEvent::PointerMove(p) => {
                if self.is_active {
                    if self.start.is_none() {
                        self.start = Some(p);
                    }
                    self.end = Some(p);
                    ShellAction::Redraw
                } else {
                    ShellAction::Continue
                }
            }
            InputEvent::LeftRelease => {
                let committed = match (self.start, self.end) {
                    (Some(a), Some(b)) => Some(SelectionRectangle::from_points(a, b)),
                    _ => None,
                };
                self.is_active = false;
                self.start = None;
                self.end = None;
                ShellAction::Finish(committed)
            }
            InputEvent::CloseRequested => ShellAction::Exit,
        }
    }
}

/// A release that was never preceded by a movement commits no rectangle, so
/// the shell is never told to run the capture pipeline for it.
pub proof fn lemma_release_without_move_commits_nothing(s: DragSession)
    requires
        s.start is None || s.end is None,
    ensures
        spec_handle_event(s, InputEvent::LeftRelease).1 == ShellAction::Finish(None::<SelectionRectangle>),
{
}

/// Every release — whether or not a rectangle was selected — fully resets
/// the session and directs the shell to finish.
pub proof fn lemma_release_resets_session(s: DragSession)
    ensures
        !spec_handle_event(s, InputEvent::LeftRelease).0.is_active,
        spec_handle_event(s, InputEvent::LeftRelease).0.start is None,
        spec_handle_event(s, InputEvent::LeftRelease).0.end is None,
        spec_handle_event(s, InputEvent::LeftRelease).0.wf(),
        spec_handle_event(s, InputEvent::LeftRelease).1 matches ShellAction::Finish(_),
{
}

} // verus!
