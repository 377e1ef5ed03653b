//! Scene session state and the file-load workflow decisions.
//!
//! The session tracks whether a background image is loaded, the active
//! file path, and the lifecycle of an in-progress file-selection dialog.
//! The dialog itself is an unverified collaborator that the frame loop
//! polls once per frame; this module decides, from each poll's report,
//! the next session state and whether a texture load must be issued.

use vstd::prelude::*;

verus! {

/// The lifecycle of the background image: a three-state machine.
#[derive(Clone, Copy, PartialEq, Eq, Structural, Debug)]
pub enum SessionPhase {
    /// No image requested; the Open control is available.
    Empty,
    /// The user clicked Open; a dialog is presented and polled each
    /// frame until it reaches a terminal state.
    DialogOpen,
    /// The dialog resolved to a path; the background image was
    /// requested and the panel hides the Open control, so no further
    /// transition occurs.
    Loaded,
}

/// What one per-frame poll of the file dialog reported.
pub enum DialogPoll {
    /// Not terminal yet; poll again next frame.  A dialog may stay open
    /// for any number of frames.
    StillOpen,
    /// Terminal: `Some(path)` when a file was selected, `None` when the
    /// dialog was dismissed without a selection.
    Resolved(Option<String>),
}

/// The scene session singleton.
pub struct SceneSession {
    pub phase: SessionPhase,
    pub opened_file: Option<String>,
}

/// Mathematical model of the session.
#[verifier::ext_equal]
pub struct SessionModel {
    pub phase: SessionPhase,
    pub opened_file: Option<Seq<char>>,
}

pub open spec fn opt_string_view(o: Option<String>) -> Option<Seq<char>> {
    match o {
        Some(s) => Some(s@),
        None => None,
    }
}

impl View for SceneSession {
    type V = SessionModel;

    open spec fn view(&self) -> SessionModel {
        SessionModel { phase: self.phase, opened_file: opt_string_view(self.opened_file) }
    }
}

/// Session invariant: a file path is recorded exactly when the session
/// is `Loaded` (the path is set at most once, together with the load).
pub open spec fn session_wf(s: SessionModel) -> bool {
    s.opened_file is Some <==> s.phase == SessionPhase::Loaded
}

/// The model of a dialog poll: `None` while the dialog stays open,
/// `Some(resolution)` when it reached a terminal state.
pub open spec fn poll_view(p: DialogPoll) -> Option<Option<Seq<char>>> {
    match p {
        DialogPoll::StillOpen => None,
        DialogPoll::Resolved(r) => Some(opt_string_view(r)),
    }
}

/// The session after one dialog poll.  Only a terminal resolution while
/// the dialog is open changes anything: a selected path is recorded and
/// the session becomes `Loaded`; a dismissal returns it to `Empty`
/// (a permitted edge, even though the editor's own panel never dismisses
/// the dialog).
pub open spec fn session_after_poll(
    s: SessionModel,
    p: Option<Option<Seq<char>>>,
) -> SessionModel {
    if s.phase == SessionPhase::DialogOpen {
        match p {
            Some(Some(path)) => SessionModel { phase: SessionPhase::Loaded, opened_file: Some(path) },
            Some(None) => SessionModel { phase: SessionPhase::Empty, ..s },
            None => s,
        }
    } else {
        s
    }
}

/// The texture load that one dialog poll makes owed: exactly the
/// selected path, exactly when the dialog was open and resolved to one.
pub open spec fn load_after_poll(
    s: SessionModel,
    p: Option<Option<Seq<char>>>,
) -> Option<Seq<char>> {
    if s.phase == SessionPhase::DialogOpen {
        match p {
            Some(Some(path)) => Some(path),
            _ => None,
        }
    } else {
        None
    }
}

impl SceneSession {
    /// A fresh session: nothing loaded, no file, no dialog.
    pub fn new() -> (s: SceneSession)
        ensures
            s@.phase == SessionPhase::Empty,
            s@.opened_file is None,
            session_wf(s@),
    {
        SceneSession { phase: SessionPhase::Empty, opened_file: None }
    }

    /// Whether the background image has been requested.
    pub fn loaded(&self) -> (b: bool)
        ensures
            b == (self@.phase == SessionPhase::Loaded),
    {
        self.phase == SessionPhase::Loaded
    }

    /// Handle a click of the Open control: the transition to
    /// `DialogOpen` fires exactly when the session is `Empty`; any other
    /// phase ignores the click.  Returns whether a dialog must now be
    /// instantiated and presented.
    pub fn request_open(&mut self) -> (accepted: bool)
        ensures
            accepted == (old(self)@.phase == SessionPhase::Empty),
            final(self)@.phase == (if accepted {
                SessionPhase::DialogOpen
            } else {
                old(self)@.phase
            }),
            final(self)@.opened_file == old(self)@.opened_file,
            session_wf(old(self)@) ==> session_wf(final(self)@),
    {
        if self.phase == SessionPhase::Empty {
            self.phase = SessionPhase::DialogOpen;
            true
        } else {
            false
        }
    }

    /// Advance the file-load workflow with what this frame's poll of
    /// the dialog reported.  Returns the path whose texture load must be
    /// issued now, if any; the caller issues it exactly once, since the
    /// session leaves `DialogOpen` in the same step.
    pub fn advance_dialog(&mut self, poll: DialogPoll) -> (load: Option<String>)
        ensures
            final(self)@ == session_after_poll(old(self)@, poll_view(poll)),
            opt_string_view(load) == load_after_poll(old(self)@, poll_view(poll)),
            session_wf(old(self)@) ==> session_wf(final(self)@),
    {
        if self.phase == SessionPhase::DialogOpen {
            match poll {
                DialogPoll::Resolved(Some(path)) => {
                    self.opened_file = Some(path.clone());
                    self.phase = SessionPhase::Loaded;
                    Some(path)
                },
                DialogPoll::Resolved(None) => {
                    self.phase = SessionPhase::Empty;
                    None
                },
                DialogPoll::StillOpen => None,
            }
        } else {
            None
        }
    }
}

} // verus!
