use crate::surface::{show_button, show_colored_label, show_label};
use vstd::prelude::*;

verus! {

/// Drives one UI surface from the script, frame after frame.
///
/// Frames are numbered by the contexts lent to the script: the context of
/// frame `n` reaches the surface only while frame `n` is in progress. The
/// first failure of the script's draw entry point is kept, and from then on
/// every frame shows the error instead of calling the script.
pub struct Vapo {
    error: Option<String>,
    should_close: bool,
    issued: u64,
    active: bool,
}

/// The heading of the page shown once the script has failed.
pub const ERROR_BANNER: &'static str = "An Error has Occoured!";

/// The label of the control that requests termination.
pub const QUIT_LABEL: &'static str = "Quit";

/// What the error page showed in one frame, and whether termination was
/// requested from it.
pub struct Fallback {
    pub banner: String,
    pub message: String,
    pub control: String,
    pub quit: bool,
}

/// The model of a `Vapo`.
pub struct VapoState {
    /// The captured failure of the draw entry point, once there is one.
    pub error: Option<Seq<char>>,
    pub should_close: bool,
    /// How many frames have lent a context to the script.
    pub issued: nat,
    /// Whether the context of frame `issued` may reach the surface.
    pub active: bool,
}

impl View for Vapo {
    type V = VapoState;

    closed spec fn view(&self) -> VapoState {
        VapoState {
            error: match self.error {
                Some(e) => Some(e@),
                None => None,
            },
            should_close: self.should_close,
            issued: self.issued as nat,
            active: self.active,
        }
    }
}

/// Whether the context lent in frame `frame` may reach the surface.
pub open spec fn is_current(frame: nat, m: VapoState) -> bool {
    m.active && m.issued == frame
}

/// The frame whose context a new frame lends to the script; none once the
/// dispatcher has failed.
pub open spec fn planned(m: VapoState) -> Option<nat> {
    if m.error is None {
        Some(m.issued + 1)
    } else {
        None
    }
}

/// The state at the start of a frame.
pub open spec fn begun(m: VapoState) -> VapoState {
    if m.error is None {
        VapoState { issued: m.issued + 1, active: true, ..m }
    } else {
        VapoState { active: false, ..m }
    }
}

/// The state once no context may reach the surface.
pub open spec fn invalidated(m: VapoState) -> VapoState {
    VapoState { active: false, ..m }
}

/// The state at the end of a frame whose draw call failed with `failure`, if
/// it did: the context is invalidated, and the first failure is kept.
pub open spec fn ended(m: VapoState, failure: Option<Seq<char>>) -> VapoState {
    VapoState {
        active: false,
        error: if m.error is None {
            failure
        } else {
            m.error
        },
        ..m
    }
}

/// One whole frame: the draw call, if one is made, fails with `failure`.
pub open spec fn frame_step(m: VapoState, failure: Option<Seq<char>>) -> VapoState {
    if planned(m) is Some {
        ended(begun(m), failure)
    } else {
        ended(begun(m), None)
    }
}

/// The state after frames whose draw calls fail as `failures` says.
pub open spec fn run_frames(m: VapoState, failures: Seq<Option<Seq<char>>>) -> VapoState
    decreases failures.len(),
{
    if failures.len() == 0 {
        m
    } else {
        run_frames(frame_step(m, failures[0]), failures.drop_first())
    }
}

fn copy_text(s: &String) -> (r: String)
    ensures
        r@ == s@,
{
    s.clone()
}

impl Vapo {
    /// A dispatcher in the normal state, before any frame.
    pub fn new() -> (r: Vapo)
        ensures
            r@ == (VapoState { error: None, should_close: false, issued: 0, active: false }),
    {
        Vapo { error: None, should_close: false, issued: 0, active: false }
    }

    /// The captured failure of the draw entry point, if any.
    pub fn error(&self) -> (r: Option<String>)
        ensures
            match r {
                Some(e) => self@.error == Some(e@),
                None => self@.error is None,
            },
    {
        match &self.error {
            Some(e) => Some(copy_text(e)),
            None => None,
        }
    }

    /// Whether termination was requested.
    pub fn should_close(&self) -> (r: bool)
        ensures
            r == self@.should_close,
    {
        self.should_close
    }

    /// How many frames have lent a context to the script.
    pub fn frames_issued(&self) -> (r: u64)
        ensures
            r == self@.issued,
    {
        self.issued
    }

    pub(crate) fn is_lent(&self, frame: u64) -> (r: bool)
        ensures
            r == is_current(frame as nat, self@),
    {
        self.active && self.issued == frame
    }

    /// Asks the backend to end the frame loop.
    pub fn request_quit(&mut self)
        ensures
            final(self)@ == (VapoState { should_close: true, ..old(self)@ }),
    {
        self.should_close = true;
    }

    /// Starts a frame. In the normal state it lends a fresh context to the
    /// script; once failed it lends none, and the frame shows the error.
    pub fn begin_frame(&mut self) -> (r: Option<crate::frame::GUIData>)
        requires
            old(self)@.error is None ==> old(self)@.issued < u64::MAX,
        ensures
            final(self)@ == begun(old(self)@),
            match r {
                Some(c) => planned(old(self)@) == Some(c.frame()),
                None => planned(old(self)@) is None,
            },
    {
        if self.error.is_none() {
            self.issued = self.issued + 1;
            self.active = true;
            Some(crate::frame::GUIData::lent(self.issued))
        } else {
            self.active = false;
            None
        }
    }

    /// Ends the script's access to the surface; doing so again does nothing.
    pub fn invalidate(&mut self)
        ensures
            final(self)@ == invalidated(old(self)@),
    {
        self.active = false;
    }

    /// Ends a frame: invalidates its context whatever happened, and keeps
    /// `failure`, the draw call's failure message, if it is the first.
    pub fn end_frame(&mut self, failure: Option<String>)
        ensures
            final(self)@ == ended(
                old(self)@,
                match failure {
                    Some(f) => Some(f@),
                    None => None,
                },
            ),
    {
        self.invalidate();
        if self.error.is_none() {
            self.error = failure;
        }
    }

    /// Shows the error banner, the captured message and a control that
    /// requests termination, and returns what was shown and whether that
    /// control was used.
    pub fn render_fallback(&mut self, ui: &mut egui::Ui) -> (r: Fallback)
        requires
            old(self)@.error is Some,
        ensures
            r.banner@ == ERROR_BANNER@,
            Some(r.message@) == old(self)@.error,
            r.control@ == QUIT_LABEL@,
            final(self)@ == (VapoState {
                should_close: old(self)@.should_close || r.quit,
                ..old(self)@
            }),
    {
        let banner = ERROR_BANNER.to_string();
        show_colored_label(ui, egui::Color32::from_rgb(0xaa, 0x66, 0x66), banner.as_str());
        let message = match &self.error {
            Some(e) => copy_text(e),
            None => String::new(),
        };
        show_label(ui, message.as_str());
        let control = QUIT_LABEL.to_string();
        let quit = show_button(ui, control.as_str()).clicked();
        if quit {
            self.request_quit();
        }
        Fallback { banner, message, control, quit }
    }
}

} // verus!

verus! {

/// The context lent by a frame reaches the surface during that frame, and
/// never again: not once the frame ends, nor during the next frame.
pub proof fn lemma_context_expires(m: VapoState, failure: Option<Seq<char>>)
    requires
        m.error is None,
    ensures
        planned(m) matches Some(f) && is_current(f, begun(m)) && !is_current(f, ended(begun(m), failure))
            && !is_current(f, begun(ended(begun(m), failure))),
{
}

/// Once a context is out of its frame, no later frame brings it back.
pub proof fn lemma_stale_context_stays_stale(m: VapoState, f: nat, failures: Seq<Option<Seq<char>>>)
    requires
        f <= m.issued,
        !is_current(f, m),
    ensures
        !is_current(f, run_frames(m, failures)),
        m.issued <= run_frames(m, failures).issued,
    decreases failures.len(),
{
    if failures.len() > 0 {
        lemma_stale_context_stays_stale(frame_step(m, failures[0]), f, failures.drop_first());
    }
}

/// A failed dispatcher stays failed with the same message, whatever the
/// frames that follow.
pub proof fn lemma_error_kept(m: VapoState, failures: Seq<Option<Seq<char>>>)
    requires
        m.error is Some,
    ensures
        run_frames(m, failures).error == m.error,
    decreases failures.len(),
{
    if failures.len() > 0 {
        lemma_error_kept(frame_step(m, failures[0]), failures.drop_first());
    }
}

/// When the draw entry point fails, every later frame shows the error and
/// none calls the script again.
pub proof fn lemma_error_persists(m: VapoState, message: Seq<char>, later: Seq<Option<Seq<char>>>)
    requires
        m.error is None,
    ensures
        frame_step(m, Some(message)).error == Some(message),
        forall|i: int|
            0 <= i <= later.len() ==> #[trigger] planned(run_frames(frame_step(m, Some(message)), later.take(i))) is None,
{
    let failed = frame_step(m, Some(message));
    assert forall|i: int| 0 <= i <= later.len() implies #[trigger] planned(run_frames(failed, later.take(i))) is None by {
        lemma_error_kept(failed, later.take(i));
    }
}

/// Invalidating twice is invalidating once.
pub proof fn lemma_invalidate_idempotent(m: VapoState)
    ensures
        invalidated(invalidated(m)) == invalidated(m),
        invalidated(ended(m, None)) == ended(m, None),
{
}

} // verus!
