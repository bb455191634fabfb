//! The decisions of the event loop: what each host lifecycle signal sets off,
//! when to show or hide the soft keyboard, what the toolkit's viewport
//! commands and widget output ask of the host, and when the loop ends.
//!
//! The caller polls the host, hands each signal to `Runner::process_event`,
//! carries out the actions in order, and repaints when the repaint schedule
//! says so, at most once per poll.

use vstd::prelude::*;

verus! {

/// A signal from the host's event queue.
#[derive(Clone, Copy, Debug, PartialEq, Eq, Structural)]
pub enum HostEvent {
    /// The loop was woken.
    Wake,
    /// The poll timed out.
    Timeout,
    Destroy,
    InitWindow,
    TerminateWindow,
    Stop,
    WindowResized,
    GainedFocus,
    LostFocus,
    RedrawNeeded,
    LowMemory,
    ContentRectChanged,
    ConfigChanged,
    InputAvailable,
    /// The activity is about to be suspended: its state may be saved.
    SaveState,
    /// The activity resumes: saved state may be loaded.
    Resume,
    /// Any other signal, which is ignored.
    Other,
}

/// A step that the caller carries out for a host signal.
#[derive(Clone, Copy, Debug, PartialEq, Eq, Structural)]
pub enum RunnerAction {
    /// Read the host configuration into the toolkit input.
    ApplyConfig,
    /// Attach the host's window, where it has one, to the graphics surface.
    AttachWindow,
    /// Detach the window from the graphics surface.
    DetachWindow,
    /// Resize the drawing surface to the window.
    ResizeSurface,
    /// Ask the toolkit for a repaint.
    RequestRepaint,
    /// Report a change of focus to the toolkit.
    UpdateFocus(bool),
    /// Tell the application that memory runs low.
    NotifyLowMemory,
    /// Tell the application that the content area changed.
    NotifyContentRect,
    /// Translate the host's pending input events.
    ProcessInput,
    /// Save the toolkit's memory in the host's state buffer.
    SaveMemory,
    /// Load the toolkit's memory from the host's state buffer.
    LoadMemory,
}

/// The actions for a host signal, in order.
pub open spec fn event_actions(event: HostEvent) -> Seq<RunnerAction> {
    match event {
        HostEvent::Wake => seq![],
        HostEvent::Timeout => seq![RunnerAction::RequestRepaint],
        HostEvent::Destroy => seq![RunnerAction::DetachWindow],
        HostEvent::InitWindow => seq![
            RunnerAction::ApplyConfig,
            RunnerAction::AttachWindow,
            RunnerAction::RequestRepaint,
        ],
        HostEvent::TerminateWindow => seq![RunnerAction::DetachWindow],
        HostEvent::Stop => seq![RunnerAction::DetachWindow],
        HostEvent::WindowResized => seq![
            RunnerAction::ApplyConfig,
            RunnerAction::ResizeSurface,
            RunnerAction::RequestRepaint,
        ],
        HostEvent::GainedFocus => seq![RunnerAction::UpdateFocus(true), RunnerAction::RequestRepaint],
        HostEvent::LostFocus => seq![RunnerAction::UpdateFocus(false), RunnerAction::RequestRepaint],
        HostEvent::RedrawNeeded => seq![RunnerAction::RequestRepaint],
        HostEvent::LowMemory => seq![RunnerAction::NotifyLowMemory],
        HostEvent::ContentRectChanged => seq![RunnerAction::NotifyContentRect, RunnerAction::ApplyConfig],
        HostEvent::ConfigChanged => seq![RunnerAction::ApplyConfig, RunnerAction::RequestRepaint],
        HostEvent::InputAvailable => seq![RunnerAction::ProcessInput, RunnerAction::RequestRepaint],
        HostEvent::SaveState => seq![RunnerAction::SaveMemory],
        HostEvent::Resume => seq![RunnerAction::LoadMemory],
        HostEvent::Other => seq![],
    }
}

/// A call on the host's soft keyboard.
#[derive(Clone, Copy, Debug, PartialEq, Eq, Structural)]
pub enum KeyboardCall {
    Show,
    Hide,
}

/// A viewport command of the toolkit, as far as the host acts on it.
#[derive(Clone, Copy, Debug, PartialEq, Eq, Structural)]
pub enum ViewportRequest {
    Close,
    CancelClose,
    Fullscreen(bool),
    MousePassthrough(bool),
    RequestPaste,
    /// Any other command, which is ignored.
    Other,
}

/// A window flag of the host.
#[derive(Clone, Copy, Debug, PartialEq, Eq, Structural)]
pub enum WindowFlag {
    Fullscreen,
    NotFocusable,
}

/// A host call that a viewport command asks for.
#[derive(Clone, Copy, Debug, PartialEq, Eq, Structural)]
pub enum ViewportEffect {
    /// Set (`on`) or clear a window flag.
    SetWindowFlag { flag: WindowFlag, on: bool },
    /// Read the clipboard, hand its text to the toolkit as a paste, and ask
    /// for a repaint.
    PasteFromClipboard,
}

/// What the host is asked for by a viewport command.
pub open spec fn viewport_effect_of(cmd: ViewportRequest) -> Option<ViewportEffect> {
    match cmd {
        ViewportRequest::Fullscreen(on) => Some(
            ViewportEffect::SetWindowFlag { flag: WindowFlag::Fullscreen, on },
        ),
        ViewportRequest::MousePassthrough(on) => Some(
            ViewportEffect::SetWindowFlag { flag: WindowFlag::NotFocusable, on },
        ),
        ViewportRequest::RequestPaste => Some(ViewportEffect::PasteFromClipboard),
        _ => None,
    }
}

/// Whether the loop is to end after a viewport command, given whether it was
/// to end before.
pub open spec fn close_after(closing: bool, cmd: ViewportRequest) -> bool {
    match cmd {
        ViewportRequest::Close => true,
        ViewportRequest::CancelClose => false,
        _ => closing,
    }
}

/// The keyboard call for a frame, from whether the toolkit wants text input
/// and whether the keyboard is shown: a call only where the two differ.
pub open spec fn keyboard_call_of(ime_requested: bool, visible: bool) -> Option<KeyboardCall> {
    if ime_requested && !visible {
        Some(KeyboardCall::Show)
    } else if !ime_requested && visible {
        Some(KeyboardCall::Hide)
    } else {
        None
    }
}

/// The state that the event loop keeps between host signals.
pub struct Runner {
    keyboard_visible: bool,
    close_requested: bool,
}

impl Runner {
    /// Whether the soft keyboard is shown, as far as the loop knows.
    pub closed spec fn keyboard_shown(&self) -> bool {
        self.keyboard_visible
    }

    /// Whether the loop is to end.
    pub closed spec fn closing(&self) -> bool {
        self.close_requested
    }

    /// A loop that has just started: keyboard hidden, not closing.
    pub fn new() -> (r: Runner)
        ensures
            !r.keyboard_shown(),
            !r.closing(),
    {
        Runner { keyboard_visible: false, close_requested: false }
    }

    /// Whether the loop is to end.
    pub fn close_requested(&self) -> (r: bool)
        ensures
            r == self.closing(),
    {
        self.close_requested
    }

    /// The actions for a host signal. `Destroy` also ends the loop.
    pub fn process_event(&mut self, event: HostEvent) -> (r: Vec<RunnerAction>)
        ensures
            r@ == event_actions(event),
            final(self).closing() == (old(self).closing() || event == HostEvent::Destroy),
            final(self).keyboard_shown() == old(self).keyboard_shown(),
    {
        let mut actions: Vec<RunnerAction> = Vec::new();
        match event {
            HostEvent::Wake => {},
            HostEvent::Timeout => {
                actions.push(RunnerAction::RequestRepaint);
            },
            HostEvent::Destroy => {
                actions.push(RunnerAction::DetachWindow);
                self.close_requested = true;
            },
            HostEvent::InitWindow => {
                actions.push(RunnerAction::ApplyConfig);
                actions.push(RunnerAction::AttachWindow);
                actions.push(RunnerAction::RequestRepaint);
            },
            HostEvent::TerminateWindow | HostEvent::Stop => {
                actions.push(RunnerAction::DetachWindow);
            },
            HostEvent::WindowResized => {
                actions.push(RunnerAction::ApplyConfig);
                actions.push(RunnerAction::ResizeSurface);
                actions.push(RunnerAction::RequestRepaint);
            },
            HostEvent::GainedFocus => {
                actions.push(RunnerAction::UpdateFocus(true));
                actions.push(RunnerAction::RequestRepaint);
            },
            HostEvent::LostFocus => {
                actions.push(RunnerAction::UpdateFocus(false));
                actions.push(RunnerAction::RequestRepaint);
            },
            HostEvent::RedrawNeeded => {
                actions.push(RunnerAction::RequestRepaint);
            },
            HostEvent::LowMemory => {
                actions.push(RunnerAction::NotifyLowMemory);
            },
            HostEvent::ContentRectChanged => {
                actions.push(RunnerAction::NotifyContentRect);
                actions.push(RunnerAction::ApplyConfig);
            },
            HostEvent::ConfigChanged => {
                actions.push(RunnerAction::ApplyConfig);
                actions.push(RunnerAction::RequestRepaint);
            },
            HostEvent::InputAvailable => {
                actions.push(RunnerAction::ProcessInput);
                actions.push(RunnerAction::RequestRepaint);
            },
            HostEvent::SaveState => {
                actions.push(RunnerAction::SaveMemory);
            },
            HostEvent::Resume => {
                actions.push(RunnerAction::LoadMemory);
            },
            HostEvent::Other => {},
        }
        assert(actions@ =~= event_actions(event));
        actions
    }

    /// The keyboard call after a frame in which the toolkit did
    /// (`ime_requested`) or did not want text input. The call is made only
    /// where the wish differs from what is shown, so that the host is not
    /// asked twice; the caller asks for a repaint after a call.
    pub fn keyboard_request(&mut self, ime_requested: bool) -> (r: Option<KeyboardCall>)
        ensures
            r == keyboard_call_of(ime_requested, old(self).keyboard_shown()),
            final(self).keyboard_shown() == ime_requested,
            final(self).closing() == old(self).closing(),
    {
        if ime_requested && !self.keyboard_visible {
            self.keyboard_visible = true;
            Some(KeyboardCall::Show)
        } else if !ime_requested && self.keyboard_visible {
            self.keyboard_visible = false;
            Some(KeyboardCall::Hide)
        } else {
            None
        }
    }

    /// Acts on a viewport command of the toolkit: `Close` and `CancelClose`
    /// set whether the loop ends; the others may ask for a host call.
    pub fn viewport_command(&mut self, cmd: ViewportRequest) -> (r: Option<ViewportEffect>)
        ensures
            r == viewport_effect_of(cmd),
            final(self).closing() == close_after(old(self).closing(), cmd),
            final(self).keyboard_shown() == old(self).keyboard_shown(),
    {
        match cmd {
            ViewportRequest::Close => {
                self.close_requested = true;
                None
            },
            ViewportRequest::CancelClose => {
                self.close_requested = false;
                None
            },
            ViewportRequest::Fullscreen(on) => Some(
                ViewportEffect::SetWindowFlag { flag: WindowFlag::Fullscreen, on },
            ),
            ViewportRequest::MousePassthrough(on) => Some(
                ViewportEffect::SetWindowFlag { flag: WindowFlag::NotFocusable, on },
            ),
            ViewportRequest::RequestPaste => Some(ViewportEffect::PasteFromClipboard),
            ViewportRequest::Other => None,
        }
    }
}

/// The keyboard is shown once for a run of frames that want text input: the
/// first such frame makes one call, each further frame none; the same holds of
/// hiding.
pub proof fn lemma_keyboard_calls_once(ime_requested: bool, visible: bool)
    ensures
        keyboard_call_of(ime_requested, visible) is Some ==> keyboard_call_of(
            ime_requested,
            ime_requested,
        ) is None,
        keyboard_call_of(ime_requested, ime_requested) is None,
        ime_requested && !visible ==> keyboard_call_of(ime_requested, visible) == Some(
            KeyboardCall::Show,
        ),
        !ime_requested && visible ==> keyboard_call_of(ime_requested, visible) == Some(
            KeyboardCall::Hide,
        ),
{
}

} // verus!
