//! The host's text input state, kept in step with the toolkit's widget output.
//!
//! When a text field is clicked, its text changes, or its selection moves, the
//! host's input method is told the field's text and selection.

use vstd::prelude::*;

verus! {

/// What happened to a widget, as far as text input cares.
#[derive(Clone, Copy, Debug, PartialEq, Eq, Structural)]
pub enum WidgetEventKind {
    Clicked,
    TextSelectionChanged,
    ValueChanged,
    /// Any other output event, which is ignored.
    Other,
}

/// A widget output event of the toolkit.
#[derive(Clone, Debug)]
pub struct WidgetEvent {
    pub kind: WidgetEventKind,
    /// Whether the widget is a text field.
    pub is_text_edit: bool,
    /// The widget's current text, where it has one.
    pub text: Option<String>,
    /// The selected character range, first and last, where there is one.
    pub selection: Option<(usize, usize)>,
}

/// The text and selection handed to the host's input method.
#[derive(Clone, Debug)]
pub struct TextInputState {
    pub text: String,
    pub selection_start: usize,
    pub selection_end: usize,
}

impl View for TextInputState {
    type V = (Seq<char>, usize, usize);

    open spec fn view(&self) -> (Seq<char>, usize, usize) {
        (self.text@, self.selection_start, self.selection_end)
    }
}

/// A widget's text, or the empty text.
pub open spec fn text_or_empty(text: Option<String>) -> Seq<char> {
    match text {
        Some(t) => t@,
        None => Seq::empty(),
    }
}

/// The text input state that a widget event sets on the host, if any. A click
/// sets the field's text (the empty text for a widget that is no text field);
/// a change of selection sets the text and the selection; a change of value
/// of a text field sets its text. The selection is empty where none is given.
pub open spec fn text_input_of(e: WidgetEvent) -> Option<(Seq<char>, usize, usize)> {
    match e.kind {
        WidgetEventKind::Clicked => Some(
            (
                if e.is_text_edit {
                    text_or_empty(e.text)
                } else {
                    Seq::empty()
                },
                0,
                0,
            ),
        ),
        WidgetEventKind::TextSelectionChanged => Some(
            (
                text_or_empty(e.text),
                match e.selection {
                    Some(s) => s.0,
                    None => 0,
                },
                match e.selection {
                    Some(s) => s.1,
                    None => 0,
                },
            ),
        ),
        WidgetEventKind::ValueChanged => if e.is_text_edit {
            Some((text_or_empty(e.text), 0, 0))
        } else {
            None
        },
        WidgetEventKind::Other => None,
    }
}

/// The text, or the empty text.
fn take_text(text: Option<String>) -> (r: String)
    ensures
        r@ == text_or_empty(text),
{
    match text {
        Some(t) => t,
        None => String::new(),
    }
}

/// The text input state to set on the host for a widget event, if any.
pub fn text_input_update(event: WidgetEvent) -> (r: Option<TextInputState>)
    ensures
        (match r {
            Some(s) => Some(s@),
            None => None,
        }) == text_input_of(event),
{
    let WidgetEvent { kind, is_text_edit, text, selection } = event;
    match kind {
        WidgetEventKind::Clicked => {
            let text = if is_text_edit {
                take_text(text)
            } else {
                String::new()
            };
            Some(TextInputState { text, selection_start: 0, selection_end: 0 })
        },
        WidgetEventKind::TextSelectionChanged => {
            let (selection_start, selection_end) = match selection {
                Some(s) => s,
                None => (0, 0),
            };
            Some(TextInputState { text: take_text(text), selection_start, selection_end })
        },
        WidgetEventKind::ValueChanged => if is_text_edit {
            Some(TextInputState { text: take_text(text), selection_start: 0, selection_end: 0 })
        } else {
            None
        },
        WidgetEventKind::Other => None,
    }
}

} // verus!
