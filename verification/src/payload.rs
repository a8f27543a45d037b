//! What travels to the main window with an event.

use vstd::prelude::*;

verus! {

/// The payload of a tray event: what happened, and a value that goes with it.
#[derive(Clone, Debug, PartialEq, Eq)]
pub struct IconTrayPayload {
    message: String,
    data: Option<String>,
}

/// A tray payload as plain values.
pub struct IconTrayPayloadView {
    pub message: Seq<char>,
    pub data: Option<Seq<char>>,
}

/// An optional text as plain values.
pub open spec fn text_view(text: Option<String>) -> Option<Seq<char>> {
    match text {
        Some(value) => Some(value@),
        None => None,
    }
}

impl View for IconTrayPayload {
    type V = IconTrayPayloadView;

    closed spec fn view(&self) -> IconTrayPayloadView {
        IconTrayPayloadView { message: self.message@, data: text_view(self.data) }
    }
}

impl IconTrayPayload {
    /// A payload with the given message and data.
    pub fn new(message: &str, data: Option<String>) -> (payload: IconTrayPayload)
        ensures
            payload@.message == message@,
            payload@.data == text_view(data),
    {
        IconTrayPayload { message: message.to_owned(), data }
    }

    pub fn message(&self) -> (message: &str)
        ensures
            message@ == self@.message,
    {
        self.message.as_str()
    }

    pub fn data(&self) -> (data: &Option<String>)
        ensures
            text_view(*data) == self@.data,
    {
        &self.data
    }
}

/// The arguments and working directory of a second launch, as the first
/// process receives them.
#[derive(Clone, Debug, PartialEq, Eq)]
pub struct SingleInstancePayload {
    pub args: Vec<String>,
    pub cwd: String,
}

/// A list of texts as plain values.
pub open spec fn texts_view(texts: Seq<String>) -> Seq<Seq<char>> {
    texts.map_values(|text: String| text@)
}

/// A relaunch payload as plain values.
pub struct SingleInstancePayloadView {
    pub args: Seq<Seq<char>>,
    pub cwd: Seq<char>,
}

impl View for SingleInstancePayload {
    type V = SingleInstancePayloadView;

    open spec fn view(&self) -> SingleInstancePayloadView {
        SingleInstancePayloadView { args: texts_view(self.args@), cwd: self.cwd@ }
    }
}

} // verus!
