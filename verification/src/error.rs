//! The errors that the binding reports to its callers.

use vstd::prelude::*;
use vstd::string::StringExecFns;
use crate::wire::{Value, ValueView};

verus! {

pub type Result<T> = std::result::Result<T, Error>;

#[derive(Debug)]
pub enum Error {
    /// An image could not be loaded: the engine reported the given failure.
    LoadImage(Value),
    /// A GeoJSON document could not be turned into a wire value.
    BadGeoJson(String),
    /// A payload does not fit the named event type, for the given reason.
    BadEventFormat(&'static str, String),
    /// A resource that the binding relies on was not available.
    Unexpected(String),
    /// A value could not be converted to or from its wire form.
    JsError(String),
}

/// An error as a mathematical term.
pub enum ErrorView {
    LoadImage(ValueView),
    BadGeoJson(Seq<char>),
    BadEventFormat(Seq<char>, Seq<char>),
    Unexpected(Seq<char>),
    JsError(Seq<char>),
}

impl View for Error {
    type V = ErrorView;

    open spec fn view(&self) -> ErrorView {
        match self {
            Error::LoadImage(failure) => ErrorView::LoadImage(failure@),
            Error::BadGeoJson(reason) => ErrorView::BadGeoJson(reason@),
            Error::BadEventFormat(event, reason) => ErrorView::BadEventFormat(event@, reason@),
            Error::Unexpected(reason) => ErrorView::Unexpected(reason@),
            Error::JsError(reason) => ErrorView::JsError(reason@),
        }
    }
}

impl ErrorView {
    /// The text that describes the error to a reader. A failure to load an
    /// image is described by the text that the engine reported, where it
    /// reported a text.
    pub open spec fn message(self) -> Seq<char> {
        match self {
            ErrorView::LoadImage(failure) => match failure {
                ValueView::String(text) => "Failed to load image: "@ + text,
                _ => "Failed to load image"@,
            },
            ErrorView::BadGeoJson(reason) => "Bad GeoJSON: "@ + reason,
            ErrorView::BadEventFormat(event, reason) => "The object is not compatible to "@ + event
                + ": "@ + reason,
            ErrorView::Unexpected(reason) => "Error: "@ + reason,
            ErrorView::JsError(reason) => "JsError: "@ + reason,
        }
    }
}

impl Error {
    /// The text that describes the error to a reader.
    pub fn message(&self) -> (text: String)
        ensures
            text@ == self@.message(),
    {
        match self {
            Error::LoadImage(failure) => match failure {
                Value::String(text) => String::from_str("Failed to load image: ").concat(
                    text.as_str(),
                ),
                _ => String::from_str("Failed to load image"),
            },
            Error::BadGeoJson(reason) => String::from_str("Bad GeoJSON: ").concat(reason.as_str()),
            Error::BadEventFormat(event, reason) => String::from_str(
                "The object is not compatible to ",
            ).concat(event).concat(": ").concat(reason.as_str()),
            Error::Unexpected(reason) => String::from_str("Error: ").concat(reason.as_str()),
            Error::JsError(reason) => String::from_str("JsError: ").concat(reason.as_str()),
        }
    }
}

} // verus!
