use vstd::prelude::*;

use crate::gfx::{CanvasError, TextureLoadError};

verus! {

/// Internal SDL error. This usually means something in backend went wrong.
#[derive(Debug)]
pub struct SdlError(String);

impl View for SdlError {
    type V = Seq<char>;

    /// The text that the backend gave for the failure.
    closed spec fn view(&self) -> Seq<char> {
        self.0@
    }
}

impl SdlError {
    /// What [`SdlError::message`] returns for an error with the text `text`.
    pub open spec fn spec_message(text: Seq<char>) -> Seq<char> {
        "SDL error: "@ + text
    }

    /// An error that carries the text `msg` reported by the backend.
    pub fn new(msg: String) -> (e: Self)
        ensures
            e@ == msg@,
    {
        Self(msg)
    }

    /// The text reported by the backend.
    pub fn text(&self) -> (s: &str)
        ensures
            s@ == self@,
    {
        self.0.as_str()
    }

    /// A description of this error for people to read.
    pub fn message(&self) -> (s: String)
        ensures
            s@ == Self::spec_message(self@),
    {
        String::from_str("SDL error: ").concat(self.0.as_str())
    }
}

/// Common errors from the library.
#[derive(Debug)]
pub enum Error {
    /// Failed to initialise a window and renderer for the canvas. This system might not be
    /// supported.
    Canvas(CanvasError),
    /// Failed to load a texture. It could be missing, corrupted, or have an unsupported format.
    TextureLoad(TextureLoadError),
}

impl Error {
    /// A description of this error for people to read: what failed, then
    /// the description of the cause.
    pub fn message(&self) -> (s: String)
        ensures
            match *self {
                Error::Canvas(e) => s@ == "Failed to initialise canvas: "@ + e.spec_message(),
                Error::TextureLoad(e) => exists|cause: Seq<char>|
                    e.describes(cause) && s@ == "Failed to load texture: "@ + cause,
            },
    {
        match self {
            Error::Canvas(e) => {
                let cause = e.message();
                String::from_str("Failed to initialise canvas: ").concat(cause.as_str())
            },
            Error::TextureLoad(e) => {
                let cause = e.message();
                String::from_str("Failed to load texture: ").concat(cause.as_str())
            },
        }
    }
}

impl From<CanvasError> for Error {
    fn from(e: CanvasError) -> (r: Self) {
        Error::Canvas(e)
    }
}

impl vstd::std_specs::convert::FromSpecImpl<CanvasError> for Error {
    open spec fn obeys_from_spec() -> bool {
        true
    }

    open spec fn from_spec(e: CanvasError) -> Self {
        Error::Canvas(e)
    }
}

impl From<TextureLoadError> for Error {
    fn from(e: TextureLoadError) -> (r: Self) {
        Error::TextureLoad(e)
    }
}

impl vstd::std_specs::convert::FromSpecImpl<TextureLoadError> for Error {
    open spec fn obeys_from_spec() -> bool {
        true
    }

    open spec fn from_spec(e: TextureLoadError) -> Self {
        Error::TextureLoad(e)
    }
}

} // verus!
