//! What can go wrong on and around a surface.

use vstd::prelude::*;
use vstd::std_specs::convert::FromSpecImpl;

verus! {

/// A position that lies outside the surface it was used on.
#[derive(Clone, Copy, Debug, PartialEq, Eq, Structural)]
pub struct IndexError {
    /// The column that was asked for.
    pub x: u32,
    /// The row that was asked for.
    pub y: u32,
    /// The width of the surface.
    pub width: u32,
    /// The height of the surface.
    pub height: u32,
}

/// Why a surface and its window could not be set up. Each case carries the
/// text of the failure that the windowing layer reported.
#[derive(Clone, Debug, PartialEq, Eq)]
pub enum InitError {
    /// The windowing layer, its video part or its event source did not start.
    Sdl2InitError(String),
    /// The window could not be built.
    WindowBuildError(String),
    /// The renderer could not be made from the window.
    CanvasBuildError(String),
}

/// Why a frame did not reach the screen. Each case carries the text of the
/// failure that the renderer reported.
#[derive(Clone, Debug, PartialEq, Eq)]
pub enum PresentationError {
    /// Drawing the texture onto the render target failed.
    CanvasCopy(String),
    /// Uploading the frame into the texture failed.
    TextureUpdate(String),
    /// The texture could not be created.
    TextureValue(String),
    /// Saving the render target as a bitmap failed.
    SaveCanvasBMP(String),
}

/// Why a frame could not be saved as an image file.
#[derive(Clone, Debug, PartialEq, Eq)]
pub enum SaveImageError {
    /// Encoding or writing failed; the text is the encoder's report.
    SaveBMP(String),
}

impl InitError {
    /// The text shown for the error.
    pub open spec fn message_text(self) -> Seq<char> {
        match self {
            InitError::Sdl2InitError(msg) => msg@,
            InitError::WindowBuildError(_) => "failed to build the sdl2 window"@,
            InitError::CanvasBuildError(_) =>
                "failed to create the sdl2 canvas from the window for internal drawing"@,
        }
    }

    /// The text reported by the layer that failed.
    pub open spec fn cause_text(self) -> Seq<char> {
        match self {
            InitError::Sdl2InitError(msg) => msg@,
            InitError::WindowBuildError(msg) => msg@,
            InitError::CanvasBuildError(msg) => msg@,
        }
    }

    /// The text to show for the error: the reported failure itself where the
    /// windowing layer did not start, else the step that failed.
    pub fn message(&self) -> (text: String)
        ensures
            text@ == self.message_text(),
    {
        match self {
            InitError::Sdl2InitError(msg) => msg.clone(),
            InitError::WindowBuildError(_) => "failed to build the sdl2 window".to_owned(),
            InitError::CanvasBuildError(_) =>
                "failed to create the sdl2 canvas from the window for internal drawing".to_owned(),
        }
    }

    /// The failure as the windowing layer reported it.
    pub fn cause(&self) -> (text: String)
        ensures
            text@ == self.cause_text(),
    {
        match self {
            InitError::Sdl2InitError(msg) => msg.clone(),
            InitError::WindowBuildError(msg) => msg.clone(),
            InitError::CanvasBuildError(msg) => msg.clone(),
        }
    }
}

impl From<String> for InitError {
    /// A bare failure text stands for a windowing layer that did not start.
    fn from(msg: String) -> (e: InitError) {
        InitError::Sdl2InitError(msg)
    }
}

impl FromSpecImpl<String> for InitError {
    open spec fn obeys_from_spec() -> bool {
        true
    }

    open spec fn from_spec(msg: String) -> InitError {
        InitError::Sdl2InitError(msg)
    }
}

impl PresentationError {
    /// The text shown for the error: the failure as the renderer reported it.
    pub open spec fn message_text(self) -> Seq<char> {
        match self {
            PresentationError::CanvasCopy(msg) => msg@,
            PresentationError::TextureUpdate(msg) => msg@,
            PresentationError::TextureValue(msg) => msg@,
            PresentationError::SaveCanvasBMP(msg) => msg@,
        }
    }

    /// The text to show for the error.
    pub fn message(&self) -> (text: String)
        ensures
            text@ == self.message_text(),
    {
        match self {
            PresentationError::CanvasCopy(msg) => msg.clone(),
            PresentationError::TextureUpdate(msg) => msg.clone(),
            PresentationError::TextureValue(msg) => msg.clone(),
            PresentationError::SaveCanvasBMP(msg) => msg.clone(),
        }
    }
}

impl From<String> for PresentationError {
    /// A bare failure text stands for a failed copy onto the render target.
    fn from(msg: String) -> (e: PresentationError) {
        PresentationError::CanvasCopy(msg)
    }
}

impl FromSpecImpl<String> for PresentationError {
    open spec fn obeys_from_spec() -> bool {
        true
    }

    open spec fn from_spec(msg: String) -> PresentationError {
        PresentationError::CanvasCopy(msg)
    }
}

impl SaveImageError {
    /// The text shown for the error: the encoder's report.
    pub open spec fn message_text(self) -> Seq<char> {
        match self {
            SaveImageError::SaveBMP(msg) => msg@,
        }
    }

    /// The text to show for the error.
    pub fn message(&self) -> (text: String)
        ensures
            text@ == self.message_text(),
    {
        match self {
            SaveImageError::SaveBMP(msg) => msg.clone(),
        }
    }
}

} // verus!
