//! Pasting into a pane, and only into the one it was meant for; images one at
//! a time.
use vstd::prelude::*;
use vstd::string::*;

use crate::command_queue::{ClientCommand, CommandQueue};
use crate::linux::window_render::enqueue_workspace_input;
use crate::text::concat2;

verus! {

/// The longest side of an image that can be pasted.
pub const MAX_SIDE: i32 = 16384;

/// The most pixels of an image that can be pasted.
pub const MAX_PIXELS: i64 = 67108864;

/// An image that waits to be handed to the core.
#[derive(Debug, PartialEq, Eq)]
pub struct ImageRequest {
    pub workspace: String,
    pub pane: u32,
    pub png: Vec<u8>,
}

/// How the picture in the clipboard could be turned into a file.
#[derive(Debug)]
pub enum Encoded {
    Png(Vec<u8>),
    Undecodable,
    Failed(String),
}

/// What came from the clipboard.
#[derive(Debug)]
pub enum ClipboardImage {
    Unreadable(String),
    Nothing,
    Image { width: i32, height: i32, encoded: Encoded },
}

/// Why nothing is pasted.
#[derive(Debug, PartialEq, Eq)]
pub enum PasteError {
    PaneClosed,
    NoImage,
    TooLarge,
    Undecodable,
    InProgress,
    Other(String),
}

impl PasteError {
    /// The text of the error.
    pub open spec fn text(self) -> Seq<char> {
        match self {
            PasteError::PaneClosed => "Original pane was closed; image was not pasted."@,
            PasteError::NoImage => "Clipboard has no image"@,
            PasteError::TooLarge => "Clipboard image is too large"@,
            PasteError::Undecodable => "Cannot decode clipboard image"@,
            PasteError::InProgress => "An image paste is already in progress."@,
            PasteError::Other(message) => message@,
        }
    }

    /// Returns the text of the error.
    pub fn message(&self) -> (r: String)
        ensures
            r@ == self.text(),
    {
        match self {
            PasteError::PaneClosed => "Original pane was closed; image was not pasted.".to_owned(),
            PasteError::NoImage => "Clipboard has no image".to_owned(),
            PasteError::TooLarge => "Clipboard image is too large".to_owned(),
            PasteError::Undecodable => "Cannot decode clipboard image".to_owned(),
            PasteError::InProgress => "An image paste is already in progress.".to_owned(),
            PasteError::Other(message) => message.clone(),
        }
    }

    /// Returns the line that the log holds of the error.
    pub fn log(&self) -> (r: String)
        ensures
            r@ == "Image paste: "@ + self.text(),
    {
        let message = self.message();
        concat2("Image paste: ", message.as_str())
    }
}

/// The image is larger than can be pasted.
pub open spec fn too_large(width: i32, height: i32) -> bool {
    width > MAX_SIDE || height > MAX_SIDE || width * height > MAX_PIXELS
}

/// Tells whether an image is larger than can be pasted.
pub fn is_too_large(width: i32, height: i32) -> (r: bool)
    ensures
        r == too_large(width, height),
{
    if width > MAX_SIDE || height > MAX_SIDE {
        return true;
    }
    assert(-0x4000_0000_0000_0000 <= width * height <= 0x4000_0000_0000_0000) by (nonlinear_arith)
        requires
            -0x8000_0000 <= width < 0x8000_0000,
            -0x8000_0000 <= height < 0x8000_0000,
    ;
    (width as i64) * (height as i64) > MAX_PIXELS
}

/// The pastes of a window: one may wait to be handed over and one may be under
/// way; an indicator is shown while one is.
#[derive(Debug)]
pub struct ImagePaste {
    pub pending: bool,
    pub indicator: bool,
    pub request: Option<ImageRequest>,
}

/// What is to be done with a waiting request.
#[derive(Debug)]
pub enum PasteStart {
    Nothing,
    Closed,
    Start(ImageRequest),
}

impl ImagePaste {
    /// No paste.
    pub fn new() -> (r: Self)
        ensures
            !r.pending,
            !r.indicator,
            r.request is None,
    {
        ImagePaste { pending: false, indicator: false, request: None }
    }

    /// Takes what came from the clipboard. `open` tells whether the pane it
    /// was asked for is still there.
    pub fn offer(
        &mut self,
        open: bool,
        image: ClipboardImage,
        workspace: String,
        pane: u32,
    ) -> (r: Result<(), PasteError>)
        ensures
            final(self).pending == old(self).pending,
            final(self).indicator == old(self).indicator,
            r is Err ==> final(self).request == old(self).request,
            if !open {
                r == Err::<(), PasteError>(PasteError::PaneClosed)
            } else {
                match image {
                    ClipboardImage::Unreadable(e) => r == Err::<(), PasteError>(
                        PasteError::Other(e),
                    ),
                    ClipboardImage::Nothing => r == Err::<(), PasteError>(PasteError::NoImage),
                    ClipboardImage::Image { width, height, encoded } => if too_large(
                        width,
                        height,
                    ) {
                        r == Err::<(), PasteError>(PasteError::TooLarge)
                    } else {
                        match encoded {
                            Encoded::Undecodable => r == Err::<(), PasteError>(
                                PasteError::Undecodable,
                            ),
                            Encoded::Failed(e) => r == Err::<(), PasteError>(PasteError::Other(e)),
                            Encoded::Png(png) => if old(self).pending || old(self).request is Some {
                                r == Err::<(), PasteError>(PasteError::InProgress)
                            } else {
                                r is Ok && final(self).request == Some(
                                    ImageRequest { workspace, pane, png },
                                )
                            },
                        }
                    },
                }
            },
    {
        if !open {
            return Err(PasteError::PaneClosed);
        }
        match image {
            ClipboardImage::Unreadable(e) => Err(PasteError::Other(e)),
            ClipboardImage::Nothing => Err(PasteError::NoImage),
            ClipboardImage::Image { width, height, encoded } => {
                if is_too_large(width, height) {
                    return Err(PasteError::TooLarge);
                }
                match encoded {
                    Encoded::Undecodable => Err(PasteError::Undecodable),
                    Encoded::Failed(e) => Err(PasteError::Other(e)),
                    Encoded::Png(png) => {
                        if self.pending || self.request.is_some() {
                            Err(PasteError::InProgress)
                        } else {
                            self.request = Some(ImageRequest { workspace, pane, png });
                            Ok(())
                        }
                    },
                }
            },
        }
    }

    /// Takes the waiting request. `open` tells whether its pane is still
    /// there.
    pub fn take_request(&mut self, open: bool) -> (r: PasteStart)
        ensures
            final(self).pending == old(self).pending,
            final(self).indicator == old(self).indicator,
            final(self).request is None,
            match old(self).request {
                None => r is Nothing,
                Some(request) => if open {
                    r == PasteStart::Start(request)
                } else {
                    r is Closed
                },
            },
    {
        match self.request.take() {
            None => PasteStart::Nothing,
            Some(request) => {
                if open {
                    PasteStart::Start(request)
                } else {
                    PasteStart::Closed
                }
            },
        }
    }

    /// Notes how the core took a request.
    pub fn started(&mut self, accepted: bool)
        ensures
            final(self).request == old(self).request,
            final(self).pending == (old(self).pending || accepted),
            final(self).indicator == (old(self).indicator || accepted),
    {
        if accepted {
            self.pending = true;
            self.indicator = true;
        }
    }

    /// Notes that the paste under way has ended, if it has, and hides the
    /// indicator where nothing is under way.
    pub fn settle(&mut self, ended: bool)
        ensures
            final(self).request == old(self).request,
            final(self).pending == (old(self).pending && !ended),
            final(self).indicator == (old(self).indicator && final(self).pending),
    {
        if ended {
            self.pending = false;
        }
        if !self.pending {
            self.indicator = false;
        }
    }
}

/// Queues a text from the clipboard, encoded for the pane. `same_pane` tells
/// whether the pane it was asked for still has the surface it had; where it has
/// not, and where nothing is left to write, nothing is queued.
pub fn paste_text(
    queue: &mut CommandQueue,
    same_pane: bool,
    workspace_id: &str,
    pane_id: u32,
    encoded: Vec<u8>,
)
    ensures
        if !same_pane || encoded@.len() == 0 {
            final(queue)@ == old(queue)@
        } else {
            &&& final(queue)@.len() == old(queue)@.len() + 1
            &&& final(queue)@.drop_last() == old(queue)@
            &&& final(queue)@.last() matches ClientCommand::Input {
                workspace_id: Some(w),
                pane_id: p,
                data,
                quiet,
            } && w@ == workspace_id@ && p == pane_id && data@ == encoded@ && !quiet
        },
{
    if !same_pane || encoded.len() == 0 {
        return ;
    }
    enqueue_workspace_input(queue, workspace_id, pane_id, encoded, false);
}

/// Returns the line that the log holds of a paste that worked.
pub fn pasted_log(path: &str) -> (r: String)
    ensures
        r@ == "Image pasted: "@ + path@,
{
    concat2("Image pasted: ", path)
}

} // verus!
