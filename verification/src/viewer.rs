//! The preview window, frame by frame.
//!
//! A viewer is made once, from the text and the bitmap of its symbol. In
//! every frame the host first asks [`Viewer::begin_frame`] whether a
//! texture has to be uploaded, reports the outcome with
//! [`Viewer::texture_created`] if so, and then draws what
//! [`Viewer::content`] names. Scaling the drawn picture is the host's part.

use crate::bitmap::{load_bmp_image, picture_of};
use crate::symbol::{bmp_rows, encode_text, encoding_of, is_square, EncodeError};
use crate::texture::{Sampling, TextureCache, UploadRequest};
use qr_code::bmp_monochrome::Bmp;
use vstd::prelude::*;
use vstd::utf8::encode_utf8;

verus! {

/// What is shown in place of the picture where no texture could be made.
pub const FALLBACK_MESSAGE: &'static str = "Failed to load image.";

/// The state of the preview: the text, the bitmap of its symbol, and the
/// texture made of it. `T` is the host's texture handle.
pub struct Viewer<T> {
    copied_content: String,
    generated_bmp: Bmp,
    image_texture: TextureCache<T>,
}

/// What the host draws in the middle of the window.
#[derive(Debug, PartialEq, Eq)]
pub enum FrameContent<'a, T> {
    /// The texture, with the text shown beside the pointer while it is
    /// over the picture.
    Image { texture: &'a T, tooltip: &'a str },
    /// A line of text in place of the picture.
    Message { text: &'static str },
}

/// The texture state that a frame leaves behind: a viewer that awaits its
/// texture and whose bitmap cannot be turned into a picture gives up for
/// good; any other stays as it is.
pub open spec fn cache_after_frame<T>(
    cache: TextureCache<T>,
    rows: Seq<Seq<bool>>,
) -> TextureCache<T> {
    if cache is AwaitingTexture && !is_square(rows) {
        TextureCache::Ready { texture: None }
    } else {
        cache
    }
}

impl<T> Viewer<T> {
    /// The text that the symbol encodes.
    pub closed spec fn text(&self) -> Seq<char> {
        self.copied_content@
    }

    /// The rows of the symbol's bitmap.
    pub closed spec fn rows(&self) -> Seq<Seq<bool>> {
        bmp_rows(self.generated_bmp)
    }

    /// The state of the texture.
    pub closed spec fn cache(&self) -> TextureCache<T> {
        self.image_texture
    }

    /// A viewer of `text` whose symbol is `bitmap`, before its first frame.
    pub fn new(text: String, bitmap: Bmp) -> (viewer: Self)
        ensures
            viewer.text() == text@,
            viewer.rows() == bmp_rows(bitmap),
            viewer.cache() is AwaitingTexture,
    {
        Viewer { copied_content: text, generated_bmp: bitmap, image_texture: TextureCache::new() }
    }

    /// Encodes `text` and makes a viewer of it.
    ///
    /// Where the encoder builds a symbol, the viewer holds the text and the
    /// symbol's bitmap, which is square, and awaits its texture. Where the
    /// encoder refuses the text, there is no viewer, and its reason is
    /// returned.
    pub fn open(text: String) -> (r: Result<Self, EncodeError>)
        ensures
            match encoding_of(encode_utf8(text@)) {
                Ok(rows) => {
                    &&& r matches Ok(viewer)
                    &&& viewer.text() == text@
                    &&& viewer.rows() == rows
                    &&& is_square(rows)
                    &&& viewer.cache() is AwaitingTexture
                },
                Err(e) => r matches Err(reason) && reason == e,
            },
    {
        match encode_text(text.as_str()) {
            Ok(bitmap) => Ok(Viewer::new(text, bitmap)),
            Err(e) => Err(e),
        }
    }

    /// The first step of a frame: says whether the host has to create the
    /// texture now.
    ///
    /// Only a viewer that awaits its texture can ask for one. It turns its
    /// bitmap into a picture and asks for the upload of that picture,
    /// sampled by the nearest pixel. Where the bitmap is not square there
    /// is no picture: nothing is asked for, and the viewer gives up on the
    /// texture for this and all later frames. A viewer that is ready asks
    /// for nothing and does not change.
    pub fn begin_frame(&mut self) -> (request: Option<UploadRequest>)
        ensures
            final(self).text() == old(self).text(),
            final(self).rows() == old(self).rows(),
            final(self).cache() == cache_after_frame(old(self).cache(), old(self).rows()),
            request is Some <==> old(self).cache() is AwaitingTexture && is_square(
                old(self).rows(),
            ),
            request matches Some(upload) ==> {
                &&& upload.buffer@ == picture_of(old(self).rows())
                &&& upload.buffer.spec_width() == old(self).rows().len()
                &&& upload.sampling == Sampling::Nearest
            },
    {
        if self.image_texture.is_ready() {
            return None;
        }
        match load_bmp_image(&self.generated_bmp) {
            Ok(buffer) => self.image_texture.request_upload(buffer),
            Err(_) => {
                self.image_texture.complete_upload(None);
                None
            },
        }
    }

    /// Takes the outcome of the upload that [`Self::begin_frame`] asked
    /// for: the host's handle, or `None` where the host created no texture.
    ///
    /// A viewer that awaits its texture becomes ready with that outcome and
    /// never asks again. A viewer that is ready stays as it is.
    pub fn texture_created(&mut self, outcome: Option<T>)
        ensures
            final(self).text() == old(self).text(),
            final(self).rows() == old(self).rows(),
            final(self).cache() == old(self).cache().completed(outcome),
    {
        self.image_texture.complete_upload(outcome);
    }

    /// What to draw in this frame: the picture with the text as its
    /// tooltip where the viewer holds a texture, [`FALLBACK_MESSAGE`]
    /// where it holds none.
    pub fn content(&self) -> (shown: FrameContent<'_, T>)
        ensures
            match self.cache().handle() {
                Some(held) => shown matches FrameContent::Image { texture, tooltip }
                    && *texture == held && tooltip@ == self.text(),
                None => shown matches FrameContent::Message { text } && text@
                    == FALLBACK_MESSAGE@,
            },
    {
        match self.image_texture.texture() {
            Some(texture) => FrameContent::Image {
                texture,
                tooltip: self.copied_content.as_str(),
            },
            None => FrameContent::Message { text: FALLBACK_MESSAGE },
        }
    }
}

/// The viewer's texture state only moves forward. Once it is ready, neither
/// a frame nor the outcome of an upload changes it, whatever the bitmap and
/// whatever the outcome; and a frame never makes a ready state out of a
/// square bitmap by itself.
pub proof fn lemma_ready_is_final<T>(
    cache: TextureCache<T>,
    rows: Seq<Seq<bool>>,
    outcome: Option<T>,
)
    ensures
        cache is Ready ==> cache_after_frame(cache, rows) == cache,
        cache is Ready ==> cache.completed(outcome) == cache,
        cache_after_frame(cache, rows) is AwaitingTexture ==> cache is AwaitingTexture,
        cache.completed(outcome) is Ready,
        is_square(rows) ==> cache_after_frame(cache, rows) == cache,
{
}

} // verus!
