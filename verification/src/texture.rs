//! The one texture of the window, created on first need and kept.
//!
//! The picture never changes once the program has started, so the texture
//! is made once and nothing ever invalidates it. The host that owns the
//! textures is outside this crate: the cache says when an upload is due and
//! with what, and takes the handle that the host gives back. `T` is the
//! host's handle type.

use crate::bitmap::PixelBuffer;
use vstd::prelude::*;

verus! {

/// How the host fills in pixels when it draws a texture larger or smaller
/// than it is.
#[derive(Clone, Copy, Debug, PartialEq, Eq, Structural)]
pub enum Sampling {
    /// Each pixel shown takes the colour of the nearest pixel of the
    /// texture: edges stay hard.
    Nearest,
    /// Neighbouring pixels are blended.
    Linear,
}

/// What the host is asked to turn into a texture.
#[derive(Debug, PartialEq, Eq)]
pub struct UploadRequest {
    /// The picture.
    pub buffer: PixelBuffer,
    /// How to sample it, when magnified and when minified; no mipmaps.
    pub sampling: Sampling,
}

/// Whether the texture has been dealt with yet.
#[derive(Debug, PartialEq, Eq)]
pub enum TextureCache<T> {
    /// No attempt has been made to create the texture.
    AwaitingTexture,
    /// The one attempt is over. `texture` is the handle that it gave, or
    /// `None` where it gave none. This state is never left.
    Ready { texture: Option<T> },
}

impl<T> TextureCache<T> {
    /// The request that [`Self::request_upload`] answers with.
    pub open spec fn requested(self, buffer: PixelBuffer) -> Option<UploadRequest> {
        match self {
            TextureCache::AwaitingTexture => Some(
                UploadRequest { buffer, sampling: Sampling::Nearest },
            ),
            TextureCache::Ready { .. } => None,
        }
    }

    /// The cache after [`Self::complete_upload`].
    pub open spec fn completed(self, outcome: Option<T>) -> Self {
        match self {
            TextureCache::AwaitingTexture => TextureCache::Ready { texture: outcome },
            TextureCache::Ready { .. } => self,
        }
    }

    /// The handle that the cache holds.
    pub open spec fn handle(self) -> Option<T> {
        match self {
            TextureCache::AwaitingTexture => None,
            TextureCache::Ready { texture } => texture,
        }
    }

    /// A cache for which nothing has been uploaded.
    pub fn new() -> (cache: Self)
        ensures
            cache is AwaitingTexture,
    {
        TextureCache::AwaitingTexture
    }

    /// Whether the one attempt to create the texture is over.
    pub fn is_ready(&self) -> (ready: bool)
        ensures
            ready == (self is Ready),
    {
        match self {
            TextureCache::AwaitingTexture => false,
            TextureCache::Ready { .. } => true,
        }
    }

    /// The handle of the texture, where one was created.
    pub fn texture(&self) -> (found: Option<&T>)
        ensures
            match self.handle() {
                Some(texture) => found matches Some(held) && *held == texture,
                None => found is None,
            },
    {
        match self {
            TextureCache::AwaitingTexture => None,
            TextureCache::Ready { texture } => texture.as_ref(),
        }
    }

    /// Says whether the host has to upload `buffer`.
    ///
    /// A cache that awaits its texture asks for the upload of exactly this
    /// picture, sampled by the nearest pixel so that a magnified symbol
    /// keeps its hard edges. A cache that is ready asks for nothing,
    /// whatever the picture.
    pub fn request_upload(&self, buffer: PixelBuffer) -> (request: Option<UploadRequest>)
        ensures
            request == self.requested(buffer),
    {
        match self {
            TextureCache::AwaitingTexture => Some(
                UploadRequest { buffer, sampling: Sampling::Nearest },
            ),
            TextureCache::Ready { .. } => None,
        }
    }

    /// Takes the outcome of the upload: the host's handle, or `None` where
    /// the host created no texture.
    ///
    /// A cache that awaits its texture becomes ready with that outcome. A
    /// cache that is ready stays as it is.
    pub fn complete_upload(&mut self, outcome: Option<T>)
        ensures
            *final(self) == old(self).completed(outcome),
    {
        if !self.is_ready() {
            *self = TextureCache::Ready { texture: outcome };
        }
    }
}

/// Creating the texture is idempotent. Whatever the outcome of the first
/// upload, the cache is ready after it; no picture makes it ask for
/// another upload; and the outcome of any later upload leaves it, and the
/// handle it holds, unchanged.
pub proof fn lemma_texture_created_once<T>(
    cache: TextureCache<T>,
    first: Option<T>,
    later: Option<T>,
    buffer: PixelBuffer,
)
    ensures
        cache.completed(first) is Ready,
        cache.completed(first).requested(buffer) is None,
        cache.completed(first).completed(later) == cache.completed(first),
        cache.completed(first).completed(later).handle() == cache.completed(first).handle(),
        cache is Ready ==> cache.completed(later) == cache,
        cache is AwaitingTexture ==> cache.completed(first).handle() == first,
{
}

} // verus!
