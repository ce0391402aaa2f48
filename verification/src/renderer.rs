//! The audio output renderer.

use vstd::prelude::*;

use crate::errors::AudioError;

verus! {

/// Audio renderer responsible for outputting processed audio.
pub struct AudioRenderer {
    placeholder: (),
}

impl AudioRenderer {
    /// The renderer as it is created: it holds no state.
    pub closed spec fn created() -> AudioRenderer {
        AudioRenderer { placeholder: () }
    }

    /// Creates a renderer; creation always succeeds.
    pub fn new() -> (r: Result<AudioRenderer, AudioError>)
        ensures
            r == Ok::<AudioRenderer, AudioError>(AudioRenderer::created()),
    {
        Ok(AudioRenderer { placeholder: () })
    }

    /// Whether the renderer is ready for more data; it always is.
    pub fn is_ready(&self) -> (r: bool)
        ensures
            r,
    {
        true
    }
}

impl Default for AudioRenderer {
    fn default() -> (r: AudioRenderer)
        ensures
            r == AudioRenderer::created(),
    {
        AudioRenderer { placeholder: () }
    }
}

} // verus!
