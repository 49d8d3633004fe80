//! Listening for the wake word: cutting the microphone's samples into the
//! pieces that the recogniser takes, and telling whether a recognised text
//! holds the robot's name.

use vstd::prelude::*;
use crate::text::{contains, occurs_in};

verus! {

/// Samples in one piece for the recogniser: a tenth of a second at sixteen
/// kilohertz.
pub const CHUNK_SAMPLES: usize = 1600;

/// A text that the recogniser has made out.
#[derive(Debug)]
pub struct WakeEvent {
    pub text: String,
}

impl Clone for WakeEvent {
    fn clone(&self) -> (copy: Self)
        ensures
            copy == *self,
    {
        WakeEvent { text: self.text.clone() }
    }
}

/// What `str::to_lowercase` gives for a text.
pub uninterp spec fn lowercase(text: Seq<char>) -> Seq<char>;

/// The text in lower case, as `str::to_lowercase` gives it. The contract
/// only names the result.
#[verifier::external_body]
fn to_lowercase(text: &str) -> (lower: String)
    ensures
        lower@ == lowercase(text@),
{
    text.to_lowercase()
}

/// Whether a text, in lower case, holds the robot's name or one of the
/// forms in which the recogniser is known to mishear it.
pub open spec fn holds_wake_word(lower: Seq<char>) -> bool {
    ||| occurs_in(lower, "小波"@)
    ||| occurs_in(lower, "晓波"@)
    ||| occurs_in(lower, "小博"@)
    ||| occurs_in(lower, "笑波"@)
    ||| occurs_in(lower, "晓博"@)
}

/// Whether a lower-case text holds the robot's name or one of the forms in
/// which the recogniser is known to mishear it.
pub fn is_wake_word_in(lower: &str) -> (woken: bool)
    ensures
        woken == holds_wake_word(lower@),
{
    if contains(lower, "小波") {
        return true;
    }
    if contains(lower, "晓波") {
        return true;
    }
    if contains(lower, "小博") {
        return true;
    }
    if contains(lower, "笑波") {
        return true;
    }
    contains(lower, "晓博")
}

/// The text in lower case.
pub fn normalize(text: &str) -> (lower: String)
    ensures
        lower@ == lowercase(text@),
{
    to_lowercase(text)
}

/// Whether a recognised text holds the robot's name, whatever the case of
/// its letters.
pub fn is_wake_word(text: &str) -> (woken: bool)
    ensures
        woken == holds_wake_word(lowercase(text@)),
{
    let lower = normalize(text);
    is_wake_word_in(lower.as_str())
}

/// Gathers samples until there are enough for the recogniser.
pub struct AudioChunker {
    buffer: Vec<i16>,
}

impl AudioChunker {
    /// The samples gathered and not yet handed out.
    pub closed spec fn spec_buffer(&self) -> Seq<i16> {
        self.buffer@
    }

    /// A chunker that holds no samples.
    pub fn new() -> (chunker: Self)
        ensures
            chunker.spec_buffer().len() == 0,
    {
        AudioChunker { buffer: Vec::new() }
    }

    /// Takes more samples in, behind those already gathered.
    pub fn push(&mut self, samples: &[i16])
        ensures
            final(self).spec_buffer() == old(self).spec_buffer() + samples@,
    {
        self.buffer.extend_from_slice(samples);
    }

    /// Hands out the oldest 1600 samples, where that many have been
    /// gathered, and keeps the rest.
    pub fn next_chunk(&mut self) -> (chunk: Option<Vec<i16>>)
        ensures
            match chunk {
                Some(piece) => {
                    &&& old(self).spec_buffer().len() >= CHUNK_SAMPLES
                    &&& piece@ == old(self).spec_buffer().subrange(0, CHUNK_SAMPLES as int)
                    &&& final(self).spec_buffer() == old(self).spec_buffer().subrange(
                        CHUNK_SAMPLES as int,
                        old(self).spec_buffer().len() as int,
                    )
                },
                None => {
                    &&& old(self).spec_buffer().len() < CHUNK_SAMPLES
                    &&& final(self).spec_buffer() == old(self).spec_buffer()
                },
            },
    {
        if self.buffer.len() < CHUNK_SAMPLES {
            return None;
        }
        let mut piece = self.buffer.split_off(CHUNK_SAMPLES);
        std::mem::swap(&mut self.buffer, &mut piece);
        Some(piece)
    }
}

} // verus!
