//! The push constants of the ray generation shader.
//!
//! They hold, in this order, the inverse of the view matrix, the inverse of
//! the projection matrix, two random words and the number of the frame. The
//! random words and the frame number are written anew for every frame, so
//! that the shader samples differently from frame to frame whether or not
//! the camera has moved.

use crate::render::words::{is_native_image, words_as_bytes};
use vstd::prelude::*;

verus! {

/// Bytes of the push constants.
pub const PUSH_DATA_SIZE: usize = 140;

/// Where the inverse of the view matrix starts.
pub const VIEW_OFFSET: usize = 0;

/// Where the inverse of the projection matrix starts.
pub const PROJECTION_OFFSET: usize = 64;

/// Where the two random words start.
pub const RANDOM_OFFSET: usize = 128;

/// Where the number of the frame starts.
pub const FRAME_OFFSET: usize = 136;

/// `after` is `before` with `words` written at `offset`, in the byte order
/// of the host, and nothing else changed.
pub open spec fn is_written(before: Seq<u8>, after: Seq<u8>, offset: int, words: Seq<u32>) -> bool {
    &&& after.len() == before.len()
    &&& is_native_image(after.subrange(offset, offset + 4 * words.len()), words)
    &&& after.subrange(0, offset) == before.subrange(0, offset)
    &&& after.subrange(offset + 4 * words.len(), after.len() as int) == before.subrange(
        offset + 4 * words.len(),
        before.len() as int,
    )
}

/// Writes `words` into `bytes` at `offset`.
fn write_words(bytes: &mut [u8; PUSH_DATA_SIZE], offset: usize, words: &[u32])
    requires
        offset + 4 * words@.len() <= old(bytes)@.len(),
    ensures
        is_written(old(bytes)@, final(bytes)@, offset as int, words@),
{
    let image = words_as_bytes(words);
    let n: usize = image.len();
    let mut i: usize = 0;
    while i < n
        invariant
            i <= n,
            n == image@.len(),
            n == 4 * words@.len(),
            offset + n <= bytes@.len(),
            bytes@.len() == old(bytes)@.len(),
            forall|j: int| 0 <= j < i ==> bytes@[offset + j] == image@[j],
            forall|j: int|
                0 <= j < bytes@.len() && !(offset <= j < offset + i) ==> bytes@[j] == old(
                    bytes,
                )@[j],
        decreases n - i,
    {
        bytes.set(offset + i, image[i]);
        i += 1;
    }
    assert(bytes@.subrange(offset as int, offset + 4 * words@.len()) =~= image@);
    assert(bytes@.subrange(0, offset as int) =~= old(bytes)@.subrange(0, offset as int));
    assert(bytes@.subrange(offset + 4 * words@.len(), bytes@.len() as int) =~= old(
        bytes,
    )@.subrange(offset + 4 * words@.len(), old(bytes)@.len() as int));
}

/// Calls `rand::random` for two 32-bit words from the generator of the
/// thread. Nothing is promised of them.
#[verifier::external_body]
pub(crate) fn random_words() -> (words: (u32, u32)) {
    rand::random::<(u32, u32)>()
}

/// The push constants of the ray generation shader.
#[derive(Clone, Copy, Debug)]
pub struct PushData {
    bytes: [u8; PUSH_DATA_SIZE],
}

impl View for PushData {
    type V = Seq<u8>;

    /// The bytes as they are pushed.
    closed spec fn view(&self) -> Seq<u8> {
        self.bytes@
    }
}

impl PushData {
    /// Push constants that are all zero.
    pub fn new() -> (data: PushData)
        ensures
            data@ == Seq::new(PUSH_DATA_SIZE as nat, |i: int| 0u8),
    {
        let bytes: [u8; PUSH_DATA_SIZE] = [0u8; PUSH_DATA_SIZE];
        assert(bytes@ =~= Seq::new(PUSH_DATA_SIZE as nat, |i: int| 0u8));
        PushData { bytes }
    }

    /// The bytes to push.
    pub fn as_bytes(&self) -> (bytes: &[u8])
        ensures
            bytes@ == self@,
            bytes@.len() == PUSH_DATA_SIZE,
    {
        self.bytes.as_slice()
    }

    /// Writes the inverse of the view matrix.
    pub fn set_view(&mut self, view_inverse: &[u32; 16])
        ensures
            is_written(old(self)@, final(self)@, VIEW_OFFSET as int, view_inverse@),
    {
        write_words(&mut self.bytes, VIEW_OFFSET, view_inverse.as_slice());
    }

    /// Writes the inverse of the projection matrix.
    pub fn set_projection(&mut self, projection_inverse: &[u32; 16])
        ensures
            is_written(old(self)@, final(self)@, PROJECTION_OFFSET as int, projection_inverse@),
    {
        write_words(&mut self.bytes, PROJECTION_OFFSET, projection_inverse.as_slice());
    }

    /// Writes the two random words and the number of the frame.
    pub fn set_frame(&mut self, random: (u32, u32), frame: u32)
        ensures
            is_written(
                old(self)@,
                final(self)@,
                RANDOM_OFFSET as int,
                seq![random.0, random.1, frame],
            ),
    {
        let words: [u32; 3] = [random.0, random.1, frame];
        assert(words@ =~= seq![random.0, random.1, frame]);
        write_words(&mut self.bytes, RANDOM_OFFSET, words.as_slice());
    }

    /// Draws two random words and writes them and the number of the frame.
    /// The matrices stay as they are.
    pub fn stamp_frame(&mut self, frame: u32)
        ensures
            exists|random: (u32, u32)|
                is_written(
                    old(self)@,
                    final(self)@,
                    RANDOM_OFFSET as int,
                    seq![random.0, random.1, frame],
                ),
    {
        let random = random_words();
        self.set_frame(random, frame);
    }
}

} // verus!
