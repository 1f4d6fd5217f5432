//! The fixed-size frame in which every request and every response travels.

use vstd::prelude::*;

verus! {

/// Number of bytes in every frame, outgoing or incoming.
pub const SIZE: usize = 1024;

/// Whether `bytes` has the length of one frame.
pub open spec fn is_frame(bytes: Seq<u8>) -> bool {
    bytes.len() == SIZE
}

/// The receive buffer after one read has put `received` at its start: a frame
/// that begins with the received bytes and is zero from there on.
pub open spec fn padded(received: Seq<u8>) -> Seq<u8> {
    Seq::new(
        SIZE as nat,
        |i: int|
            if i < received.len() {
                received[i]
            } else {
                0u8
            },
    )
}

/// Tells whether `bytes` has exactly the length of one frame.
pub fn has_frame_size(bytes: &Vec<u8>) -> (fits: bool)
    ensures
        fits == is_frame(bytes@),
{
    bytes.len() == SIZE
}

/// Lays `received` into a zeroed buffer of one frame and returns the buffer.
/// Bytes beyond the size of a frame, if there are any, are left out.
pub fn response_frame(received: &Vec<u8>) -> (frame: Vec<u8>)
    ensures
        frame@ == padded(received@),
        is_frame(frame@),
{
    let mut frame: Vec<u8> = Vec::with_capacity(SIZE);
    let mut i: usize = 0;
    while i < SIZE
        invariant
            i <= SIZE,
            frame@.len() == i,
            forall|j: int| 0 <= j < i ==> frame@[j] == padded(received@)[j],
        decreases SIZE - i,
    {
        let byte: u8 = if i < received.len() {
            received[i]
        } else {
            0u8
        };
        frame.push(byte);
        i += 1;
    }
    frame
}

/// A delivery of exactly one frame stands in the receive buffer as it came.
pub proof fn lemma_whole_frame_fills_the_buffer(received: Seq<u8>)
    requires
        is_frame(received),
    ensures
        padded(received) == received,
{
}

/// The receive buffer is one frame, begins with what was delivered and is zero
/// from there on.
pub proof fn lemma_buffer_is_zero_after_the_delivery(received: Seq<u8>)
    requires
        received.len() <= SIZE,
    ensures
        is_frame(padded(received)),
        padded(received).subrange(0, received.len() as int) == received,
        forall|i: int| received.len() <= i < SIZE ==> padded(received)[i] == 0,
{
}

} // verus!
