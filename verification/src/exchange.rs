//! Reading the answer to a sent message, piece by piece.
use vstd::prelude::*;

verus! {

/// One attempt to read from a stream: `None` at the end of the stream, else the
/// bytes that were read.
pub type Piece = Option<Seq<u8>>;

/// Whether a piece ends the answer: the stream is at its end, or gave nothing.
pub open spec fn ends(piece: Piece) -> bool {
    match piece {
        Some(bytes) => bytes.len() == 0,
        None => true,
    }
}

/// The bytes of an answer: the pieces before the first one that ends it.
pub open spec fn answer(pieces: Seq<Piece>) -> Seq<u8>
    decreases pieces.len(),
{
    if pieces.len() == 0 || ends(pieces.first()) {
        Seq::empty()
    } else {
        pieces.first()->0 + answer(pieces.drop_first())
    }
}

/// What a read of `read` bytes into `buffer` has delivered.
pub open spec fn piece_of(buffer: Seq<u8>, read: Option<usize>) -> Piece {
    match read {
        Some(n) => Some(buffer.take(n as int)),
        None => None,
    }
}

/// Adds what has been read into `buffer` to the answer so far, and says whether
/// the answer is complete.
pub fn take_piece(so_far: &mut Vec<u8>, buffer: &[u8], read: Option<usize>) -> (complete: bool)
    requires
        read matches Some(n) ==> n <= buffer@.len(),
    ensures
        complete == ends(piece_of(buffer@, read)),
        complete ==> final(so_far)@ == old(so_far)@,
        !complete ==> final(so_far)@ == old(so_far)@ + piece_of(buffer@, read)->0,
{
    match read {
        None => true,
        Some(n) => {
            if n == 0 {
                return true;
            }
            let mut i: usize = 0;
            assert(so_far@ =~= old(so_far)@ + buffer@.take(0));
            while i < n
                invariant
                    i <= n <= buffer@.len(),
                    so_far@ == old(so_far)@ + buffer@.take(i as int),
                decreases n - i,
            {
                so_far.push(buffer[i]);
                assert(so_far@ =~= old(so_far)@ + buffer@.take(i + 1));
                i += 1;
            }
            false
        },
    }
}

/// The answer so far, after all the pieces but an ending one have been added.
pub open spec fn collected(so_far: Seq<u8>, pieces: Seq<Piece>) -> Seq<u8>
    decreases pieces.len(),
{
    if pieces.len() == 0 || ends(pieces.first()) {
        so_far
    } else {
        collected(so_far + pieces.first()->0, pieces.drop_first())
    }
}

/// Adding the pieces one after the other, from nothing and up to the first that
/// ends the answer, gives the bytes of the answer.
pub proof fn pieces_make_up_the_answer(pieces: Seq<Piece>)
    ensures
        collected(Seq::empty(), pieces) == answer(pieces),
{
    collected_is_prefix_and_answer(Seq::empty(), pieces);
    assert(Seq::<u8>::empty() + answer(pieces) =~= answer(pieces));
}

proof fn collected_is_prefix_and_answer(so_far: Seq<u8>, pieces: Seq<Piece>)
    ensures
        collected(so_far, pieces) == so_far + answer(pieces),
    decreases pieces.len(),
{
    if pieces.len() == 0 || ends(pieces.first()) {
        assert(so_far + Seq::<u8>::empty() =~= so_far);
    } else {
        collected_is_prefix_and_answer(so_far + pieces.first()->0, pieces.drop_first());
        assert((so_far + pieces.first()->0) + answer(pieces.drop_first())
            =~= so_far + answer(pieces));
    }
}

} // verus!
