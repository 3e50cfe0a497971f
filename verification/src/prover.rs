//! How a trace of frames is cut into chunks.

use vstd::prelude::*;

verus! {

/// A prover that takes the frames of an evaluation in chunks of one size.
pub trait Prover<F> {
    /// How many frames a chunk has.
    spec fn chunk_size(&self) -> usize;

    /// How many frames a chunk has.
    fn chunk_frame_count(&self) -> (res: usize)
        ensures
            res == self.chunk_size(),
    ;

    /// Whether `count` frames leave the last chunk short.
    fn needs_frame_padding(&self, count: usize) -> (res: bool)
        requires
            self.chunk_size() != 0,
        ensures
            res == padding_needed(self.chunk_size() as nat, count as nat),
            res == (count % self.chunk_size() != 0),
    {
        count % self.chunk_frame_count() != 0
    }
}

/// Whether `count` frames are no whole number of chunks of `chunk_size`.
pub open spec fn padding_needed(chunk_size: nat, count: nat) -> bool {
    count % chunk_size != 0
}

/// Padding a trace one frame at a time comes to an end, before a whole chunk
/// has been added.
pub proof fn padding_ends(chunk_size: nat, count: nat) -> (padding: nat)
    requires
        chunk_size != 0,
    ensures
        padding < chunk_size,
        !padding_needed(chunk_size, count + padding),
        forall|p: nat| p < padding ==> #[trigger] padding_needed(chunk_size, count + p),
{
    let r = count % chunk_size;
    let q = count / chunk_size;
    let padding: nat = if r == 0 {
        0
    } else {
        (chunk_size - r) as nat
    };
    vstd::arithmetic::div_mod::lemma_fundamental_div_mod(count as int, chunk_size as int);
    assert(q * chunk_size == chunk_size * q) by (nonlinear_arith);
    assert forall|p: nat| p < padding implies #[trigger] padding_needed(
        chunk_size,
        count + p,
    ) by {
        vstd::arithmetic::div_mod::lemma_fundamental_div_mod_converse(
            (count + p) as int,
            chunk_size as int,
            q as int,
            (r + p) as int,
        );
    }
    if r != 0 {
        assert((q + 1) * chunk_size == chunk_size * q + chunk_size) by (nonlinear_arith);
        vstd::arithmetic::div_mod::lemma_fundamental_div_mod_converse(
            (count + padding) as int,
            chunk_size as int,
            (q + 1) as int,
            0,
        );
    }
    padding
}

/// A trace needs no padding and has `chunks` chunks exactly where its frames
/// are as many as the chunks hold.
pub proof fn whole_chunks(chunk_size: nat, count: nat, chunks: nat)
    requires
        chunk_size != 0,
    ensures
        count == chunk_size * chunks <==> !padding_needed(chunk_size, count) && count / chunk_size
            == chunks,
{
    vstd::arithmetic::div_mod::lemma_fundamental_div_mod(count as int, chunk_size as int);
    if count == chunk_size * chunks {
        assert(chunks * chunk_size == chunk_size * chunks) by (nonlinear_arith);
        vstd::arithmetic::div_mod::lemma_fundamental_div_mod_converse(
            count as int,
            chunk_size as int,
            chunks as int,
            0,
        );
    }
}

} // verus!
