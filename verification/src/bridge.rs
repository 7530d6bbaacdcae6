//! Logic of the two completion bridges.
//!
//! The native editor calls back into the host with a partially typed word
//! and expects either a counted array of candidate buffers (listing) or a
//! single buffer (completion).  The bridges degrade every internal
//! failure to the ABI's "no result" convention, so the functions here pin
//! down exactly which candidates survive encoding, in what order, and
//! when the reported count is zero.

use vstd::prelude::*;

use crate::codec::decoded;
use crate::codec::encode_duplicate;
use crate::codec::has_interior_null;
use crate::codec::lemma_encode_decode_round_trip;

verus! {

/// The buffers of `cands`, in order, that can cross the boundary: each
/// candidate without an interior null byte, duplicated with its
/// terminator; candidates that cannot be encoded are dropped.
pub open spec fn kept_candidates(cands: Seq<Seq<u8>>) -> Seq<Seq<u8>>
    decreases cands.len(),
{
    if cands.len() == 0 {
        Seq::empty()
    } else if has_interior_null(cands.last()) {
        kept_candidates(cands.drop_last())
    } else {
        kept_candidates(cands.drop_last()).push(cands.last().push(0u8))
    }
}

/// The byte sequences of a list of byte vectors.
pub open spec fn byte_views(cands: Seq<Vec<u8>>) -> Seq<Seq<u8>> {
    cands.map_values(|v: Vec<u8>| v@)
}

/// Assembles the candidate array the listing bridge hands to the native
/// editor.  Candidates whose encoding fails are skipped; when nothing
/// survives (in particular for an empty list) no array is produced and
/// the bridge must report a count of zero.  Otherwise the array holds
/// exactly the encodable candidates in their original order, and the
/// count the bridge reports is its length.
pub fn build_candidate_array(cands: &Vec<Vec<u8>>) -> (r: Option<Vec<Vec<u8>>>)
    ensures
        match r {
            Some(arr) => byte_views(arr@) == kept_candidates(byte_views(cands@))
                && arr@.len() > 0,
            None => kept_candidates(byte_views(cands@)).len() == 0,
        },
{
    let ghost cv: Seq<Seq<u8>> = byte_views(cands@);
    let mut arr: Vec<Vec<u8>> = Vec::new();
    let mut i: usize = 0;
    while i < cands.len()
        invariant
            i <= cands.len(),
            cv == byte_views(cands@),
            byte_views(arr@) == kept_candidates(cv.take(i as int)),
        decreases cands.len() - i,
    {
        let ghost prev: Seq<Seq<u8>> = byte_views(arr@);
        match encode_duplicate(&cands[i]) {
            Some(dup) => {
                let ghost dv: Seq<u8> = dup@;
                arr.push(dup);
                assert(byte_views(arr@) =~~= prev.push(dv));
            },
            None => {},
        }
        proof {
            assert(cv.take(i + 1).drop_last() =~~= cv.take(i as int));
            assert(cv.take(i + 1).last() == cands@[i as int]@);
        }
        i = i + 1;
    }
    proof {
        assert(cv.take(cands@.len() as int) =~~= cv);
    }
    if arr.len() == 0 {
        proof {
            assert(byte_views(arr@) =~~= Seq::<Seq<u8>>::empty());
        }
        None
    } else {
        Some(arr)
    }
}

/// Encodes the completion callback's reply for the native editor: the
/// duplicated, null-terminated buffer when the callback produced text
/// that can cross the boundary, nothing otherwise.  The bridge returns a
/// null pointer and leaves the out-parameter untouched exactly when this
/// yields `None`.
pub fn completion_buffer(reply: Option<&Vec<u8>>) -> (r: Option<Vec<u8>>)
    ensures
        r is Some <==> (reply is Some && !has_interior_null(reply->Some_0@)),
        r is Some ==> r->Some_0@ == reply->Some_0@.push(0u8),
{
    match reply {
        None => None,
        Some(text) => encode_duplicate(text),
    }
}

/// A candidate list of length zero yields no array: the listing bridge
/// reports a count of zero and allocates nothing.
pub proof fn lemma_empty_list_keeps_nothing(cands: Seq<Seq<u8>>)
    requires
        cands.len() == 0,
    ensures
        kept_candidates(cands).len() == 0,
{
}

/// When every candidate encodes successfully the array keeps them all:
/// its length equals the input length, and decoding each buffer recovers
/// the corresponding input candidate, in order.
pub proof fn lemma_all_encodable_kept(cands: Seq<Seq<u8>>)
    requires
        forall|i: int| 0 <= i < cands.len() ==> !has_interior_null(#[trigger] cands[i]),
    ensures
        kept_candidates(cands).len() == cands.len(),
        forall|i: int|
            0 <= i < cands.len() ==> #[trigger] kept_candidates(cands)[i] == cands[i].push(
                0u8,
            ),
        forall|i: int|
            0 <= i < cands.len() ==> decoded(#[trigger] kept_candidates(cands)[i]) == cands[i],
    decreases cands.len(),
{
    if cands.len() > 0 {
        let init = cands.drop_last();
        assert(forall|i: int| 0 <= i < init.len() ==> init[i] == cands[i]);
        lemma_all_encodable_kept(init);
        assert(!has_interior_null(cands.last()));
        assert(kept_candidates(cands) == kept_candidates(init).push(cands.last().push(0u8)));
        assert forall|i: int| 0 <= i < cands.len() implies #[trigger] kept_candidates(cands)[i]
            == cands[i].push(0u8) by {
            if i < cands.len() - 1 {
                assert(kept_candidates(cands)[i] == kept_candidates(init)[i]);
            }
        }
    }
    assert forall|i: int| 0 <= i < cands.len() implies decoded(
        #[trigger] kept_candidates(cands)[i],
    ) == cands[i] by {
        lemma_encode_decode_round_trip(cands[i]);
    }
}

/// When no candidate encodes successfully nothing is kept: the bridge
/// releases the array it allocated and reports a count of zero.
pub proof fn lemma_none_encodable_keeps_nothing(cands: Seq<Seq<u8>>)
    requires
        forall|i: int| 0 <= i < cands.len() ==> has_interior_null(#[trigger] cands[i]),
    ensures
        kept_candidates(cands).len() == 0,
    decreases cands.len(),
{
    if cands.len() > 0 {
        let init = cands.drop_last();
        assert(forall|i: int| 0 <= i < init.len() ==> init[i] == cands[i]);
        lemma_none_encodable_keeps_nothing(init);
    }
}

} // verus!
