//! Conversion between host text and null-terminated byte buffers.
//!
//! Text crosses into the native editor as a null-terminated buffer, so a
//! byte sequence can be carried across exactly when it holds no interior
//! null byte.  `encode_duplicate` models the duplicating direction: it
//! yields the buffer the native side receives, terminator included, and
//! refuses text that cannot be represented.  `decode` models the reading
//! direction: from a buffer handed back by the native side (or none, for
//! a null pointer) it recovers the text before the first null byte.

use vstd::prelude::*;

verus! {

/// True when `s` holds a null byte, which a null-terminated buffer cannot
/// carry as content.
pub open spec fn has_interior_null(s: Seq<u8>) -> bool {
    exists|i: int| 0 <= i < s.len() && s[i] == 0u8
}

/// Index of the first null byte of `s`, or `s.len()` when there is none.
pub open spec fn first_null(s: Seq<u8>) -> int
    decreases s.len(),
{
    if s.len() == 0 {
        0
    } else if s[0] == 0u8 {
        0
    } else {
        1 + first_null(s.drop_first())
    }
}

/// The text a reader of a null-terminated buffer sees: everything before
/// the first null byte.
pub open spec fn decoded(s: Seq<u8>) -> Seq<u8> {
    s.take(first_null(s))
}

/// A position with only non-null bytes before it that is either the end
/// of `s` or a null byte is exactly `first_null(s)`.
pub proof fn lemma_first_null_at(s: Seq<u8>, i: int)
    requires
        0 <= i <= s.len(),
        forall|j: int| 0 <= j < i ==> s[j] != 0u8,
        i < s.len() ==> s[i] == 0u8,
    ensures
        first_null(s) == i,
    decreases s.len(),
{
    if i == 0 {
    } else {
        assert(s[0] != 0u8);
        let rest = s.drop_first();
        assert(forall|j: int| 0 <= j < i - 1 ==> rest[j] == s[j + 1] && s[j + 1] != 0u8);
        lemma_first_null_at(rest, i - 1);
    }
}

/// Duplicates `text` into the null-terminated buffer the native side
/// receives.  Fails exactly when `text` holds an interior null byte, in
/// which case nothing is produced.
pub fn encode_duplicate(text: &Vec<u8>) -> (r: Option<Vec<u8>>)
    ensures
        r is Some <==> !has_interior_null(text@),
        r is Some ==> r->Some_0@ == text@.push(0u8),
{
    let mut out: Vec<u8> = Vec::new();
    let mut i: usize = 0;
    while i < text.len()
        invariant
            i <= text.len(),
            out@ == text@.take(i as int),
            forall|j: int| 0 <= j < i ==> text@[j] != 0u8,
        decreases text.len() - i,
    {
        let b = text[i];
        if b == 0 {
            assert(has_interior_null(text@));
            return None;
        }
        out.push(b);
        assert(out@ =~= text@.take(i + 1));
        i = i + 1;
    }
    assert(!has_interior_null(text@));
    out.push(0);
    assert(out@ =~= text@.push(0u8));
    Some(out)
}

/// Reads the text out of a native string buffer: nothing for a null
/// pointer (modelled as `None`), otherwise the bytes before the first
/// null byte of the buffer.
pub fn decode(buf: Option<&Vec<u8>>) -> (r: Option<Vec<u8>>)
    ensures
        r is Some <==> buf is Some,
        buf is Some ==> r->Some_0@ == decoded(buf->Some_0@),
{
    match buf {
        None => None,
        Some(b) => {
            let mut out: Vec<u8> = Vec::new();
            let mut i: usize = 0;
            while i < b.len() && b[i] != 0
                invariant
                    i <= b.len(),
                    out@ == b@.take(i as int),
                    forall|j: int| 0 <= j < i ==> b@[j] != 0u8,
                decreases b.len() - i,
            {
                out.push(b[i]);
                assert(out@ =~= b@.take(i + 1));
                i = i + 1;
            }
            proof {
                lemma_first_null_at(b@, i as int);
            }
            Some(out)
        },
    }
}

/// Round trip: text without interior null bytes survives encoding into a
/// null-terminated buffer and decoding back unchanged.
pub proof fn lemma_encode_decode_round_trip(text: Seq<u8>)
    requires
        !has_interior_null(text),
    ensures
        decoded(text.push(0u8)) == text,
{
    let buf = text.push(0u8);
    assert(forall|j: int| 0 <= j < text.len() ==> buf[j] != 0u8);
    lemma_first_null_at(buf, text.len() as int);
    assert(buf.take(text.len() as int) =~= text);
}

} // verus!
