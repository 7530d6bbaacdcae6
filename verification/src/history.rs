//! Interpretation of the native editor's history operations.
//!
//! Reading and writing the history file are native calls: this module
//! holds what surrounds them.  A request is valid only when the path can
//! cross the boundary as a null-terminated buffer, and the native call's
//! status code decides success — its designated all-clear code is zero,
//! anything else surfaces as a failure naming the path.

use vstd::prelude::*;

use crate::codec::encode_duplicate;
use crate::codec::has_interior_null;

verus! {

/// A failed history operation, naming the path it failed on.
#[derive(Debug)]
pub struct HistoryError {
    pub path: Vec<u8>,
}

/// The status code the native history calls report on success.
pub const HISTORY_OK: i32 = 0;

/// Prepares the path buffer a history call hands to the native editor:
/// the null-terminated duplicate of `path` when it holds no interior
/// null byte, otherwise a failure naming the path — such a path cannot
/// reach the native side at all.
pub fn history_request(path: &Vec<u8>) -> (r: Result<Vec<u8>, HistoryError>)
    ensures
        r is Ok <==> !has_interior_null(path@),
        r is Ok ==> r->Ok_0@ == path@.push(0u8),
        r is Err ==> r->Err_0.path@ == path@,
{
    match encode_duplicate(path) {
        Some(buf) => Ok(buf),
        None => {
            let named = copy_path(path);
            Err(HistoryError { path: named })
        },
    }
}

/// Interprets the status code a native history call returned: success
/// exactly on the all-clear code, otherwise a failure naming the path
/// the call was made with.
pub fn history_result(code: i32, path: &Vec<u8>) -> (r: Result<(), HistoryError>)
    ensures
        r is Ok <==> code == HISTORY_OK,
        r is Err ==> r->Err_0.path@ == path@,
{
    if code == HISTORY_OK {
        Ok(())
    } else {
        let named = copy_path(path);
        Err(HistoryError { path: named })
    }
}

/// Byte-for-byte copy of a path, for carrying it into a failure value.
fn copy_path(path: &Vec<u8>) -> (r: Vec<u8>)
    ensures
        r@ == path@,
{
    let mut out: Vec<u8> = Vec::new();
    let mut i: usize = 0;
    while i < path.len()
        invariant
            i <= path.len(),
            out@ == path@.take(i as int),
        decreases path.len() - i,
    {
        out.push(path[i]);
        assert(out@ =~= path@.take(i + 1));
        i = i + 1;
    }
    assert(out@ =~= path@);
    out
}

} // verus!
