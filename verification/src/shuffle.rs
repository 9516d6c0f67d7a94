//! Random permutation of a playlist's file order.
//!
//! A shuffled playlist is permuted once, when the cue is prepared; the
//! order then stays fixed for the life of the prepared executable.

use rand::seq::SliceRandom;
use vstd::prelude::*;

verus! {

/// Relies on rand's SliceRandom::shuffle (Fisher–Yates over the whole
/// slice): the files are permuted in place, so exactly the same files
/// remain, each exactly as often as before.  Which order comes out is
/// random and nothing is promised of it.
#[verifier::external_body]
pub fn shuffle_files(files: &mut Vec<String>)
    ensures
        final(files)@.len() == old(files)@.len(),
        final(files)@.to_multiset() == old(files)@.to_multiset(),
{
    files.shuffle(&mut rand::thread_rng());
}

}
