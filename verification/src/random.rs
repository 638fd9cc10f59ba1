use vstd::prelude::*;

use crate::errors::AppError;

verus! {

/// Uniform index selection over a pool of `length` candidates.
///
/// The randomness source itself lives in the host: it supplies `entropy`, a
/// raw random word with no reproducibility guarantee. This function reduces
/// the word into `[0, length)`. An empty pool is reported as
/// `NoCandidates` rather than yielding an out-of-range index.
pub fn get_random(length: usize, entropy: u64) -> (r: Result<usize, AppError>)
    ensures
        r is Err <==> length == 0,
        r is Err ==> r == Err::<usize, AppError>(AppError::NoCandidates),
        r matches Ok(i) ==> i < length && i as int == entropy as int % length as int,
{
    if length == 0 {
        Err(AppError::NoCandidates)
    } else {
        Ok((entropy % (length as u64)) as usize)
    }
}

} // verus!
