use vstd::prelude::*;

verus! {

/// Longest accepted file name, in bytes.
pub const MAX_FILE_NAME_LEN: usize = 100;

/// Highest accepted quality score.
pub const MAX_QUALITY_SCORE: u8 = 100;

/// Largest accepted file size, in bytes (100 MiB).
pub const MAX_FILE_SIZE: u64 = 104_857_600;

} // verus!
