use vstd::prelude::*;

verus! {

/// The position of a transfer that stood at `downloaded` of `total` bytes
/// once `written` more bytes are on disk: their sum, held at `total`.
pub open spec fn advanced(downloaded: u64, written: usize, total: u64) -> u64 {
    if downloaded + written >= total {
        total
    } else {
        (downloaded + written) as u64
    }
}

/// Moves a transfer's position forward by the bytes just written, never past
/// the declared total. The sum is taken without wrapping, however large the
/// operands are.
pub fn advance(downloaded: u64, written: usize, total: u64) -> (position: u64)
    ensures
        position == advanced(downloaded, written, total),
        position <= total,
        downloaded <= total ==> downloaded <= position,
{
    if downloaded >= total {
        total
    } else if written as u64 >= total - downloaded {
        total
    } else {
        downloaded + written as u64
    }
}

} // verus!
