use vstd::prelude::*;

use crate::error::ConstructionError;

verus! {

/// Copies `from` into `to`. The copy is refused, and `to` left unchanged,
/// unless `from` holds exactly `len` bytes and `to` has exactly `len` slots;
/// each refusal names the exact mismatch.
pub fn copy_bytes_to_array<const N: usize>(
    to: &mut [u8; N],
    from: &[u8],
    len: usize,
) -> (r: Result<(), ConstructionError>)
    ensures
        (match r {
            Ok(()) => from@.len() == len && N == len && final(to)@ == from@,
            Err(ConstructionError::TooLong { excess }) => from@.len() > len && excess == from@.len()
                - len && *final(to) == *old(to),
            Err(ConstructionError::TooShort { missing }) => from@.len() < len && missing == len
                - from@.len() && *final(to) == *old(to),
            Err(ConstructionError::LengthMismatch) => from@.len() == len && N != len && *final(to)
                == *old(to),
            Err(_) => false,
        }),
{
    if from.len() > len {
        return Err(ConstructionError::TooLong { excess: from.len() - len });
    }
    if from.len() < len {
        return Err(ConstructionError::TooShort { missing: len - from.len() });
    }
    if N != len {
        return Err(ConstructionError::LengthMismatch);
    }
    let mut i: usize = 0;
    while i < len
        invariant
            from@.len() == len,
            N == len,
            i <= len,
            forall|j: int| 0 <= j < i ==> to@[j] == from@[j],
        decreases len - i,
    {
        to[i] = from[i];
        i += 1;
    }
    proof {
        assert(to@ =~= from@);
    }
    Ok(())
}

/// Copies a byte slice of exactly `N` bytes into a fresh array of `N` slots;
/// any other input length is refused with the exact byte-count mismatch.
pub fn bytes_to_array<const N: usize>(bytes: &[u8]) -> (r: Result<[u8; N], ConstructionError>)
    ensures
        (match r {
            Ok(arr) => bytes@.len() == N && arr@ == bytes@,
            Err(ConstructionError::TooLong { excess }) => bytes@.len() > N && excess == bytes@.len()
                - N,
            Err(ConstructionError::TooShort { missing }) => bytes@.len() < N && missing == N
                - bytes@.len(),
            Err(_) => false,
        }),
{
    let mut arr: [u8; N] = [0u8; N];
    match copy_bytes_to_array(&mut arr, bytes, N) {
        Ok(()) => Ok(arr),
        Err(e) => Err(e),
    }
}

/// Well-formed NUL-terminated content: at least the terminator byte, the
/// terminator exactly at the end, and no terminator anywhere before it.
pub open spec fn is_c_str_bytes(bytes: Seq<u8>) -> bool {
    &&& bytes.len() >= 1
    &&& bytes[bytes.len() - 1] == 0u8
    &&& forall|i: int| 0 <= i < bytes.len() - 1 ==> bytes[i] != 0u8
}

/// `j` is the position of the first terminator byte in `bytes`.
pub open spec fn is_first_nul(bytes: Seq<u8>, j: int) -> bool {
    &&& 0 <= j < bytes.len()
    &&& bytes[j] == 0u8
    &&& forall|i: int| 0 <= i < j ==> bytes[i] != 0u8
}

/// Checks that `bytes` is well-formed NUL-terminated content; a terminator
/// before the final position is named by where it stands, and terminator-free
/// content is refused as unterminated.
pub fn validate_c_str_bytes(bytes: &[u8]) -> (r: Result<(), ConstructionError>)
    ensures
        (match r {
            Ok(()) => is_c_str_bytes(bytes@),
            Err(ConstructionError::InteriorNul { position }) => is_first_nul(
                bytes@,
                position as int,
            ) && position + 1 < bytes@.len(),
            Err(ConstructionError::MissingNulTerminator) => forall|i: int|
                0 <= i < bytes@.len() ==> bytes@[i] != 0u8,
            Err(_) => false,
        }),
{
    let len = bytes.len();
    let mut i: usize = 0;
    while i < len
        invariant
            len == bytes@.len(),
            i <= len,
            forall|j: int| 0 <= j < i ==> bytes@[j] != 0u8,
        decreases len - i,
    {
        if bytes[i] == 0 {
            if i + 1 < len {
                return Err(ConstructionError::InteriorNul { position: i });
            }
            return Ok(());
        }
        i += 1;
    }
    Err(ConstructionError::MissingNulTerminator)
}

} // verus!
