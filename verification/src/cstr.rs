use vstd::pervasive::unreached;
use vstd::prelude::*;
use vstd::string::StringSliceAdditionalSpecFns;
use vstd::utf8::encode_utf8;

use crate::bytes::bytes_to_array;
use crate::bytes::is_c_str_bytes;
use crate::bytes::is_first_nul;
use crate::bytes::validate_c_str_bytes;
use crate::error::ConstructionError;
use crate::wrapper::NonDeDuplicatedFlexible;

verus! {

/// Owned, validated NUL-terminated byte content: the terminator stands
/// exactly at the end and nowhere before it. This is the crate's own shape
/// for C-string content, so that the wrapped bytes carry their
/// well-formedness with them.
#[derive(Debug)]
pub struct CStrBytes {
    bytes: Vec<u8>,
}

impl CStrBytes {
    /// The content, terminator included.
    pub closed spec fn bytes(&self) -> Seq<u8> {
        self.bytes@
    }

    #[verifier::type_invariant]
    spec fn inv(&self) -> bool {
        is_c_str_bytes(self.bytes@)
    }

    /// Validates and takes ownership of NUL-terminated content, like
    /// `b"abc\0"`: no terminator before the end, and the terminator exactly
    /// at the end.
    pub fn new(bytes: Vec<u8>) -> (r: Result<Self, ConstructionError>)
        ensures
            (match r {
                Ok(c) => is_c_str_bytes(bytes@) && c.bytes() == bytes@,
                Err(ConstructionError::InteriorNul { position }) => is_first_nul(
                    bytes@,
                    position as int,
                ) && position + 1 < bytes@.len(),
                Err(ConstructionError::MissingNulTerminator) => forall|i: int|
                    0 <= i < bytes@.len() ==> bytes@[i] != 0u8,
                Err(_) => false,
            }),
    {
        match validate_c_str_bytes(bytes.as_slice()) {
            Ok(()) => Ok(CStrBytes { bytes }),
            Err(e) => Err(e),
        }
    }

    /// Read-only access to the content, terminator included.
    pub fn as_bytes(&self) -> (r: &[u8])
        ensures
            r@ == self.bytes(),
            is_c_str_bytes(r@),
    {
        proof {
            use_type_invariant(self);
        }
        self.bytes.as_slice()
    }
}

/// For non-de-duplicated C-string content stored in `static` variables. The
/// content is stored as a fixed-size byte array holding the terminator in its
/// final slot, and read back as the raw NUL-terminated bytes.
pub type NonDeDuplicatedCStr<const N: usize> = NonDeDuplicatedFlexible<[u8; N], CStrBytes>;

impl<const N: usize> NonDeDuplicatedCStr<N> {
    /// The stored bytes, terminator included.
    pub open spec fn bytes(&self) -> Seq<u8> {
        self.wrapped()@
    }

    /// What every constructor establishes: the stored bytes are well-formed
    /// NUL-terminated content.
    pub open spec fn wf(&self) -> bool {
        is_c_str_bytes(self.bytes())
    }

    /// Construct a new instance around validated content of exactly `N`
    /// bytes, terminator included; content of any other length is refused
    /// with the exact byte-count mismatch.
    pub fn new(s: &CStrBytes) -> (r: Result<Self, ConstructionError>)
        ensures
            (match r {
                Ok(w) => s.bytes().len() == N && w.bytes() == s.bytes() && w.wf(),
                Err(ConstructionError::TooLong { excess }) => s.bytes().len() > N && excess
                    == s.bytes().len() - N,
                Err(ConstructionError::TooShort { missing }) => s.bytes().len() < N && missing == N
                    - s.bytes().len(),
                Err(_) => false,
            }),
    {
        let arr = match bytes_to_array::<N>(s.as_bytes()) {
            Ok(arr) => arr,
            Err(e) => {
                return Err(e);
            },
        };
        Ok(Self::from_value(arr))
    }

    /// Construct a new instance around a raw fixed-size byte array. The array
    /// must be well-formed NUL-terminated content - no terminator before the
    /// end, the terminator exactly at the end, like `b"abc\0"` - and is
    /// validated here rather than on a later read.
    pub fn new_from_bytes(arr: [u8; N]) -> (r: Result<Self, ConstructionError>)
        ensures
            (match r {
                Ok(w) => is_c_str_bytes(arr@) && w.bytes() == arr@ && w.wf(),
                Err(ConstructionError::InteriorNul { position }) => is_first_nul(
                    arr@,
                    position as int,
                ) && position + 1 < N,
                Err(ConstructionError::MissingNulTerminator) => forall|i: int|
                    0 <= i < N ==> arr@[i] != 0u8,
                Err(_) => false,
            }),
    {
        match validate_c_str_bytes(arr.as_slice()) {
            Ok(()) => Ok(Self::from_value(arr)),
            Err(e) => Err(e),
        }
    }

    /// Construct a new instance around text, which must fill all but the last
    /// slot exactly; the terminator is appended automatically, so the text
    /// itself must not contain a terminator byte.
    pub fn new_from_str(s: &str) -> (r: Result<Self, ConstructionError>)
        requires
            N >= 1,
        ensures
            (match r {
                Ok(w) => s.spec_bytes().len() == N - 1 && (forall|i: int|
                    0 <= i < s.spec_bytes().len() ==> s.spec_bytes()[i] != 0u8) && w.bytes()
                    == s.spec_bytes().push(0u8) && w.wf(),
                Err(ConstructionError::LengthMismatch) => s.spec_bytes().len() != N - 1,
                Err(ConstructionError::InteriorNul { position }) => s.spec_bytes().len() == N - 1
                    && is_first_nul(s.spec_bytes(), position as int),
                Err(_) => false,
            }),
    {
        let bytes = s.as_bytes();
        if bytes.len() != N - 1 {
            return Err(ConstructionError::LengthMismatch);
        }
        let mut arr: [u8; N] = [0u8; N];
        let mut i: usize = 0;
        while i < N - 1
            invariant
                N >= 1,
                bytes@.len() == N - 1,
                i <= N - 1,
                arr@.len() == N,
                forall|j: int| 0 <= j < i ==> arr@[j] == bytes@[j],
                forall|j: int| i <= j < N ==> arr@[j] == 0u8,
            decreases N - 1 - i,
        {
            arr[i] = bytes[i];
            i += 1;
        }
        proof {
            assert(arr@ =~= s.spec_bytes().push(0u8));
        }
        let r = Self::new_from_bytes(arr);
        proof {
            assert(arr@[N - 1] == 0u8);
            if r is Ok {
                assert forall|j: int| 0 <= j < s.spec_bytes().len() implies s.spec_bytes()[j]
                    != 0u8 by {
                    assert(arr@[j] == s.spec_bytes()[j]);
                }
            }
        }
        r
    }

    /// Get a reference to the stored NUL-terminated bytes.
    ///
    /// The stored bytes are re-validated on every call - this type is meant
    /// for `static` variables, so correctness is preferred over speed - and
    /// the constructors' validation makes the failing branch unreachable.
    pub fn get(&self) -> (r: &[u8])
        requires
            self.wf(),
        ensures
            r@ == self.bytes(),
            is_c_str_bytes(r@),
    {
        let arr = self.borrow_wrapped();
        match validate_c_str_bytes(arr.as_slice()) {
            Ok(()) => arr.as_slice(),
            Err(_) => unreached(),
        }
    }
}

/// Round trip for raw content: when a wrapper stores a well-formed
/// NUL-terminated array, a read hands back exactly those bytes.
pub proof fn lemma_cstr_bytes_round_trip<const N: usize>(
    w: NonDeDuplicatedCStr<N>,
    arr: [u8; N],
    r: Seq<u8>,
)
    requires
        w.bytes() == arr@,
        r == w.bytes(),
    ensures
        r == arr@,
{
}

/// Round trip for text: when a wrapper stores the encoding of a
/// terminator-free text `s` of `N - 1` bytes followed by one terminator, a
/// read hands back exactly `s`'s bytes followed by one terminator.
pub proof fn lemma_cstr_text_round_trip<const N: usize>(
    w: NonDeDuplicatedCStr<N>,
    s: Seq<char>,
    r: Seq<u8>,
)
    requires
        w.bytes() == encode_utf8(s).push(0u8),
        r == w.bytes(),
    ensures
        r == encode_utf8(s).push(0u8),
        r.len() >= 1,
        r[r.len() - 1] == 0u8,
        r.subrange(0, r.len() - 1) == encode_utf8(s),
{
    assert(r.subrange(0, r.len() - 1) =~= encode_utf8(s));
}

} // verus!
