use vstd::pervasive::unreached;
use vstd::prelude::*;
use vstd::string::StringSliceAdditionalSpecFns;
use vstd::utf8::decode_utf8;
use vstd::utf8::encode_utf8;
use vstd::utf8::encode_utf8_decode_utf8;
use vstd::utf8::encode_utf8_valid_utf8;
use vstd::utf8::valid_utf8;

use crate::bytes::bytes_to_array;
use crate::error::ConstructionError;
use crate::wrapper::NonDeDuplicatedFlexible;

verus! {

/// For non-de-duplicated text stored in `static` variables. The text is
/// stored as a fixed-size byte array, the one representation with a stable
/// size, and read back as text.
pub type NonDeDuplicatedStr<const N: usize> = NonDeDuplicatedFlexible<[u8; N], str>;

/// Relies on `core::str::from_utf8`: it succeeds exactly when the bytes are
/// well-formed UTF-8, and the text it returns views those same bytes.
#[verifier::external_body]
fn utf8_view(bytes: &[u8]) -> (r: Option<&str>)
    ensures
        r is Some <==> valid_utf8(bytes@),
        r matches Some(s) ==> s.spec_bytes() == bytes@,
{
    match core::str::from_utf8(bytes) {
        Ok(s) => Some(s),
        Err(_) => None,
    }
}

impl<const N: usize> NonDeDuplicatedStr<N> {
    /// The stored bytes.
    pub open spec fn bytes(&self) -> Seq<u8> {
        self.wrapped()@
    }

    /// What every constructor establishes: the stored bytes decode as text.
    pub open spec fn wf(&self) -> bool {
        valid_utf8(self.bytes())
    }

    /// Construct a new instance around text of exactly `N` bytes; text of any
    /// other byte length is refused with the exact byte-count mismatch.
    pub fn new(s: &str) -> (r: Result<Self, ConstructionError>)
        ensures
            (match r {
                Ok(w) => s.spec_bytes().len() == N && w.bytes() == s.spec_bytes() && w.wf(),
                Err(ConstructionError::TooLong { excess }) => s.spec_bytes().len() > N && excess
                    == s.spec_bytes().len() - N,
                Err(ConstructionError::TooShort { missing }) => s.spec_bytes().len() < N && missing
                    == N - s.spec_bytes().len(),
                Err(_) => false,
            }),
    {
        let arr = match bytes_to_array::<N>(s.as_bytes()) {
            Ok(arr) => arr,
            Err(e) => {
                return Err(e);
            },
        };
        proof {
            encode_utf8_valid_utf8(s@);
        }
        Ok(Self::from_value(arr))
    }

    /// Get a reference.
    ///
    /// The stored bytes are re-validated on every call - this type is meant
    /// for `static` variables, so correctness is preferred over speed - and
    /// the constructors' validation makes the failing branch unreachable.
    pub fn get(&self) -> (r: &str)
        requires
            self.wf(),
        ensures
            r.spec_bytes() == self.bytes(),
            r@ == decode_utf8(self.bytes()),
    {
        let arr = self.borrow_wrapped();
        match utf8_view(arr.as_slice()) {
            Some(s) => {
                proof {
                    encode_utf8_decode_utf8(s@);
                }
                s
            },
            None => unreached(),
        }
    }
}

/// Round trip: when a wrapper stores the encoding of a text `s`, and a read
/// hands back a text `r` with those same stored bytes, `r` is `s` itself.
/// This is the bridge between the constructors' and the accessor's contracts,
/// which both speak of the stored bytes.
pub proof fn lemma_str_round_trip<const N: usize>(
    w: NonDeDuplicatedStr<N>,
    s: Seq<char>,
    r: Seq<char>,
)
    requires
        w.bytes() == encode_utf8(s),
        encode_utf8(r) == w.bytes(),
    ensures
        r == s,
{
    encode_utf8_decode_utf8(s);
    encode_utf8_decode_utf8(r);
}

} // verus!
