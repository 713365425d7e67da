//! Text of bounded length, stored in a fixed number of bytes.

use vstd::array::array_fill_for_copy_types;
use vstd::prelude::*;
use vstd::slice::slice_subrange;
use vstd::string::StringSliceAdditionalSpecFns;
use vstd::utf8::{
    encode_utf8, encode_utf8_valid_utf8, is_char_boundary_iff_not_is_continuation_byte,
    is_char_boundary_start_end_of_seq, valid_utf8, valid_utf8_split,
};

verus! {

/// The position of the first zero byte, or the length where there is none.
pub open spec fn first_zero(bytes: Seq<u8>) -> int
    decreases bytes.len(),
{
    if bytes.len() == 0 || bytes[0] == 0 {
        0
    } else {
        1 + first_zero(bytes.drop_first())
    }
}

/// The bytes before the first zero byte.
pub open spec fn until_zero(bytes: Seq<u8>) -> Seq<u8> {
    bytes.take(first_zero(bytes))
}

/// `content` followed by zero bytes up to the length `n`.
pub open spec fn zero_padded(content: Seq<u8>, n: nat) -> Seq<u8> {
    Seq::new(n, |i: int| if i < content.len() { content[i] } else { 0u8 })
}

/// `first_zero` is the least position of a zero byte.
pub proof fn lemma_first_zero(bytes: Seq<u8>)
    ensures
        0 <= first_zero(bytes) <= bytes.len(),
        first_zero(bytes) < bytes.len() ==> bytes[first_zero(bytes)] == 0,
        forall|j: int| 0 <= j < first_zero(bytes) ==> bytes[j] != 0,
    decreases bytes.len(),
{
    if bytes.len() == 0 || bytes[0] == 0 {
    } else {
        lemma_first_zero(bytes.drop_first());
        assert forall|j: int| 0 <= j < first_zero(bytes) implies bytes[j] != 0 by {
            if j > 0 {
                assert(bytes.drop_first()[j - 1] == bytes[j]);
            }
        }
    }
}

/// A position before which no byte is zero, and which is the end or holds a
/// zero byte, is the position of the first zero byte.
pub proof fn lemma_first_zero_is(bytes: Seq<u8>, e: int)
    requires
        0 <= e <= bytes.len(),
        forall|j: int| 0 <= j < e ==> bytes[j] != 0,
        e < bytes.len() ==> bytes[e] == 0,
    ensures
        first_zero(bytes) == e,
{
    lemma_first_zero(bytes);
}

/// `std::str::from_utf8`: the text that the bytes encode, or `None` where they
/// are not valid UTF-8.
#[verifier::external_body]
fn utf8_text(bytes: &[u8]) -> (r: Option<&str>)
    ensures
        match r {
            Some(s) => valid_utf8(bytes@) && s.spec_bytes() == bytes@,
            None => !valid_utf8(bytes@),
        },
{
    std::str::from_utf8(bytes).ok()
}

/// Text of at most `LENGTH` bytes.
pub struct VarChar<const LENGTH: usize> {
    inner: [u8; LENGTH],
}

impl<const LENGTH: usize> VarChar<LENGTH> {
    /// The bytes stored, padding included.
    pub closed spec fn bytes(&self) -> Seq<u8> {
        self.inner@
    }

    #[verifier::type_invariant]
    spec fn holds_text(&self) -> bool {
        valid_utf8(until_zero(self.inner@))
    }

    /// Try to create a VarChar from a `&str`. Will error if too long.
    pub fn new(s: &str) -> (r: Result<Self, &'static str>)
        ensures
            s.spec_bytes().len() > LENGTH ==> (r matches Err(msg) && msg@ == "String too long"@),
            s.spec_bytes().len() <= LENGTH ==> (r matches Ok(v) && v.bytes() == zero_padded(
                s.spec_bytes(),
                LENGTH as nat,
            )),
    {
        let bytes = s.as_bytes();
        if bytes.len() > LENGTH {
            return Err("String too long");
        }
        let mut inner: [u8; LENGTH] = array_fill_for_copy_types(0u8);
        let mut i: usize = 0;
        while i < bytes.len()
            invariant
                i <= bytes@.len() <= LENGTH,
                forall|j: int| 0 <= j < i ==> inner@[j] == bytes@[j],
                forall|j: int| i <= j < LENGTH ==> inner@[j] == 0,
            decreases bytes.len() - i,
        {
            inner[i] = bytes[i];
            i = i + 1;
        }
        proof {
            let content = s.spec_bytes();
            assert(inner@ =~= zero_padded(content, LENGTH as nat));
            lemma_first_zero(inner@);
            let e = first_zero(inner@);
            if content.len() < LENGTH {
                assert(inner@[content.len() as int] == 0);
            }
            assert(e <= content.len());
            assert(until_zero(inner@) =~= content.subrange(0, e));
            encode_utf8_valid_utf8(s@);
            if e < content.len() {
                is_char_boundary_iff_not_is_continuation_byte(content, e);
            } else {
                is_char_boundary_start_end_of_seq(content);
            }
            valid_utf8_split(content, e);
        }
        Ok(VarChar { inner })
    }

    /// Get the inner string (trims trailing zeros).
    pub fn as_str(&self) -> (r: &str)
        ensures
            r.spec_bytes() == until_zero(self.bytes()),
    {
        proof {
            use_type_invariant(self);
        }
        let mut end: usize = 0;
        while end < LENGTH && self.inner[end] != 0
            invariant
                end <= LENGTH,
                forall|j: int| 0 <= j < end ==> self.inner@[j] != 0,
            decreases LENGTH - end,
        {
            end = end + 1;
        }
        proof {
            lemma_first_zero_is(self.inner@, end as int);
        }
        let text = slice_subrange(self.inner.as_slice(), 0, end);
        assert(text@ =~= until_zero(self.inner@));
        match utf8_text(text) {
            Some(s) => s,
            None => "",
        }
    }

    /// The text as an owned string.
    pub fn to_string(&self) -> (r: String)
        ensures
            encode_utf8(r@) == until_zero(self.bytes()),
    {
        self.as_str().to_owned()
    }
}

} // verus!
