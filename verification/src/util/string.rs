//! Fixed-size strings as Vulkan reports them: nul-terminated UTF-8 in 256 bytes.

use std::str::Utf8Error;
use vstd::prelude::*;

verus! {

#[verifier::external_type_specification]
#[verifier::external_body]
pub struct ExUtf8Error(Utf8Error);

/// `std::str::from_utf8`: succeeds exactly when the bytes are valid UTF-8, and then
/// holds the characters they encode.
#[verifier::external_body]
fn str_from_utf8(bytes: &[u8]) -> (r: Result<&str, Utf8Error>)
    ensures
        r is Ok <==> vstd::utf8::valid_utf8(bytes@),
        r matches Ok(s) ==> s@ == vstd::utf8::decode_utf8(bytes@),
{
    std::str::from_utf8(bytes)
}

/// The length of the string held in `raw`: the bytes before the first nul, or all
/// of them when there is none.
pub open spec fn nul_terminated_len(raw: Seq<u8>) -> int
    decreases raw.len(),
{
    if raw.len() == 0 {
        0
    } else if raw[0] == 0 {
        0
    } else {
        1 + nul_terminated_len(raw.drop_first())
    }
}

/// The string in a buffer is the bytes before its first nul: none of them is nul, and
/// the byte after them, if the buffer goes on, is nul.
pub proof fn lemma_nul_terminated_len(raw: Seq<u8>)
    ensures
        0 <= nul_terminated_len(raw) <= raw.len(),
        forall|i: int| 0 <= i < nul_terminated_len(raw) ==> raw[i] != 0,
        nul_terminated_len(raw) < raw.len() ==> raw[nul_terminated_len(raw)] == 0,
    decreases raw.len(),
{
    if raw.len() > 0 && raw[0] != 0 {
        lemma_nul_terminated_len(raw.drop_first());
        assert forall|i: int| 0 <= i < nul_terminated_len(raw) implies raw[i] != 0 by {
            if i > 0 {
                assert(raw[i] == raw.drop_first()[i - 1]);
            }
        }
    }
}

/// A string of at most 256 bytes, read from a nul-terminated UTF-8 buffer.
#[derive(Clone, Copy, Debug)]
pub struct VkSmallString {
    raw: [u8; 256],
    len: usize,
}

impl VkSmallString {
    #[verifier::type_invariant]
    spec fn wf(&self) -> bool {
        &&& self.len as int == nul_terminated_len(self.raw@)
        &&& vstd::utf8::valid_utf8(self.raw@.take(self.len as int))
    }

    /// The bytes of the string (without the terminating nul).
    pub closed spec fn bytes_view(&self) -> Seq<u8> {
        self.raw@.take(self.len as int)
    }

    /// Reads the string in `raw`: the bytes up to the first nul (all 256 when there is
    /// none), which must be valid UTF-8.
    pub fn try_from(raw: [u8; 256]) -> (r: Result<VkSmallString, Utf8Error>)
        ensures
            r is Ok <==> vstd::utf8::valid_utf8(raw@.take(nul_terminated_len(raw@))),
            r matches Ok(s) ==> s.bytes_view() == raw@.take(nul_terminated_len(raw@)),
    {
        proof {
            lemma_nul_terminated_len(raw@);
        }
        let mut len: usize = 0;
        while len < 256 && raw[len] != 0
            invariant
                len <= 256,
                raw@.len() == 256,
                forall|i: int| 0 <= i < len ==> raw@[i] != 0,
                len <= nul_terminated_len(raw@),
                nul_terminated_len(raw@) <= 256,
                nul_terminated_len(raw@) < 256 ==> raw@[nul_terminated_len(raw@)] == 0,
            decreases 256 - len,
        {
            len = len + 1;
        }
        let prefix = vstd::slice::slice_subrange(raw.as_slice(), 0, len);
        match str_from_utf8(prefix) {
            Ok(_) => Ok(VkSmallString { raw, len }),
            Err(e) => Err(e),
        }
    }

    /// The bytes of the string.
    pub fn as_bytes(&self) -> (r: &[u8])
        ensures
            r@ == self.bytes_view(),
            vstd::utf8::valid_utf8(r@),
            forall|i: int| 0 <= i < r@.len() ==> r@[i] != 0,
    {
        proof {
            use_type_invariant(self);
            lemma_nul_terminated_len(self.raw@);
        }
        vstd::slice::slice_subrange(self.raw.as_slice(), 0, self.len)
    }

    /// The length of the string in bytes.
    pub fn len(&self) -> (r: usize)
        ensures
            r == self.bytes_view().len(),
            r <= 256,
    {
        proof {
            use_type_invariant(self);
            lemma_nul_terminated_len(self.raw@);
        }
        self.len
    }
}

} // verus!
