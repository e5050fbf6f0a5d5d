//! Text on its way across the boundary.
//!
//! Outbound text becomes a [`CText`]: bytes closed by one zero byte, with no
//! zero byte before it. Inbound bytes become a `String` only when they are
//! valid UTF-8.

use crate::pam::{PamError, PamResult};
use vstd::prelude::*;
use vstd::string::StringSliceAdditionalSpecFns;
use vstd::utf8::{encode_scalar, encode_utf8, valid_utf8};

verus! {

/// Whether a zero byte occurs among `bytes`.
pub open spec fn has_nul(bytes: Seq<u8>) -> bool {
    exists|i: int| 0 <= i < bytes.len() && bytes[i] == 0u8
}

/// Whether the zero character occurs in `chars`.
pub open spec fn has_nul_char(chars: Seq<char>) -> bool {
    exists|i: int| 0 <= i < chars.len() && chars[i] as u32 == 0u32
}

/// A zero byte is in a concatenation when it is in one of the two parts.
proof fn lemma_has_nul_concat(a: Seq<u8>, b: Seq<u8>)
    ensures
        has_nul(a + b) <==> has_nul(a) || has_nul(b),
{
    if has_nul(a) {
        let i = choose|i: int| 0 <= i < a.len() && a[i] == 0u8;
        assert((a + b)[i] == 0u8);
    }
    if has_nul(b) {
        let i = choose|i: int| 0 <= i < b.len() && b[i] == 0u8;
        assert((a + b)[a.len() + i] == 0u8);
    }
    if has_nul(a + b) {
        let i = choose|i: int| 0 <= i < (a + b).len() && (a + b)[i] == 0u8;
        if i < a.len() {
            assert(a[i] == 0u8);
        } else {
            assert(b[i - a.len()] == 0u8);
        }
    }
}

/// The encoding of one scalar holds a zero byte only if the scalar is zero.
proof fn lemma_scalar_nul(v: u32)
    ensures
        has_nul(encode_scalar(v)) <==> v == 0,
{
    let bytes = encode_scalar(v);
    assert(v <= 0x7F ==> (((v & 0x7F) as u8) == 0u8) == (v == 0)) by (bit_vector);
    assert(0xC0u8 | ((v >> 6) & 0x1F) as u8 != 0) by (bit_vector);
    assert(0xE0u8 | ((v >> 12) & 0x0F) as u8 != 0) by (bit_vector);
    assert(0xF0u8 | ((v >> 18) & 0x7) as u8 != 0) by (bit_vector);
    assert(0x80u8 | (v & 0x3F) as u8 != 0) by (bit_vector);
    assert(0x80u8 | ((v >> 6) & 0x3F) as u8 != 0) by (bit_vector);
    assert(0x80u8 | ((v >> 12) & 0x3F) as u8 != 0) by (bit_vector);
    if v == 0 {
        assert(bytes[0] == 0u8);
    }
    if has_nul(bytes) {
        let i = choose|i: int| 0 <= i < bytes.len() && bytes[i] == 0u8;
        assert(bytes[i] == 0u8);
    }
}

/// Text holds a zero byte in its UTF-8 encoding exactly when it holds the
/// zero character.
pub proof fn lemma_nul_byte_is_nul_char(chars: Seq<char>)
    ensures
        has_nul(encode_utf8(chars)) <==> has_nul_char(chars),
    decreases chars.len(),
{
    if chars.len() == 0 {
        assert(encode_utf8(chars) =~= Seq::<u8>::empty());
    } else {
        let rest = chars.drop_first();
        lemma_nul_byte_is_nul_char(rest);
        lemma_scalar_nul(chars[0] as u32);
        lemma_has_nul_concat(encode_scalar(chars[0] as u32), encode_utf8(rest));
        if has_nul_char(rest) {
            let i = choose|i: int| 0 <= i < rest.len() && rest[i] as u32 == 0u32;
            assert(chars[i + 1] as u32 == 0u32);
        }
        if has_nul_char(chars) {
            let i = choose|i: int| 0 <= i < chars.len() && chars[i] as u32 == 0u32;
            if i > 0 {
                assert(rest[i - 1] as u32 == 0u32);
            }
        }
    }
}

/// Text in the form the framework reads: the content, then one zero byte.
#[derive(Debug)]
pub struct CText {
    bytes: Vec<u8>,
}

impl View for CText {
    type V = Seq<u8>;

    /// The content, without the closing zero byte.
    closed spec fn view(&self) -> Seq<u8> {
        self.bytes@.drop_last()
    }
}

impl CText {
    /// What holds of every `CText`: the bytes end in a zero byte and hold no
    /// other.
    #[verifier::type_invariant]
    closed spec fn wf(&self) -> bool {
        &&& self.bytes@.len() >= 1
        &&& self.bytes@.last() == 0u8
        &&& !has_nul(self.bytes@.drop_last())
    }

    /// Closes `content` with a zero byte, unless it holds one already.
    pub fn new(content: &[u8]) -> (r: PamResult<CText>)
        ensures
            has_nul(content@) <==> r == Err::<CText, PamError>(PamError::SERVICE_ERR),
            !has_nul(content@) <==> r.is_ok(),
            r matches Ok(t) ==> t@ == content@,
    {
        let mut bytes: Vec<u8> = Vec::new();
        let n: usize = content.len();
        let mut i: usize = 0;
        while i < n
            invariant
                n == content@.len(),
                i <= n,
                bytes@ == content@.subrange(0, i as int),
                !has_nul(content@.subrange(0, i as int)),
            decreases n - i,
        {
            let b: u8 = content[i];
            if b == 0 {
                assert(has_nul(content@));
                return Err(PamError::SERVICE_ERR);
            }
            bytes.push(b);
            proof {
                let prev = content@.subrange(0, i as int);
                let next = content@.subrange(0, i + 1);
                assert(next == prev.push(b));
                assert forall|j: int| 0 <= j < next.len() implies next[j] != 0u8 by {
                    if j < i {
                        assert(prev[j] == next[j]);
                    }
                }
            }
            i = i + 1;
        }
        assert(content@.subrange(0, n as int) == content@);
        bytes.push(0);
        assert(bytes@.drop_last() == content@);
        Ok(CText { bytes })
    }

    /// The text of `s` in the form the framework reads, unless `s` holds a
    /// zero byte. What goes out is the UTF-8 encoding of `s`.
    pub fn from_str(s: &str) -> (r: PamResult<CText>)
        ensures
            has_nul(s.spec_bytes()) <==> r == Err::<CText, PamError>(PamError::SERVICE_ERR),
            has_nul_char(s@) <==> r.is_err(),
            !has_nul(s.spec_bytes()) <==> r.is_ok(),
            r matches Ok(t) ==> t@ == s.spec_bytes() && valid_utf8(t@),
    {
        proof {
            vstd::utf8::encode_utf8_valid_utf8(s@);
            lemma_nul_byte_is_nul_char(s@);
        }
        CText::new(s.as_bytes())
    }

    /// The bytes as the framework reads them, closing zero included.
    pub fn as_bytes_with_nul(&self) -> (b: &[u8])
        ensures
            b@ == self@.push(0u8),
            !has_nul(self@),
    {
        proof {
            use_type_invariant(self);
            assert(self.bytes@ == self.bytes@.drop_last().push(0u8));
        }
        self.bytes.as_slice()
    }

    /// The content, without the closing zero byte.
    pub fn to_bytes(&self) -> (b: Vec<u8>)
        ensures
            b@ == self@,
    {
        proof {
            use_type_invariant(self);
        }
        let n: usize = self.bytes.len() - 1;
        let mut out: Vec<u8> = Vec::new();
        let mut i: usize = 0;
        while i < n
            invariant
                n + 1 == self.bytes@.len(),
                i <= n,
                out@ == self.bytes@.subrange(0, i as int),
            decreases n - i,
        {
            out.push(self.bytes[i]);
            assert(self.bytes@.subrange(0, i + 1) == self.bytes@.subrange(0, i as int).push(
                self.bytes@[i as int],
            ));
            i = i + 1;
        }
        assert(self.bytes@.subrange(0, n as int) == self.bytes@.drop_last());
        out
    }
}

/// Reads bytes received from the framework as text.
///
/// Calls `core::str::from_utf8`. The standard library documents that it
/// succeeds exactly on well-formed UTF-8 and that the text it returns is made
/// of the very bytes it was given.
#[verifier::external_body]
fn str_from_utf8(bytes: &[u8]) -> (r: Option<&str>)
    ensures
        r.is_some() == valid_utf8(bytes@),
        r matches Some(s) ==> s.spec_bytes() == bytes@,
{
    match core::str::from_utf8(bytes) {
        Ok(s) => Some(s),
        Err(_) => None,
    }
}

/// Reads bytes received from the framework as text, if they are valid UTF-8.
pub fn text_from_bytes(bytes: &[u8]) -> (r: PamResult<String>)
    ensures
        valid_utf8(bytes@) <==> r.is_ok(),
        !valid_utf8(bytes@) <==> r == Err::<String, PamError>(PamError::SERVICE_ERR),
        r matches Ok(s) ==> s@ == vstd::utf8::decode_utf8(bytes@),
{
    match str_from_utf8(bytes) {
        Some(s) => {
            proof {
                vstd::utf8::encode_utf8_decode_utf8(s@);
            }
            Ok(s.to_owned())
        },
        None => Err(PamError::SERVICE_ERR),
    }
}

} // verus!
