//! NUL-terminated byte strings, in the form the kernel expects.

use vstd::prelude::*;
use vstd::string::{StrSliceExecFns, StringSliceAdditionalSpecFns};

verus! {

/// A byte sequence is a well-formed C string: it ends in a NUL byte and
/// contains no NUL byte anywhere else.
pub open spec fn is_c_str(s: Seq<u8>) -> bool {
    &&& s.len() > 0
    &&& s[s.len() - 1] == 0
    &&& forall|i: int| 0 <= i < s.len() - 1 ==> s[i] != 0
}

/// Every well-formed C string contains exactly one NUL byte, at its end.
pub proof fn lemma_c_str_single_nul(s: Seq<u8>)
    requires
        is_c_str(s),
    ensures
        forall|i: int| 0 <= i < s.len() ==> (s[i] == 0 <==> i == s.len() - 1),
{
}

proof fn lemma_encode_scalar_nul_free(scalar: u32)
    requires
        vstd::utf8::is_scalar(scalar),
        scalar != 0,
    ensures
        !vstd::utf8::encode_scalar(scalar).contains(0),
        vstd::utf8::encode_scalar(scalar).len() >= 1,
{
    let s = vstd::utf8::encode_scalar(scalar);
    if vstd::utf8::has_width_1_encoding(scalar) {
        assert((scalar & 0x7F) as u8 != 0) by (bit_vector)
            requires
                scalar < 0x80,
                scalar != 0,
        ;
        assert(forall|i: int| 0 <= i < s.len() ==> s[i] != 0);
    } else if vstd::utf8::has_width_2_encoding(scalar) {
        assert(0xC0u8 | ((scalar >> 6) & 0x1F) as u8 != 0) by (bit_vector);
        assert(0x80u8 | (scalar & 0x3F) as u8 != 0) by (bit_vector);
        assert(forall|i: int| 0 <= i < s.len() ==> s[i] != 0);
    } else if vstd::utf8::has_width_3_encoding(scalar) {
        assert(0xE0u8 | ((scalar >> 12) & 0x0F) as u8 != 0) by (bit_vector);
        assert(0x80u8 | ((scalar >> 6) & 0x3F) as u8 != 0) by (bit_vector);
        assert(0x80u8 | (scalar & 0x3F) as u8 != 0) by (bit_vector);
        assert(forall|i: int| 0 <= i < s.len() ==> s[i] != 0);
    } else {
        assert(0xF0u8 | ((scalar >> 18) & 0x7) as u8 != 0) by (bit_vector);
        assert(0x80u8 | ((scalar >> 12) & 0x3F) as u8 != 0) by (bit_vector);
        assert(0x80u8 | ((scalar >> 6) & 0x3F) as u8 != 0) by (bit_vector);
        assert(0x80u8 | (scalar & 0x3F) as u8 != 0) by (bit_vector);
        assert(forall|i: int| 0 <= i < s.len() ==> s[i] != 0);
    }
}

proof fn lemma_encode_utf8_nul_free(chars: Seq<char>)
    requires
        forall|i: int| 0 <= i < chars.len() ==> chars[i] != '\0',
    ensures
        !vstd::utf8::encode_utf8(chars).contains(0),
        chars.len() > 0 ==> vstd::utf8::encode_utf8(chars).len() > 0,
    decreases chars.len(),
{
    if chars.len() > 0 {
        vstd::utf8::char_is_scalar(chars[0]);
        if chars[0] as u32 == 0 {
            vstd::utf8::char_u32_cast(chars[0], 0);
            assert(false);
        }
        lemma_encode_scalar_nul_free(chars[0] as u32);
        lemma_encode_utf8_nul_free(chars.drop_first());
        let head = vstd::utf8::encode_scalar(chars[0] as u32);
        let tail = vstd::utf8::encode_utf8(chars.drop_first());
        assert forall|i: int| 0 <= i < (head + tail).len() implies (head + tail)[i] != 0 by {
            if i < head.len() {
                assert(!head.contains(0));
            } else {
                assert((head + tail)[i] == tail[i - head.len()]);
                assert(!tail.contains(0));
            }
        }
    }
}

/// The UTF-8 encoding of a string without NUL characters contains no NUL
/// byte, so the string may stand inside a C string.
pub proof fn lemma_str_nul_free(s: &str)
    requires
        forall|i: int| 0 <= i < s@.len() ==> s@[i] != '\0',
    ensures
        !s.spec_bytes().contains(0),
        s@.len() > 0 ==> s.spec_bytes().len() > 0,
{
    lemma_encode_utf8_nul_free(s@);
}

/// Runtime check of `is_c_str`, for callers outside the proof boundary that
/// must test well-formedness before handing bytes to the kernel.
pub fn is_c_str_exec(bytes: &Vec<u8>) -> (r: bool)
    ensures
        r == is_c_str(bytes@),
{
    let n = bytes.len();
    if n == 0 || bytes[n - 1] != 0 {
        return false;
    }
    let mut i: usize = 0;
    while i < n - 1
        invariant
            n == bytes@.len(),
            0 < n,
            i <= n - 1,
            bytes@[n - 1] == 0,
            forall|j: int| 0 <= j < i ==> bytes@[j] != 0,
        decreases n - i,
    {
        if bytes[i] == 0 {
            return false;
        }
        i += 1;
    }
    true
}

/// An owned NUL-terminated byte string.
///
/// Syscall wrappers hand the kernel a pointer to the first byte, so the
/// terminator must be present and unique; `is_c_str` captures that.
pub struct CByteStr {
    pub bytes: Vec<u8>,
}

impl View for CByteStr {
    type V = Seq<u8>;

    open spec fn view(&self) -> Seq<u8> {
        self.bytes@
    }
}

impl CByteStr {
    pub open spec fn wf(&self) -> bool {
        is_c_str(self@)
    }

    /// Append the terminating NUL to `bytes`; fail exactly when `bytes`
    /// already contains a NUL, which could not be represented.
    pub fn from_bytes(bytes: Vec<u8>) -> (r: Option<CByteStr>)
        ensures
            r is Some <==> !bytes@.contains(0),
            r matches Some(c) ==> c@ == bytes@.push(0) && c.wf(),
    {
        let n = bytes.len();
        let mut i: usize = 0;
        while i < n
            invariant
                i <= n,
                n == bytes@.len(),
                forall|j: int| 0 <= j < i ==> bytes@[j] != 0,
            decreases n - i,
        {
            if bytes[i] == 0 {
                assert(bytes@.contains(0));
                return None;
            }
            i += 1;
        }
        assert(!bytes@.contains(0)) by {
            assert(forall|j: int| 0 <= j < bytes@.len() ==> bytes@[j] != 0);
        }
        let mut bytes = bytes;
        bytes.push(0);
        Some(CByteStr { bytes })
    }

    /// The empty C string: a single NUL byte.
    pub fn empty() -> (r: CByteStr)
        ensures
            r@ == seq![0u8],
            r.wf(),
    {
        let mut bytes: Vec<u8> = Vec::new();
        bytes.push(0);
        assert(bytes@ =~= seq![0u8]);
        CByteStr { bytes }
    }

    /// NUL-terminate the UTF-8 encoding of `s`, which must be NUL-free.
    pub fn from_nul_free_str(s: &str) -> (r: CByteStr)
        requires
            forall|i: int| 0 <= i < s@.len() ==> s@[i] != '\0',
        ensures
            r@ == s.spec_bytes().push(0),
            r.wf(),
    {
        proof {
            lemma_str_nul_free(s);
        }
        let mut bytes = s.as_bytes_vec();
        bytes.push(0);
        let r = CByteStr { bytes };
        proof {
            assert forall|i: int| 0 <= i < r@.len() - 1 implies r@[i] != 0 by {
                assert(!s.spec_bytes().contains(0));
                assert(r@[i] == s.spec_bytes()[i]);
            }
        }
        r
    }
}

impl Clone for CByteStr {
    fn clone(&self) -> (r: Self)
        ensures
            r@ == self@,
    {
        CByteStr { bytes: vstd::slice::slice_to_vec(self.bytes.as_slice()) }
    }
}

/// An array of NUL-terminated strings, as `execve` consumes for `argv` and
/// `envp`. The trailing null-pointer sentinel is a pointer-level artifact
/// that the unverified syscall driver appends; the model holds the strings.
pub struct CStringArray {
    pub elements: Vec<CByteStr>,
}

impl View for CStringArray {
    type V = Seq<Seq<u8>>;

    open spec fn view(&self) -> Seq<Seq<u8>> {
        Seq::new(self.elements@.len(), |i: int| self.elements@[i]@)
    }
}

impl CStringArray {
    pub open spec fn wf(&self) -> bool {
        forall|i: int| 0 <= i < self@.len() ==> is_c_str(#[trigger] self@[i])
    }

    /// Create a new array with no strings.
    pub fn new() -> (r: Self)
        ensures
            r@ =~= Seq::<Seq<u8>>::empty(),
            r.wf(),
    {
        CStringArray { elements: Vec::new() }
    }

    /// Append a string to the array.
    pub fn push(&mut self, element: CByteStr)
        requires
            element.wf(),
        ensures
            final(self)@ =~= old(self)@.push(element@),
            old(self).wf() ==> final(self).wf(),
    {
        self.elements.push(element);
        proof {
            assert(self@ =~= old(self)@.push(element@));
            if old(self).wf() {
                assert forall|i: int| 0 <= i < self@.len() implies is_c_str(#[trigger] self@[i]) by {
                    if i < old(self)@.len() {
                        assert(is_c_str(old(self)@[i]));
                    }
                }
            }
        }
    }
}

} // verus!
