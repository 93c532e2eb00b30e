//! Helpers for the engine boundary: decoding the fixed-size error buffer and
//! exception text the engine reports, and owning the null-terminated byte
//! buffers the engine keeps pointers into.

use vstd::prelude::*;
use vstd::string::StrSliceExecFns;
use vstd::utf8::char_is_scalar;
use vstd::utf8::char_u32_cast;
use vstd::utf8::decode_utf8;
use vstd::utf8::encode_scalar;
use vstd::utf8::encode_utf8;
use vstd::utf8::valid_utf8;

verus! {

/// Capacity of the fixed-size buffer the engine fills with error text.
pub const DEFAULT_ERROR_BUF_SIZE: usize = 128;

/// The bytes of an engine error buffer that carry text: the strictly positive
/// bytes, in order.  The engine writes a null-terminated string of
/// non-negative bytes into the buffer; zero and negative bytes carry no text.
pub open spec fn printable_bytes(buf: Seq<i8>) -> Seq<u8>
    decreases buf.len(),
{
    if buf.len() == 0 {
        seq![]
    } else {
        printable_bytes(buf.drop_last()) + if buf.last() > 0 {
            seq![buf.last() as u8]
        } else {
            seq![]
        }
    }
}

/// Relies on `String::from_utf8_lossy`: a valid UTF-8 byte sequence decodes
/// to exactly its characters; invalid sequences are replaced with U+FFFD, so
/// the result is empty exactly when the input is.
#[verifier::external_body]
fn utf8_lossy_to_string(bytes: &[u8]) -> (r: String)
    ensures
        valid_utf8(bytes@) ==> r@ == decode_utf8(bytes@),
        (r@.len() == 0) <==> (bytes@.len() == 0),
{
    String::from_utf8_lossy(bytes).into_owned()
}

/// Decode an engine error buffer: keep the strictly positive bytes and read
/// them as UTF-8, replacing invalid sequences rather than failing.
pub fn error_buf_to_string(error_buf: &[i8; DEFAULT_ERROR_BUF_SIZE]) -> (r: String)
    ensures
        valid_utf8(printable_bytes(error_buf@)) ==> r@ == decode_utf8(printable_bytes(error_buf@)),
        (r@.len() == 0) <==> (printable_bytes(error_buf@).len() == 0),
{
    let mut content: Vec<u8> = Vec::new();
    let mut i: usize = 0;
    while i < DEFAULT_ERROR_BUF_SIZE
        invariant
            i <= DEFAULT_ERROR_BUF_SIZE,
            content@ == printable_bytes(error_buf@.subrange(0, i as int)),
        decreases DEFAULT_ERROR_BUF_SIZE - i,
    {
        let c = error_buf[i];
        if c > 0 {
            content.push(c as u8);
        }
        proof {
            assert(error_buf@.subrange(0, i + 1).drop_last() =~= error_buf@.subrange(0, i as int));
            assert(error_buf@.subrange(0, i + 1).last() == error_buf@[i as int]);
            assert(content@ =~= printable_bytes(error_buf@.subrange(0, i + 1)));
        }
        i = i + 1;
    }
    proof {
        assert(error_buf@.subrange(0, DEFAULT_ERROR_BUF_SIZE as int) =~= error_buf@);
    }
    utf8_lossy_to_string(content.as_slice())
}

/// Convert the engine's last-exception text (the bytes of its C string,
/// terminator excluded) into an owned string, replacing invalid UTF-8 rather
/// than failing.
pub fn exception_to_string(raw_exception: &[u8]) -> (r: String)
    ensures
        valid_utf8(raw_exception@) ==> r@ == decode_utf8(raw_exception@),
        (r@.len() == 0) <==> (raw_exception@.len() == 0),
{
    utf8_lossy_to_string(raw_exception)
}

/// True when no character of the text is the null character, so the text can
/// cross the C boundary as a null-terminated string.
pub open spec fn no_nul_chars(s: Seq<char>) -> bool {
    forall|i: int| 0 <= i < s.len() ==> s[i] != '\0'
}

proof fn lemma_encode_scalar_nul_free(c: char)
    requires
        c != '\0',
    ensures
        forall|j: int|
            0 <= j < encode_scalar(c as u32).len() ==> #[trigger] encode_scalar(c as u32)[j]
                != 0u8,
{
    char_is_scalar(c);
    let s = c as u32;
    assert(s != 0) by {
        if s == 0 {
            char_u32_cast(c, s);
            assert('\0' as u32 == 0);
            char_u32_cast('\0', 0u32);
        }
    }
    assert(s != 0 && s <= 0x7F ==> (s & 0x7F) as u8 != 0u8) by (bit_vector);
    assert(0xC0u8 | ((s >> 6) & 0x1F) as u8 != 0u8) by (bit_vector);
    assert(0xE0u8 | ((s >> 12) & 0x0F) as u8 != 0u8) by (bit_vector);
    assert(0xF0u8 | ((s >> 18) & 0x7) as u8 != 0u8) by (bit_vector);
    assert(0x80u8 | (s & 0x3F) as u8 != 0u8) by (bit_vector);
    assert(0x80u8 | ((s >> 6) & 0x3F) as u8 != 0u8) by (bit_vector);
    assert(0x80u8 | ((s >> 12) & 0x3F) as u8 != 0u8) by (bit_vector);
}

/// The UTF-8 encoding of text without null characters holds no zero byte:
/// U+0000 is the only scalar whose encoding contains 0x00.
pub proof fn lemma_nul_free_encoding(s: Seq<char>)
    requires
        no_nul_chars(s),
    ensures
        forall|j: int| 0 <= j < encode_utf8(s).len() ==> encode_utf8(s)[j] != 0u8,
    decreases s.len(),
{
    if s.len() > 0 {
        lemma_encode_scalar_nul_free(s[0]);
        assert(no_nul_chars(s.drop_first()));
        lemma_nul_free_encoding(s.drop_first());
        let e0 = encode_scalar(s[0] as u32);
        let e1 = encode_utf8(s.drop_first());
        assert forall|j: int| 0 <= j < encode_utf8(s).len() implies encode_utf8(s)[j] != 0u8 by {
            if j < e0.len() {
                assert(encode_utf8(s)[j] == e0[j]);
            } else {
                assert(encode_utf8(s)[j] == e1[j - e0.len()]);
            }
        }
    }
}

/// An owned, null-terminated byte buffer.  The engine stores only pointers to
/// the strings it is handed, so every name or path crossing the boundary is
/// kept alive in one of these, terminator in place and no null byte inside.
pub struct CStrBuf {
    bytes: Vec<u8>,
}

impl View for CStrBuf {
    type V = Seq<u8>;

    /// The text content: the bytes before the terminator.
    closed spec fn view(&self) -> Seq<u8> {
        self.bytes@.drop_last()
    }
}

impl CStrBuf {
    /// Well-formed: ends with the terminator and holds no other null byte.
    pub closed spec fn wf(&self) -> bool {
        &&& self.bytes@.len() >= 1
        &&& self.bytes@.last() == 0u8
        &&& forall|i: int| 0 <= i < self.bytes@.len() - 1 ==> self.bytes@[i] != 0u8
    }

    /// Build from text: the buffer holds the UTF-8 bytes of the text followed
    /// by the terminator.
    pub fn new(s: &str) -> (r: CStrBuf)
        requires
            no_nul_chars(s@),
        ensures
            r.wf(),
            r@ == encode_utf8(s@),
    {
        proof {
            lemma_nul_free_encoding(s@);
        }
        let mut bytes = s.as_bytes_vec();
        bytes.push(0);
        let r = CStrBuf { bytes };
        proof {
            assert(r@ =~= encode_utf8(s@));
        }
        r
    }

    /// The full buffer, terminator included, for the embedder to point the
    /// engine at.
    pub fn bytes_with_nul(&self) -> (r: &Vec<u8>)
        requires
            self.wf(),
        ensures
            r@ == self@ + seq![0u8],
    {
        proof {
            assert(self.bytes@ =~= self@ + seq![0u8]);
        }
        &self.bytes
    }
}

} // verus!
