//! Byte buffers that a host fills before the store absorbs them as text.

use vstd::prelude::*;
use vstd::utf8::{
    decode_utf8, encode_utf8, encode_utf8_decode_utf8, encode_utf8_valid_utf8, is_char_boundary,
    is_char_boundary_start_end_of_seq, valid_utf8,
};

verus! {

/// The byte every fresh buffer is filled with, so that bytes never written
/// stand out from zeroes.
pub const FILL_BYTE: u8 = 170;

/// A byte buffer of fixed size, owned by whoever holds the value. Handing it
/// to a constructor of the store moves it there for good.
pub struct AllocatedString {
    bytes: Vec<u8>,
}

impl View for AllocatedString {
    type V = Seq<u8>;

    closed spec fn view(&self) -> Seq<u8> {
        self.bytes@
    }
}

/// The text that `String::from_utf8_lossy` makes of `bytes`: their UTF-8
/// decoding, with every invalid sequence replaced by U+FFFD.
pub uninterp spec fn utf8_lossy(bytes: Seq<u8>) -> Seq<char>;

/// Whether `len` bytes of the UTF-8 form of `text` end between two
/// characters (or at either end of the text).
pub open spec fn is_text_boundary(text: Seq<char>, len: int) -> bool {
    is_char_boundary(encode_utf8(text), len)
}

/// The characters of `text` that its first `len` bytes of UTF-8 encode.
pub open spec fn text_prefix(text: Seq<char>, len: int) -> Seq<char> {
    decode_utf8(encode_utf8(text).subrange(0, len))
}

/// How many bytes of the UTF-8 form of `text` a cut at `len` keeps: `len`
/// itself where it ends between two characters, else the nearest such
/// length below it; all of the text where `len` reaches past its end.
pub open spec fn kept_len(text: Seq<char>, len: int) -> int
    decreases len,
{
    if len <= 0 {
        0
    } else if len > encode_utf8(text).len() {
        encode_utf8(text).len() as int
    } else if is_text_boundary(text, len) {
        len
    } else {
        kept_len(text, len - 1)
    }
}

/// The text that a cut of `text` at `len` bytes keeps: its longest prefix
/// of whole characters that takes at most `len` bytes.
pub open spec fn text_kept(text: Seq<char>, len: int) -> Seq<char> {
    text_prefix(text, kept_len(text, len))
}

/// Calls `String::from_utf8_lossy` and takes the result as an owned string.
///
/// Trusted, not proved: the result is the decoding that `utf8_lossy` names;
/// where the bytes are valid UTF-8 nothing is replaced, so it is their plain
/// decoding.
#[verifier::external_body]
fn decode_lossy(bytes: &[u8]) -> (text: String)
    ensures
        text@ == utf8_lossy(bytes@),
        valid_utf8(bytes@) ==> text@ == decode_utf8(bytes@),
{
    String::from_utf8_lossy(bytes).into_owned()
}

/// Cuts `text` at `len` bytes. A cut that would split a character moves
/// down to the start of that character; one past the end keeps the whole
/// text.
pub fn cut_text(text: &str, len: usize) -> (kept: &str)
    ensures
        kept@ == text_kept(text@, len as int),
{
    let size: usize = text.as_bytes().len();
    let mut cut: usize = if len < size {
        len
    } else {
        size
    };
    proof {
        encode_utf8_valid_utf8(text@);
        is_char_boundary_start_end_of_seq(encode_utf8(text@));
    }
    while !text.is_char_boundary(cut)
        invariant
            cut <= size == encode_utf8(text@).len(),
            valid_utf8(encode_utf8(text@)),
            kept_len(text@, cut as int) == kept_len(text@, len as int),
        decreases cut,
    {
        cut -= 1;
    }
    let (kept, _rest) = text.split_at(cut);
    proof {
        encode_utf8_decode_utf8(kept@);
    }
    kept
}

/// Allocates a buffer of exactly `size` bytes, each set to [`FILL_BYTE`].
pub fn alloc_string(size: usize) -> (buf: AllocatedString)
    ensures
        buf@ == Seq::new(size as nat, |i: int| FILL_BYTE),
{
    let mut bytes: Vec<u8> = Vec::with_capacity(size);
    let mut filled: usize = 0;
    while filled < size
        invariant
            filled <= size,
            bytes@ == Seq::new(filled as nat, |i: int| FILL_BYTE),
        decreases size - filled,
    {
        bytes.push(FILL_BYTE);
        filled += 1;
    }
    AllocatedString { bytes }
}

/// The writable bytes of the buffer. What the host writes through the
/// returned slice is what the buffer holds afterwards.
pub fn get_string_buf(buf: &mut AllocatedString) -> (bytes: &mut [u8])
    ensures
        bytes@ == old(buf)@,
        final(buf)@ == final(bytes)@,
{
    buf.bytes.as_mut_slice()
}

/// The size of the buffer in bytes.
pub fn get_string_len(buf: &AllocatedString) -> (size: usize)
    ensures
        size == buf@.len(),
{
    buf.bytes.len()
}

impl AllocatedString {
    /// The text the buffer yields when absorbed with logical length `len`:
    /// its lossy decoding, cut at `len` bytes of the decoded text.
    pub open spec fn text(&self, len: usize) -> Seq<char> {
        text_kept(utf8_lossy(self@), len as int)
    }

    /// Whether a cut at `len` keeps exactly `len` bytes: the decoded text
    /// has at least that many, and the cut falls between two characters.
    pub open spec fn spec_holds_text(&self, len: usize) -> bool {
        is_text_boundary(utf8_lossy(self@), len as int)
    }

    /// Whether a cut at `len` keeps exactly `len` bytes of the decoded
    /// text. Also tells that a buffer of valid UTF-8 decodes to exactly the
    /// text it encodes.
    #[verifier::when_used_as_spec(spec_holds_text)]
    pub fn holds_text(&self, len: usize) -> (fits: bool)
        ensures
            fits == self.spec_holds_text(len),
            valid_utf8(self@) ==> utf8_lossy(self@) == decode_utf8(self@),
    {
        let decoded = decode_lossy(self.bytes.as_slice());
        decoded.as_str().is_char_boundary(len)
    }

    /// Consumes the buffer and returns its text of logical length `len`.
    pub(crate) fn absorb(self, len: usize) -> (text: String)
        ensures
            text@ == self.text(len),
    {
        let decoded = decode_lossy(self.bytes.as_slice());
        cut_text(decoded.as_str(), len).to_owned()
    }
}

} // verus!
