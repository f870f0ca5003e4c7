use crate::error::VslError;
use vstd::prelude::*;
use vstd::string::is_ascii;
use vstd::string::StringSliceAdditionalSpecFns;

verus! {

/// A four-character code naming a pixel or codec format, such as `RGB3`
/// or `YUYV`.
#[derive(Debug, Clone, Copy, PartialEq, Eq)]
pub struct FourCC(pub [u8; 4]);

/// The 32-bit form of a code: the four bytes packed little-endian,
/// `b0 | b1 << 8 | b2 << 16 | b3 << 24`.
pub open spec fn pack(b0: u8, b1: u8, b2: u8, b3: u8) -> u32 {
    (b0 as u32) | ((b1 as u32) << 8u32) | ((b2 as u32) << 16u32) | ((b3 as u32) << 24u32)
}

/// The byte of a packed code that starts at bit `shift`.
pub open spec fn byte_at(v: u32, shift: u32) -> u8 {
    ((v >> shift) & 0xffu32) as u8
}

/// Whether every byte of a code is a 7-bit ASCII value.
pub open spec fn is_ascii_bytes(b: Seq<u8>) -> bool {
    forall|i: int| 0 <= i < b.len() ==> #[trigger] b[i] < 128
}

/// The characters that a sequence of ASCII bytes stands for.
pub open spec fn ascii_chars(b: Seq<u8>) -> Seq<char> {
    Seq::new(b.len(), |i: int| b[i] as char)
}

/// Relies on `String::from_utf8`: ASCII bytes are valid UTF-8, so the
/// conversion succeeds and yields one character per byte.
#[verifier::external_body]
fn string_from_bytes(b: Vec<u8>) -> (r: Option<String>)
    ensures
        is_ascii_bytes(b@) ==> r is Some,
        is_ascii_bytes(b@) ==> r.unwrap()@ == ascii_chars(b@),
{
    String::from_utf8(b).ok()
}

impl FourCC {
    /// The code as a little-endian 32-bit integer.
    pub open spec fn spec_value(self) -> u32 {
        pack(self.0[0], self.0[1], self.0[2], self.0[3])
    }

    /// The code made of the first four bytes of `b`.
    pub open spec fn of_bytes(b: Seq<u8>) -> FourCC {
        FourCC([b[0], b[1], b[2], b[3]])
    }

    /// The code whose packed form is `v`.
    pub open spec fn of_value(v: u32) -> FourCC {
        FourCC([byte_at(v, 0u32), byte_at(v, 8u32), byte_at(v, 16u32), byte_at(v, 24u32)])
    }

    /// The code's textual form, one character per byte.
    pub open spec fn text(self) -> Seq<char> {
        ascii_chars(self.0@)
    }

    /// Packs the four bytes into a 32-bit integer.
    pub fn value(&self) -> (r: u32)
        ensures
            r == self.spec_value(),
    {
        (self.0[0] as u32) | ((self.0[1] as u32) << 8u32) | ((self.0[2] as u32) << 16u32) | ((
        self.0[3] as u32) << 24u32)
    }

    /// Unpacks a 32-bit integer into its four bytes.
    pub fn from_value(v: u32) -> (r: FourCC)
        ensures
            r == FourCC::of_value(v),
            r.spec_value() == v,
    {
        let r = FourCC(
            [
                (v & 0xffu32) as u8,
                ((v >> 8u32) & 0xffu32) as u8,
                ((v >> 16u32) & 0xffu32) as u8,
                ((v >> 24u32) & 0xffu32) as u8,
            ],
        );
        proof {
            lemma_unpack_pack(v);
            assert(r.0@ =~= FourCC::of_value(v).0@);
        }
        r
    }

    /// Parses the textual form of a code, which must be exactly four ASCII
    /// characters.
    pub fn from_str(s: &str) -> (r: Result<FourCC, VslError>)
        ensures
            r matches Ok(c) <==> (s@.len() == 4 && is_ascii(s)),
            r matches Ok(c) ==> c.0@ == s.spec_bytes() && c.text() == s@,
            r matches Err(e) ==> e == VslError::InvalidArgument,
    {
        broadcast use vstd::string::is_ascii_spec_bytes;

        if !s.is_ascii() {
            return Err(VslError::InvalidArgument);
        }
        let b = s.as_bytes();
        if b.len() != 4 {
            return Err(VslError::InvalidArgument);
        }
        let c = FourCC([b[0], b[1], b[2], b[3]]);
        proof {
            assert(c.0@ =~= s.spec_bytes());
            lemma_ascii_char_round_trip(s@);
            assert(c.text() =~= s@);
        }
        Ok(c)
    }

    /// The textual form of the code, or `None` where a byte is not ASCII.
    pub fn to_string(&self) -> (r: Option<String>)
        ensures
            r is Some <==> is_ascii_bytes(self.0@),
            r matches Some(s) ==> s@ == self.text(),
    {
        let mut i: usize = 0;
        while i < 4
            invariant
                i <= 4,
                forall|j: int| 0 <= j < i ==> #[trigger] self.0@[j] < 128,
            decreases 4 - i,
        {
            if self.0[i] >= 128 {
                return None;
            }
            i = i + 1;
        }
        let v: Vec<u8> = vec![self.0[0], self.0[1], self.0[2], self.0[3]];
        assert(v@ =~= self.0@);
        string_from_bytes(v)
    }
}

impl From<u32> for FourCC {
    fn from(v: u32) -> (r: FourCC) {
        FourCC::from_value(v)
    }
}

impl vstd::std_specs::convert::FromSpecImpl<u32> for FourCC {
    open spec fn obeys_from_spec() -> bool {
        true
    }

    open spec fn from_spec(v: u32) -> FourCC {
        FourCC::of_value(v)
    }
}

impl From<FourCC> for u32 {
    fn from(c: FourCC) -> (r: u32) {
        c.value()
    }
}

impl vstd::std_specs::convert::FromSpecImpl<FourCC> for u32 {
    open spec fn obeys_from_spec() -> bool {
        true
    }

    open spec fn from_spec(c: FourCC) -> u32 {
        c.spec_value()
    }
}

/// Unpacking an integer and packing its bytes again gives the integer back.
pub proof fn lemma_unpack_pack(v: u32)
    ensures
        pack(byte_at(v, 0u32), byte_at(v, 8u32), byte_at(v, 16u32), byte_at(v, 24u32)) == v,
        byte_at(v, 0u32) == (v & 0xffu32) as u8,
{
    assert(v >> 0u32 == v) by (bit_vector);
    assert((((v >> 0u32) & 0xffu32) as u8 as u32) | ((((v >> 8u32) & 0xffu32) as u8 as u32) << 8u32) | ((((v
        >> 16u32) & 0xffu32) as u8 as u32) << 16u32) | ((((v >> 24u32) & 0xffu32) as u8 as u32)
        << 24u32) == v) by (bit_vector);
}

/// Packing four bytes and unpacking the result gives the bytes back.
pub proof fn lemma_pack_unpack(b0: u8, b1: u8, b2: u8, b3: u8)
    ensures
        byte_at(pack(b0, b1, b2, b3), 0u32) == b0,
        byte_at(pack(b0, b1, b2, b3), 8u32) == b1,
        byte_at(pack(b0, b1, b2, b3), 16u32) == b2,
        byte_at(pack(b0, b1, b2, b3), 24u32) == b3,
{
    let v = pack(b0, b1, b2, b3);
    assert(((((b0 as u32) | ((b1 as u32) << 8u32) | ((b2 as u32) << 16u32) | ((b3 as u32)
        << 24u32)) >> 0u32) & 0xffu32) as u8 == b0) by (bit_vector);
    assert(((((b0 as u32) | ((b1 as u32) << 8u32) | ((b2 as u32) << 16u32) | ((b3 as u32)
        << 24u32)) >> 8u32) & 0xffu32) as u8 == b1) by (bit_vector);
    assert(((((b0 as u32) | ((b1 as u32) << 8u32) | ((b2 as u32) << 16u32) | ((b3 as u32)
        << 24u32)) >> 16u32) & 0xffu32) as u8 == b2) by (bit_vector);
    assert(((((b0 as u32) | ((b1 as u32) << 8u32) | ((b2 as u32) << 16u32) | ((b3 as u32)
        << 24u32)) >> 24u32) & 0xffu32) as u8 == b3) by (bit_vector);
}

proof fn lemma_ascii_char_round_trip(s: Seq<char>)
    requires
        vstd::utf8::is_ascii_chars(s),
    ensures
        forall|i: int| 0 <= i < s.len() ==> (#[trigger] s[i] as u8) as char == s[i],
{
    assert forall|i: int| 0 <= i < s.len() implies (#[trigger] s[i] as u8) as char == s[i] by {
        assert('\0' <= s[i] <= '\u{7f}');
    }
}

/// A valid four-character code packs its bytes little-endian, and its
/// textual form gives the same string back.
pub proof fn lemma_fourcc_text_round_trip(s: &str, c: FourCC)
    requires
        s@.len() == 4,
        is_ascii(s),
        c.0@ == s.spec_bytes(),
    ensures
        c.spec_value() == pack(
            s@[0] as u8,
            s@[1] as u8,
            s@[2] as u8,
            s@[3] as u8,
        ),
        c.text() == s@,
        FourCC::of_value(c.spec_value()) == c,
{
    broadcast use vstd::string::is_ascii_spec_bytes;

    lemma_ascii_char_round_trip(s@);
    assert(c.text() =~= s@);
    lemma_pack_unpack(c.0[0], c.0[1], c.0[2], c.0[3]);
    broadcast use vstd::array::axiom_array_ext_equal;

    assert(FourCC::of_value(c.spec_value()).0 =~= c.0);
}

} // verus!
