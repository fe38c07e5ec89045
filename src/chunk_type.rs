use vstd::prelude::*;
use vstd::string::StringSliceAdditionalSpecFns;
use vstd::utf8::*;

verus! {

/// An ASCII letter: `A`-`Z` (65-90) or `a`-`z` (97-122).
pub open spec fn is_letter(b: u8) -> bool {
    (65 <= b && b <= 90) || (97 <= b && b <= 122)
}

/// An ASCII uppercase letter.
pub open spec fn is_upper(b: u8) -> bool {
    65 <= b && b <= 90
}

/// An ASCII lowercase letter.
pub open spec fn is_lower(b: u8) -> bool {
    97 <= b && b <= 122
}

/// Four bytes, each of them an ASCII letter.
pub open spec fn all_letters(b: Seq<u8>) -> bool {
    b.len() == 4 && forall|i: int| 0 <= i < 4 ==> is_letter(#[trigger] b[i])
}

/// Why a chunk type could not be built.
#[derive(Debug, Clone, Copy, PartialEq, Eq)]
pub enum ChunkTypeError {
    /// A byte that is not an ASCII letter, with the inclusive ranges that would have been accepted.
    InvalidByte { byte: u8, valid_ranges: [(u8, u8); 2] },
    /// Text that is neither four bytes long nor all ASCII, or too short to hold four bytes.
    MalformedInput,
}

/// The ranges of accepted bytes: `A`-`Z` and `a`-`z`.
pub open spec fn letter_ranges() -> Seq<(u8, u8)> {
    seq![(65u8, 90u8), (97u8, 122u8)]
}

/// `e` reports the offending byte `b` together with the accepted ranges.
pub open spec fn reports_byte(e: ChunkTypeError, b: u8) -> bool {
    e matches ChunkTypeError::InvalidByte { byte, valid_ranges } && byte == b && valid_ranges@
        == letter_ranges()
}

/// `r` is what `d` (an outcome of [`decode`]) describes: a chunk type with those bytes, or the
/// error for that byte.
pub open spec fn built_as(r: Result<ChunkType, ChunkTypeError>, d: Result<Seq<u8>, u8>) -> bool {
    match d {
        Ok(v) => r matches Ok(t) && t@ == v,
        Err(x) => r matches Err(e) && reports_byte(e, x),
    }
}

/// What building a chunk type from four bytes yields: the bytes themselves when all are ASCII
/// letters, else the first byte (lowest position) that is not.
pub open spec fn decode(b: Seq<u8>) -> Result<Seq<u8>, u8> {
    if !is_letter(b[0]) {
        Err(b[0])
    } else if !is_letter(b[1]) {
        Err(b[1])
    } else if !is_letter(b[2]) {
        Err(b[2])
    } else if !is_letter(b[3]) {
        Err(b[3])
    } else {
        Ok(b)
    }
}

/// The characters that the bytes `b` stand for when read as ASCII, one character per byte.
pub open spec fn text_of(b: Seq<u8>) -> Seq<char> {
    Seq::new(b.len(), |i: int| b[i] as char)
}

/// Text that can be read as a chunk type: at least four bytes of UTF-8, and either exactly four
/// or all ASCII. (ASCII text longer than four bytes is accepted and read by its first four.)
pub open spec fn text_fits(text: Seq<char>) -> bool {
    let n = encode_utf8(text).len();
    n >= 4 && (n == 4 || is_ascii_chars(text))
}

/// The first four bytes of the UTF-8 encoding of `text`.
pub open spec fn first_four(text: Seq<char>) -> Seq<u8> {
    encode_utf8(text).subrange(0, 4)
}

/// Relies on `std::str::from_utf8`: on valid UTF-8 it succeeds, with a string slice over the
/// same bytes.
#[verifier::external_body]
fn utf8_str(b: &[u8]) -> (r: &str)
    requires
        valid_utf8(b@),
    ensures
        r.spec_bytes() == b@,
{
    std::str::from_utf8(b).unwrap()
}

/// ASCII letters encode to themselves, one byte per character.
proof fn lemma_letters_encode(b: Seq<u8>)
    requires
        all_letters(b),
    ensures
        encode_utf8(text_of(b)) == b,
        valid_utf8(b),
        is_ascii_chars(text_of(b)),
{
    let t = text_of(b);
    assert(is_ascii_chars(t));
    is_ascii_chars_encode_utf8(t);
    assert(encode_utf8(t) =~= b);
    encode_utf8_valid_utf8(t);
}

fn ascii_upper(b: u8) -> (r: bool)
    ensures
        r == is_upper(b),
{
    b >= 65 && b <= 90
}

fn ascii_lower(b: u8) -> (r: bool)
    ensures
        r == is_lower(b),
{
    b >= 97 && b <= 122
}

/// A four-byte chunk type code whose bytes are all ASCII letters.
#[derive(Debug, Clone, Copy, Eq)]
pub struct ChunkType {
    bytes: [u8; 4],
}

impl View for ChunkType {
    type V = Seq<u8>;

    closed spec fn view(&self) -> Seq<u8> {
        self.bytes@
    }
}

impl ChunkType {
    /// Every chunk type that the constructors hand out satisfies this.
    pub open spec fn wf(&self) -> bool {
        all_letters(self@)
    }

    /// A copy of the four bytes.
    pub fn bytes(&self) -> (r: [u8; 4])
        ensures
            r@ == self@,
    {
        self.bytes
    }

    /// Whether `byte` is an ASCII letter.
    pub fn is_valid_byte(byte: u8) -> (r: bool)
        ensures
            r == is_letter(byte),
    {
        (byte >= 65 && byte <= 90) || (byte >= 97 && byte <= 122)
    }

    /// Whether the chunk type is fully valid: the reserved bit is set (third byte uppercase) and
    /// every byte is an ASCII letter.
    pub fn is_valid(&self) -> (r: bool)
        requires
            self.wf(),
        ensures
            r == (is_upper(self@[2]) && all_letters(self@)),
            r == is_upper(self@[2]),
    {
        self.is_reserved_bit_valid() && ChunkType::is_valid_byte(self.bytes[0])
            && ChunkType::is_valid_byte(self.bytes[1]) && ChunkType::is_valid_byte(self.bytes[2])
            && ChunkType::is_valid_byte(self.bytes[3])
    }

    /// Critical chunks (first byte uppercase) are needed to interpret the container.
    pub fn is_critical(&self) -> (r: bool)
        ensures
            r == is_upper(self@[0]),
    {
        ascii_upper(self.bytes[0])
    }

    /// Public chunks (second byte uppercase) belong to the registered namespace.
    pub fn is_public(&self) -> (r: bool)
        ensures
            r == is_upper(self@[1]),
    {
        ascii_upper(self.bytes[1])
    }

    /// The reserved bit is valid when the third byte is uppercase.
    pub fn is_reserved_bit_valid(&self) -> (r: bool)
        ensures
            r == is_upper(self@[2]),
    {
        ascii_upper(self.bytes[2])
    }

    /// Safe-to-copy chunks (fourth byte lowercase) may be copied by editors that do not know them.
    pub fn is_safe_to_copy(&self) -> (r: bool)
        ensures
            r == is_lower(self@[3]),
    {
        ascii_lower(self.bytes[3])
    }

    /// The four bytes as text, in order and with their case kept.
    pub fn to_string(&self) -> (r: String)
        requires
            self.wf(),
        ensures
            r@ == text_of(self@),
    {
        proof {
            lemma_letters_encode(self@);
            encode_utf8_decode_utf8(text_of(self@));
        }
        let s = utf8_str(self.bytes.as_slice());
        proof {
            encode_utf8_decode_utf8(s@);
        }
        s.to_owned()
    }

    /// Builds a chunk type from text: its first four bytes, provided [`text_fits`] holds.
    pub fn parse(s: &str) -> (r: Result<ChunkType, ChunkTypeError>)
        ensures
            !text_fits(s@) ==> r == Err::<ChunkType, ChunkTypeError>(ChunkTypeError::MalformedInput),
            text_fits(s@) ==> built_as(r, decode(first_four(s@))),
            r matches Ok(t) ==> t.wf(),
    {
        let bytes = s.as_bytes();
        let n = bytes.len();
        if n < 4 || (n != 4 && !s.is_ascii()) {
            return Err(ChunkTypeError::MalformedInput);
        }
        let value: [u8; 4] = [bytes[0], bytes[1], bytes[2], bytes[3]];
        assert(value@ =~= first_four(s@));
        ChunkType::from_bytes(value)
    }

    /// Builds a chunk type from four bytes, failing on the first byte that is not an ASCII letter.
    pub fn from_bytes(value: [u8; 4]) -> (r: Result<ChunkType, ChunkTypeError>)
        ensures
            built_as(r, decode(value@)),
            r matches Ok(t) ==> t.wf(),
    {
        let mut i: usize = 0;
        while i < 4
            invariant
                i <= 4,
                forall|j: int| 0 <= j < i ==> is_letter(#[trigger] value@[j]),
            decreases 4 - i,
        {
            if !ChunkType::is_valid_byte(value[i]) {
                assert(i == 0 || i == 1 || i == 2 || i == 3);
                return Err(ChunkTypeError::InvalidByte { byte: value[i], valid_ranges: [(65, 90), (97, 122)] });
            }
            i = i + 1;
        }
        Ok(ChunkType { bytes: value })
    }
}

/// Four ASCII letters always make a chunk type, and its bytes are exactly those given.
pub proof fn lemma_letters_accepted(b: Seq<u8>)
    requires
        all_letters(b),
    ensures
        decode(b) == Ok::<Seq<u8>, u8>(b),
{
    assert(is_letter(b[0]) && is_letter(b[1]) && is_letter(b[2]) && is_letter(b[3]));
}

/// Four bytes of which one is not an ASCII letter are refused, and the error names the first
/// such byte.
pub proof fn lemma_first_invalid_reported(b: Seq<u8>)
    requires
        b.len() == 4,
        !all_letters(b),
    ensures
        exists|i: int|
            0 <= i < 4 && !is_letter(#[trigger] b[i]) && (forall|j: int|
                0 <= j < i ==> is_letter(#[trigger] b[j])) && decode(b) == Err::<Seq<u8>, u8>(b[i]),
{
    if !is_letter(b[0]) {
        assert(decode(b) == Err::<Seq<u8>, u8>(b[0]));
    } else if !is_letter(b[1]) {
        assert(decode(b) == Err::<Seq<u8>, u8>(b[1]));
    } else if !is_letter(b[2]) {
        assert(decode(b) == Err::<Seq<u8>, u8>(b[2]));
    } else {
        assert(!is_letter(b[3]));
        assert(decode(b) == Err::<Seq<u8>, u8>(b[3]));
    }
}

/// A chunk type is rebuilt unchanged from its text and from its bytes: whatever the
/// constructors' contracts allow them to return there is the chunk type itself.
pub proof fn lemma_round_trip(t: ChunkType)
    requires
        t.wf(),
    ensures
        text_fits(text_of(t@)),
        first_four(text_of(t@)) == t@,
        forall|r: Result<ChunkType, ChunkTypeError>|
            #[trigger] built_as(r, decode(t@)) ==> r == Ok::<ChunkType, ChunkTypeError>(t),
{
    lemma_letters_encode(t@);
    lemma_letters_accepted(t@);
    assert(first_four(text_of(t@)) =~= t@);
    assert forall|r: Result<ChunkType, ChunkTypeError>| #[trigger]
        built_as(r, decode(t@)) implies r == Ok::<ChunkType, ChunkTypeError>(t) by {
        if let Ok(u) = r {
            assert(u.bytes =~= t.bytes);
        }
    }
}

/// Two chunk types are the same value exactly when their bytes are equal.
pub proof fn lemma_view_determines(a: ChunkType, b: ChunkType)
    ensures
        a@ == b@ <==> a == b,
{
    if a@ == b@ {
        assert(a.bytes =~= b.bytes);
    }
}

impl PartialEq for ChunkType {
    /// Two chunk types are equal when their bytes are.
    fn eq(&self, other: &ChunkType) -> (r: bool) {
        let r = self.bytes[0] == other.bytes[0] && self.bytes[1] == other.bytes[1]
            && self.bytes[2] == other.bytes[2] && self.bytes[3] == other.bytes[3];
        assert(r ==> self@ =~= other@);
        r
    }
}

impl vstd::std_specs::cmp::PartialEqSpecImpl for ChunkType {
    open spec fn obeys_eq_spec() -> bool {
        true
    }

    open spec fn eq_spec(&self, other: &ChunkType) -> bool {
        self@ == other@
    }
}

impl TryFrom<[u8; 4]> for ChunkType {
    type Error = ChunkTypeError;

    fn try_from(value: [u8; 4]) -> (r: Result<ChunkType, ChunkTypeError>) {
        let r = ChunkType::from_bytes(value);
        proof {
            let ranges: [(u8, u8); 2] = [(65, 90), (97, 122)];
            match r {
                Ok(t) => assert(t.bytes =~= value),
                Err(ChunkTypeError::InvalidByte { valid_ranges, .. }) => assert(valid_ranges =~= ranges),
                Err(ChunkTypeError::MalformedInput) => {},
            }
        }
        r
    }
}

impl vstd::std_specs::convert::TryFromSpecImpl<[u8; 4]> for ChunkType {
    open spec fn obeys_try_from_spec() -> bool {
        true
    }

    closed spec fn try_from_spec(value: [u8; 4]) -> Result<ChunkType, ChunkTypeError> {
        match decode(value@) {
            Ok(_) => Ok(ChunkType { bytes: value }),
            Err(b) => Err(ChunkTypeError::InvalidByte { byte: b, valid_ranges: [(65, 90), (97, 122)] }),
        }
    }
}

/// What `ChunkType::try_from(value)` returns is what [`decode`] describes for those bytes: the
/// chunk type holding them when all are ASCII letters, else the error for the first that is not.
pub proof fn lemma_try_from_spec(value: [u8; 4])
    ensures
        built_as(
            <ChunkType as vstd::std_specs::convert::TryFromSpec<[u8; 4]>>::try_from_spec(value),
            decode(value@),
        ),
        <ChunkType as vstd::std_specs::convert::TryFromSpec<[u8; 4]>>::try_from_spec(value) matches Ok(
            t,
        ) ==> t.wf(),
{
    let ranges: [(u8, u8); 2] = [(65, 90), (97, 122)];
    assert(ranges@ =~= letter_ranges());
    if decode(value@) is Ok {
        assert(all_letters(value@));
    }
}

impl std::str::FromStr for ChunkType {
    type Err = ChunkTypeError;

    fn from_str(s: &str) -> (r: Result<ChunkType, ChunkTypeError>)
        ensures
            !text_fits(s@) ==> r == Err::<ChunkType, ChunkTypeError>(ChunkTypeError::MalformedInput),
            text_fits(s@) ==> built_as(r, decode(first_four(s@))),
            r matches Ok(t) ==> t.wf(),
    {
        ChunkType::parse(s)
    }
}

} // verus!
