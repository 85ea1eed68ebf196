use vstd::prelude::*;

verus! {

/// A flake identifier: an immutable 128-bit value interpreted as three
/// adjacent bit fields, most significant first — a 64-bit millisecond
/// timestamp, a 48-bit node identifier and a 16-bit sequence number.
/// Equality and ordering are those of the underlying 128-bit integer.
#[derive(Debug, Clone, Copy, PartialEq, Eq, Structural, Hash, Ord)]
pub struct Flake(u128);

impl View for Flake {
    type V = u128;

    closed spec fn view(&self) -> u128 {
        self.0
    }
}

/// The packed 128-bit value for a timestamp, node identifier and sequence
/// number: `(ts << 64) | (node << 16) | seq`. Meaningful when the node
/// identifier fits in 48 bits, so that the three fields occupy disjoint
/// bit ranges.
pub open spec fn pack_spec(ts: u64, node: u64, seq: u16) -> u128
    recommends
        node < 0x1_0000_0000_0000,
{
    ((ts as u128) << 64) | ((node as u128) << 16) | (seq as u128)
}

/// The timestamp field of a packed value: its upper 64 bits.
pub open spec fn timestamp_of(v: u128) -> u64 {
    (v >> 64) as u64
}

/// The 16 bytes of a 128-bit value in little-endian order: the least
/// significant byte first. This is the raw byte representation, meant for
/// byte-exact local storage round trips.
pub open spec fn le_bytes_of(v: u128) -> Seq<u8> {
    seq![
        v as u8,
        (v >> 8) as u8,
        (v >> 16) as u8,
        (v >> 24) as u8,
        (v >> 32) as u8,
        (v >> 40) as u8,
        (v >> 48) as u8,
        (v >> 56) as u8,
        (v >> 64) as u8,
        (v >> 72) as u8,
        (v >> 80) as u8,
        (v >> 88) as u8,
        (v >> 96) as u8,
        (v >> 104) as u8,
        (v >> 112) as u8,
        (v >> 120) as u8,
    ]
}

/// The 128-bit value read from 16 bytes in little-endian order.
pub open spec fn le_val_of(s: Seq<u8>) -> u128
    recommends
        s.len() == 16,
{
    (s[0] as u128)
    | ((s[1] as u128) << 8)
    | ((s[2] as u128) << 16)
    | ((s[3] as u128) << 24)
    | ((s[4] as u128) << 32)
    | ((s[5] as u128) << 40)
    | ((s[6] as u128) << 48)
    | ((s[7] as u128) << 56)
    | ((s[8] as u128) << 64)
    | ((s[9] as u128) << 72)
    | ((s[10] as u128) << 80)
    | ((s[11] as u128) << 88)
    | ((s[12] as u128) << 96)
    | ((s[13] as u128) << 104)
    | ((s[14] as u128) << 112)
    | ((s[15] as u128) << 120)
}

/// The 16 bytes of a 128-bit value in big-endian order: the most
/// significant byte first. This is the byte order underneath the canonical
/// base64 text encoding.
pub open spec fn be_bytes_of(v: u128) -> Seq<u8> {
    seq![
        (v >> 120) as u8,
        (v >> 112) as u8,
        (v >> 104) as u8,
        (v >> 96) as u8,
        (v >> 88) as u8,
        (v >> 80) as u8,
        (v >> 72) as u8,
        (v >> 64) as u8,
        (v >> 56) as u8,
        (v >> 48) as u8,
        (v >> 40) as u8,
        (v >> 32) as u8,
        (v >> 24) as u8,
        (v >> 16) as u8,
        (v >> 8) as u8,
        v as u8,
    ]
}

/// The 128-bit value read from 16 bytes in big-endian order.
pub open spec fn be_val_of(s: Seq<u8>) -> u128
    recommends
        s.len() == 16,
{
    ((s[0] as u128) << 120)
    | ((s[1] as u128) << 112)
    | ((s[2] as u128) << 104)
    | ((s[3] as u128) << 96)
    | ((s[4] as u128) << 88)
    | ((s[5] as u128) << 80)
    | ((s[6] as u128) << 72)
    | ((s[7] as u128) << 64)
    | ((s[8] as u128) << 56)
    | ((s[9] as u128) << 48)
    | ((s[10] as u128) << 40)
    | ((s[11] as u128) << 32)
    | ((s[12] as u128) << 24)
    | ((s[13] as u128) << 16)
    | ((s[14] as u128) << 8)
    | (s[15] as u128)
}

/// Law: reading back the little-endian bytes of a value yields the value;
/// the raw byte representation loses nothing.
pub proof fn lemma_le_bytes_round_trip(v: u128)
    ensures
        le_val_of(le_bytes_of(v)) == v,
{
    assert((v as u8 as u128)
        | (((v >> 8) as u8 as u128) << 8)
        | (((v >> 16) as u8 as u128) << 16)
        | (((v >> 24) as u8 as u128) << 24)
        | (((v >> 32) as u8 as u128) << 32)
        | (((v >> 40) as u8 as u128) << 40)
        | (((v >> 48) as u8 as u128) << 48)
        | (((v >> 56) as u8 as u128) << 56)
        | (((v >> 64) as u8 as u128) << 64)
        | (((v >> 72) as u8 as u128) << 72)
        | (((v >> 80) as u8 as u128) << 80)
        | (((v >> 88) as u8 as u128) << 88)
        | (((v >> 96) as u8 as u128) << 96)
        | (((v >> 104) as u8 as u128) << 104)
        | (((v >> 112) as u8 as u128) << 112)
        | (((v >> 120) as u8 as u128) << 120) == v) by (bit_vector);
}

/// Law: reading back the big-endian bytes of a value yields the value; the
/// text encoding's source bytes lose nothing.
pub proof fn lemma_be_bytes_round_trip(v: u128)
    ensures
        be_val_of(be_bytes_of(v)) == v,
{
    assert((((v >> 120) as u8 as u128) << 120)
        | (((v >> 112) as u8 as u128) << 112)
        | (((v >> 104) as u8 as u128) << 104)
        | (((v >> 96) as u8 as u128) << 96)
        | (((v >> 88) as u8 as u128) << 88)
        | (((v >> 80) as u8 as u128) << 80)
        | (((v >> 72) as u8 as u128) << 72)
        | (((v >> 64) as u8 as u128) << 64)
        | (((v >> 56) as u8 as u128) << 56)
        | (((v >> 48) as u8 as u128) << 48)
        | (((v >> 40) as u8 as u128) << 40)
        | (((v >> 32) as u8 as u128) << 32)
        | (((v >> 24) as u8 as u128) << 24)
        | (((v >> 16) as u8 as u128) << 16)
        | (((v >> 8) as u8 as u128) << 8)
        | (v as u8 as u128) == v) by (bit_vector);
}

impl Flake {
    /// Wraps a raw 128-bit value as an identifier.
    pub fn new(value: u128) -> (r: Flake)
        ensures
            r@ == value,
    {
        Flake(value)
    }

    /// The raw 128-bit integer value of this identifier.
    pub fn value(&self) -> (r: u128)
        ensures
            r == self@,
    {
        self.0
    }

    /// The number of milliseconds since the Unix epoch at which this
    /// identifier was generated, read from its upper 64 bits.
    pub fn timestamp(&self) -> (r: u64)
        ensures
            r == timestamp_of(self@),
    {
        (self.0 >> 64) as u64
    }

    /// The byte array representation of this identifier, in little-endian
    /// order on every platform, for byte-exact storage round trips.
    pub fn bytes(&self) -> (r: [u8; 16])
        ensures
            r@ == le_bytes_of(self@),
    {
        let v = self.0;
        let r: [u8; 16] = [
            v as u8,
            (v >> 8) as u8,
            (v >> 16) as u8,
            (v >> 24) as u8,
            (v >> 32) as u8,
            (v >> 40) as u8,
            (v >> 48) as u8,
            (v >> 56) as u8,
            (v >> 64) as u8,
            (v >> 72) as u8,
            (v >> 80) as u8,
            (v >> 88) as u8,
            (v >> 96) as u8,
            (v >> 104) as u8,
            (v >> 112) as u8,
            (v >> 120) as u8,
        ];
        proof {
            assert(r@ =~= le_bytes_of(self@));
        }
        r
    }
}

impl PartialOrd for Flake {
    /// Identifiers order as their raw 128-bit values do, so identifiers
    /// from one node sort by creation order.
    fn partial_cmp(&self, other: &Flake) -> (r: Option<core::cmp::Ordering>) {
        if self.0 < other.0 {
            Some(core::cmp::Ordering::Less)
        } else if self.0 == other.0 {
            Some(core::cmp::Ordering::Equal)
        } else {
            Some(core::cmp::Ordering::Greater)
        }
    }
}

impl vstd::std_specs::cmp::PartialOrdSpecImpl for Flake {
    open spec fn obeys_partial_cmp_spec() -> bool {
        true
    }

    open spec fn partial_cmp_spec(&self, other: &Flake) -> Option<core::cmp::Ordering> {
        if self@ < other@ {
            Some(core::cmp::Ordering::Less)
        } else if self@ == other@ {
            Some(core::cmp::Ordering::Equal)
        } else {
            Some(core::cmp::Ordering::Greater)
        }
    }
}

impl From<[u8; 16]> for Flake {
    /// Builds an identifier from 16 bytes in little-endian order, the order
    /// that [`Flake::bytes`] produces.
    fn from(b: [u8; 16]) -> (r: Flake)
        ensures
            r@ == le_val_of(b@),
    {
        Flake(
            (b[0] as u128)
            | ((b[1] as u128) << 8)
            | ((b[2] as u128) << 16)
            | ((b[3] as u128) << 24)
            | ((b[4] as u128) << 32)
            | ((b[5] as u128) << 40)
            | ((b[6] as u128) << 48)
            | ((b[7] as u128) << 56)
            | ((b[8] as u128) << 64)
            | ((b[9] as u128) << 72)
            | ((b[10] as u128) << 80)
            | ((b[11] as u128) << 88)
            | ((b[12] as u128) << 96)
            | ((b[13] as u128) << 104)
            | ((b[14] as u128) << 112)
            | ((b[15] as u128) << 120),
        )
    }
}

impl vstd::std_specs::convert::FromSpecImpl<[u8; 16]> for Flake {
    open spec fn obeys_from_spec() -> bool {
        true
    }

    closed spec fn from_spec(b: [u8; 16]) -> Flake {
        Flake(le_val_of(b@))
    }
}

/// The standard, padded base64 encoding of a byte sequence, as
/// `data_encoding::BASE64` produces it: deterministic, a function of the
/// bytes alone.
pub uninterp spec fn base64_of(bytes: Seq<u8>) -> Seq<char>;

/// The error type of `data_encoding`, reported when a string is not valid
/// base64.
#[verifier::external_type_specification]
#[verifier::external_body]
pub struct ExDecodeError(data_encoding::DecodeError);

/// An error while decoding the text form of an identifier. Decode failures
/// are local to decoding; they are distinct from generation errors.
#[derive(Debug, Clone, Copy, PartialEq, Eq, Structural)]
pub enum DecodeErr {
    /// The input is not valid padded base64.
    Malformed,
    /// The input is valid base64 but does not decode to exactly 16 bytes.
    WrongLength,
}

/// Relies on `data_encoding::BASE64.encode`: standard padded base64,
/// deterministic in its input; 16 input bytes encode to 24 characters.
#[verifier::external_body]
fn base64_encode(bytes: &[u8; 16]) -> (r: String)
    ensures
        r@ == base64_of(bytes@),
        r@.len() == 24,
{
    data_encoding::BASE64.encode(bytes)
}

/// Relies on `data_encoding::BASE64.decode`: decoding is correct, so an
/// input that is the encoding of some byte sequence decodes to exactly
/// that sequence. (Padded base64 also accepts concatenations of padded
/// blocks, so nothing is assumed about inputs that are not an encoding.)
#[verifier::external_body]
fn base64_decode(s: &str) -> (r: Result<Vec<u8>, data_encoding::DecodeError>)
    ensures
        forall|b: Seq<u8>| s@ == base64_of(b) ==> (r is Ok && r->Ok_0@ == b),
{
    data_encoding::BASE64.decode(s.as_bytes())
}

impl Flake {
    /// The 16 bytes of this identifier in big-endian order: the source
    /// bytes of the canonical text encoding.
    fn be_bytes(&self) -> (r: [u8; 16])
        ensures
            r@ == be_bytes_of(self@),
    {
        let v = self.0;
        let r: [u8; 16] = [
            (v >> 120) as u8,
            (v >> 112) as u8,
            (v >> 104) as u8,
            (v >> 96) as u8,
            (v >> 88) as u8,
            (v >> 80) as u8,
            (v >> 72) as u8,
            (v >> 64) as u8,
            (v >> 56) as u8,
            (v >> 48) as u8,
            (v >> 40) as u8,
            (v >> 32) as u8,
            (v >> 24) as u8,
            (v >> 16) as u8,
            (v >> 8) as u8,
            v as u8,
        ];
        proof {
            assert(r@ =~= be_bytes_of(self@));
        }
        r
    }

    /// The canonical text form of this identifier: the standard, padded
    /// base64 encoding of its 16 bytes in big-endian order, a 24-character
    /// ASCII string.
    pub fn to_base64(&self) -> (r: String)
        ensures
            r@ == base64_of(be_bytes_of(self@)),
            r@.len() == 24,
    {
        base64_encode(&self.be_bytes())
    }

    /// Decodes the canonical text form: base64-decodes the input, requires
    /// exactly 16 decoded bytes, and reads them as a big-endian 128-bit
    /// value. The encoding of any identifier decodes back to exactly that
    /// identifier.
    pub fn from_base64(s: &str) -> (r: Result<Flake, DecodeErr>)
        ensures
            forall|v: u128| s@ == base64_of(be_bytes_of(v)) ==> (r is Ok && r->Ok_0@ == v),
            r is Err ==> (forall|v: u128| s@ != base64_of(be_bytes_of(v))),
    {
        let decoded = match base64_decode(s) {
            Ok(bytes) => bytes,
            Err(_) => {
                return Err(DecodeErr::Malformed);
            },
        };
        if decoded.len() != 16 {
            proof {
                assert forall|v: u128| s@ != base64_of(be_bytes_of(v)) by {
                    if s@ == base64_of(be_bytes_of(v)) {
                        assert(decoded@ == be_bytes_of(v));
                    }
                }
            }
            return Err(DecodeErr::WrongLength);
        }
        let value = ((decoded[0] as u128) << 120)
            | ((decoded[1] as u128) << 112)
            | ((decoded[2] as u128) << 104)
            | ((decoded[3] as u128) << 96)
            | ((decoded[4] as u128) << 88)
            | ((decoded[5] as u128) << 80)
            | ((decoded[6] as u128) << 72)
            | ((decoded[7] as u128) << 64)
            | ((decoded[8] as u128) << 56)
            | ((decoded[9] as u128) << 48)
            | ((decoded[10] as u128) << 40)
            | ((decoded[11] as u128) << 32)
            | ((decoded[12] as u128) << 24)
            | ((decoded[13] as u128) << 16)
            | ((decoded[14] as u128) << 8)
            | (decoded[15] as u128);
        proof {
            assert(value == be_val_of(decoded@));
            assert forall|v: u128| s@ == base64_of(be_bytes_of(v)) implies value == v by {
                assert(decoded@ == be_bytes_of(v));
                lemma_be_bytes_round_trip(v);
            }
        }
        Ok(Flake::new(value))
    }

    /// The raw value of this identifier in lower-case hexadecimal: 32
    /// digits, zero padded, most significant first.
    pub fn to_hex_lower(&self) -> (r: String)
        ensures
            r@ == hex_of(self@, 32, false),
    {
        hex_string(self.0, false)
    }

    /// The raw value of this identifier in upper-case hexadecimal: 32
    /// digits, zero padded, most significant first.
    pub fn to_hex_upper(&self) -> (r: String)
        ensures
            r@ == hex_of(self@, 32, true),
    {
        hex_string(self.0, true)
    }

    /// The raw value of this identifier in binary: 128 digits, zero
    /// padded, most significant first.
    pub fn to_binary(&self) -> (r: String)
        ensures
            r@ == bin_of(self@, 128),
    {
        bin_string(self.0)
    }
}

/// The character for one digit of a hexadecimal number, in the chosen
/// case.
pub open spec fn hex_char(d: u8, upper: bool) -> char
    recommends
        d < 16,
{
    if d == 0 {
        '0'
    } else if d == 1 {
        '1'
    } else if d == 2 {
        '2'
    } else if d == 3 {
        '3'
    } else if d == 4 {
        '4'
    } else if d == 5 {
        '5'
    } else if d == 6 {
        '6'
    } else if d == 7 {
        '7'
    } else if d == 8 {
        '8'
    } else if d == 9 {
        '9'
    } else if d == 10 {
        if upper { 'A' } else { 'a' }
    } else if d == 11 {
        if upper { 'B' } else { 'b' }
    } else if d == 12 {
        if upper { 'C' } else { 'c' }
    } else if d == 13 {
        if upper { 'D' } else { 'd' }
    } else if d == 14 {
        if upper { 'E' } else { 'e' }
    } else {
        if upper { 'F' } else { 'f' }
    }
}

/// The `n` low hexadecimal digits of `v`, most significant first: the
/// zero-padded width-`n` hexadecimal representation of `v % 16^n`.
pub open spec fn hex_of(v: u128, n: nat, upper: bool) -> Seq<char>
    decreases n,
{
    if n == 0 {
        Seq::empty()
    } else {
        hex_of(v / 16, (n - 1) as nat, upper).push(hex_char((v % 16) as u8, upper))
    }
}

/// The `n` low binary digits of `v`, most significant first: the
/// zero-padded width-`n` binary representation of `v % 2^n`.
pub open spec fn bin_of(v: u128, n: nat) -> Seq<char>
    decreases n,
{
    if n == 0 {
        Seq::empty()
    } else {
        bin_of(v / 2, (n - 1) as nat).push(if v % 2 == 0 { '0' } else { '1' })
    }
}

/// The one-character string for one hexadecimal digit.
fn hex_char_str(d: u8, upper: bool) -> (r: &'static str)
    requires
        d < 16,
    ensures
        r@ == seq![hex_char(d, upper)],
{
    let r: &'static str = if d == 0 {
        "0"
    } else if d == 1 {
        "1"
    } else if d == 2 {
        "2"
    } else if d == 3 {
        "3"
    } else if d == 4 {
        "4"
    } else if d == 5 {
        "5"
    } else if d == 6 {
        "6"
    } else if d == 7 {
        "7"
    } else if d == 8 {
        "8"
    } else if d == 9 {
        "9"
    } else if d == 10 {
        if upper { "A" } else { "a" }
    } else if d == 11 {
        if upper { "B" } else { "b" }
    } else if d == 12 {
        if upper { "C" } else { "c" }
    } else if d == 13 {
        if upper { "D" } else { "d" }
    } else if d == 14 {
        if upper { "E" } else { "e" }
    } else {
        if upper { "F" } else { "f" }
    };
    proof {
        reveal_strlit("0");
        reveal_strlit("1");
        reveal_strlit("2");
        reveal_strlit("3");
        reveal_strlit("4");
        reveal_strlit("5");
        reveal_strlit("6");
        reveal_strlit("7");
        reveal_strlit("8");
        reveal_strlit("9");
        reveal_strlit("a");
        reveal_strlit("b");
        reveal_strlit("c");
        reveal_strlit("d");
        reveal_strlit("e");
        reveal_strlit("f");
        reveal_strlit("A");
        reveal_strlit("B");
        reveal_strlit("C");
        reveal_strlit("D");
        reveal_strlit("E");
        reveal_strlit("F");
        assert(r@ =~= seq![hex_char(d, upper)]);
    }
    r
}

/// The zero-padded hexadecimal string of a 128-bit value, 32 digits, most
/// significant first.
fn hex_string(v: u128, upper: bool) -> (r: String)
    ensures
        r@ == hex_of(v, 32, upper),
{
    let mut s = String::new();
    let mut w: u128 = 0;
    let mut i: usize = 0;
    while i < 32
        invariant
            i <= 32,
            s@ == hex_of(w, i as nat, upper),
            i == 0 ==> w == 0,
            i >= 1 ==> w == v >> ((128 - 4 * i) as u128),
        decreases 32 - i,
    {
        let sh: u128 = (124 - 4 * i) as u128;
        let x: u128 = (v >> sh) & 0xf;
        let d: u8 = x as u8;
        proof {
            assert(((v >> sh) & 0xf) < 16 && (((v >> sh) & 0xf) as u8) as u128 == ((v >> sh)
                & 0xf)) by (bit_vector);
            if i == 0 {
                assert(((0u128 << 4) | ((v >> sh) & 0xf)) == v >> sh) by (bit_vector)
                    requires
                        sh == 124u128,
                ;
            } else {
                let w0 = w;
                assert(((((v >> ((sh + 4) as u128)) << 4) | ((v >> sh) & 0xf)) == v >> sh)
                    && (v >> ((sh + 4) as u128)) < 0x10000000000000000000000000000000u128)
                    by (bit_vector)
                    requires
                        sh <= 120u128,
                ;
                assert(w0 == v >> ((sh + 4) as u128));
            }
        }
        let c = hex_char_str(d, upper);
        s.append(c);
        let ghost w0 = w;
        w = (w << 4) | x;
        proof {
            assert((((w0 << 4) | x) / 16 == w0) && (((w0 << 4) | x) % 16 == x)) by (bit_vector)
                requires
                    x < 16u128,
                    w0 < 0x10000000000000000000000000000000u128,
            ;
            assert(s@ =~= hex_of(w, (i + 1) as nat, upper));
        }
        i = i + 1;
    }
    proof {
        assert(v >> 0u128 == v) by (bit_vector);
    }
    s
}

/// The zero-padded binary string of a 128-bit value, 128 digits, most
/// significant first.
fn bin_string(v: u128) -> (r: String)
    ensures
        r@ == bin_of(v, 128),
{
    let mut s = String::new();
    let mut w: u128 = 0;
    let mut i: usize = 0;
    while i < 128
        invariant
            i <= 128,
            s@ == bin_of(w, i as nat),
            i == 0 ==> w == 0,
            i >= 1 ==> w == v >> ((128 - i) as u128),
        decreases 128 - i,
    {
        let sh: u128 = (127 - i) as u128;
        let x: u128 = (v >> sh) & 1;
        proof {
            assert(((v >> sh) & 1) < 2) by (bit_vector);
            if i == 0 {
                assert(((0u128 << 1) | ((v >> sh) & 1)) == v >> sh) by (bit_vector)
                    requires
                        sh == 127u128,
                ;
            } else {
                let w0 = w;
                assert(((((v >> ((sh + 1) as u128)) << 1) | ((v >> sh) & 1)) == v >> sh) && (v
                    >> ((sh + 1) as u128)) < 0x80000000000000000000000000000000u128)
                    by (bit_vector)
                    requires
                        sh <= 126u128,
                ;
                assert(w0 == v >> ((sh + 1) as u128));
            }
        }
        let c: &'static str = if x == 0 {
            "0"
        } else {
            "1"
        };
        proof {
            reveal_strlit("0");
            reveal_strlit("1");
            assert(c@ =~= seq![if x % 2 == 0 { '0' } else { '1' }]);
        }
        s.append(c);
        let ghost w0 = w;
        w = (w << 1) | x;
        proof {
            assert((((w0 << 1) | x) / 2 == w0) && (((w0 << 1) | x) % 2 == x) && x % 2 == x)
                by (bit_vector)
                requires
                    x < 2u128,
                    w0 < 0x80000000000000000000000000000000u128,
            ;
            assert(s@ =~= bin_of(w, (i + 1) as nat));
        }
        i = i + 1;
    }
    proof {
        assert(v >> 0u128 == v) by (bit_vector);
    }
    s
}

/// Law: an identifier is nothing but its 128-bit value — two identifiers
/// are equal exactly when their raw values are.
pub proof fn lemma_eq_by_value(a: Flake, b: Flake)
    ensures
        a == b <==> a@ == b@,
{
}

/// Law: identifiers packed from different timestamps differ, for every
/// node identifier and sequence number.
pub proof fn lemma_pack_unique_by_timestamp(ts0: u64, ts1: u64, node: u64, seq: u16)
    by (bit_vector)
    requires
        node < 0x1_0000_0000_0000,
        ts0 != ts1,
    ensures
        pack_spec(ts0, node, seq) != pack_spec(ts1, node, seq),
{
}

/// Law: identifiers packed from different node identifiers differ, for
/// every timestamp and sequence number.
pub proof fn lemma_pack_unique_by_node(ts: u64, node0: u64, node1: u64, seq: u16)
    by (bit_vector)
    requires
        node0 < 0x1_0000_0000_0000,
        node1 < 0x1_0000_0000_0000,
        node0 != node1,
    ensures
        pack_spec(ts, node0, seq) != pack_spec(ts, node1, seq),
{
}

/// Law: identifiers packed from different sequence numbers differ, for
/// every timestamp and node identifier.
pub proof fn lemma_pack_unique_by_sequence(ts: u64, node: u64, seq0: u16, seq1: u16)
    by (bit_vector)
    requires
        seq0 != seq1,
    ensures
        pack_spec(ts, node, seq0) != pack_spec(ts, node, seq1),
{
}

/// Law: the timestamp field extracted from a packed value is the timestamp
/// it was packed from.
pub proof fn lemma_timestamp_extraction(ts: u64, node: u64, seq: u16)
    by (bit_vector)
    requires
        node < 0x1_0000_0000_0000,
    ensures
        timestamp_of(pack_spec(ts, node, seq)) == ts,
{
}

} // verus!
