//! The storage engine's record identifier, modelled as plain bytes.
//!
//! A stored record is keyed by a twelve-byte identifier that callers see as a
//! string of twenty-four lowercase hexadecimal digits. Encoding and decoding
//! between the two shapes is done here and proved to round-trip.

use vstd::prelude::*;
use vstd::string::{StrSliceExecFns, StringExecFns};

verus! {

broadcast use vstd::seq::group_seq_axioms;

/// The number of bytes in a record identifier.
pub const OBJECT_ID_LEN: usize = 12;

/// A storage-native record identifier: raw bytes, rendered to callers as
/// lowercase hexadecimal digits.
#[derive(Debug, PartialEq)]
pub struct ObjectId {
    pub bytes: Vec<u8>,
}

impl View for ObjectId {
    type V = Seq<u8>;

    open spec fn view(&self) -> Seq<u8> {
        self.bytes@
    }
}

impl Clone for ObjectId {
    /// A clone holds the same bytes.
    fn clone(&self) -> (r: Self)
        ensures
            r@ == self@,
    {
        let bytes = self.bytes.clone();
        proof {
            assert(bytes@ =~= self.bytes@);
        }
        ObjectId { bytes }
    }
}

impl ObjectId {
    /// A well-formed identifier holds exactly twelve bytes.
    pub open spec fn wf(&self) -> bool {
        self@.len() == OBJECT_ID_LEN
    }

    /// Wraps raw identifier bytes as handed out by the storage engine.
    pub fn new(bytes: Vec<u8>) -> (r: ObjectId)
        ensures
            r@ == bytes@,
    {
        ObjectId { bytes }
    }

    /// The raw bytes, for handing back to the storage engine.
    pub fn bytes(&self) -> (r: &Vec<u8>)
        ensures
            r@ == self@,
    {
        &self.bytes
    }

    /// Renders the identifier as lowercase hexadecimal digits, two per byte.
    pub fn to_hex(&self) -> (r: String)
        ensures
            r@ == spec_hex_of_bytes(self@),
    {
        let digits = "0123456789abcdef";
        proof {
            reveal_strlit("0123456789abcdef");
            assert(digits.is_ascii());
        }
        let mut out = String::new();
        let mut i: usize = 0;
        while i < self.bytes.len()
            invariant
                i <= self@.len(),
                out@ =~= spec_hex_of_bytes(self@.subrange(0, i as int)),
                digits@ =~= "0123456789abcdef"@,
                digits@.len() == 16,
                vstd::string::is_ascii(digits),
            decreases self@.len() - i,
        {
            let b = self.bytes[i];
            let hi = (b / 16) as usize;
            let lo = (b % 16) as usize;
            out.append(digits.substring_ascii(hi, hi + 1));
            out.append(digits.substring_ascii(lo, lo + 1));
            i += 1;
            proof {
                let t = self@.subrange(0, i as int);
                assert(t.subrange(0, t.len() - 1) =~= self@.subrange(0, i - 1));
                assert(out@ =~= spec_hex_of_bytes(t));
            }
        }
        proof {
            assert(self@.subrange(0, self@.len() as int) =~= self@);
        }
        out
    }

    /// Reads an identifier back from its hexadecimal rendering. Both digit
    /// cases are accepted; anything but twenty-four hexadecimal digits is
    /// rejected.
    pub fn from_hex(s: &str) -> (r: Option<ObjectId>)
        ensures
            r is Some <==> spec_is_hex_oid(s@),
            r matches Some(o) ==> o@ == spec_bytes_of_hex(s@),
    {
        let n = s.unicode_len();
        if n != 24 {
            return None;
        }
        let mut bytes: Vec<u8> = Vec::new();
        let mut j: usize = 0;
        while j < 12
            invariant
                s@.len() == 24,
                j <= 12,
                bytes@.len() == j,
                forall|k: int| 0 <= k < 2 * j ==> spec_is_hex_digit(#[trigger] s@[k]),
                bytes@ =~= spec_bytes_of_hex(s@.subrange(0, 2 * j)),
            decreases 12 - j,
        {
            let c1 = s.get_char(2 * j);
            let c2 = s.get_char(2 * j + 1);
            let hi = match hex_char_val(c1) {
                Some(v) => v,
                None => {
                    return None;
                },
            };
            let lo = match hex_char_val(c2) {
                Some(v) => v,
                None => {
                    return None;
                },
            };
            bytes.push(hi * 16 + lo);
            j += 1;
            proof {
                let t = s@.subrange(0, 2 * j);
                assert(t.subrange(0, t.len() - 2) =~= s@.subrange(0, 2 * j - 2));
                assert(bytes@ =~= spec_bytes_of_hex(t));
            }
        }
        let r = Some(ObjectId { bytes });
        proof {
            assert(s@.subrange(0, 24) =~= s@);
        }
        r
    }
}

/// A lowercase hexadecimal digit, by value.
pub open spec fn spec_hex_digit(n: int) -> char {
    "0123456789abcdef"@[n]
}

/// The hexadecimal rendering of raw bytes: two lowercase digits per byte,
/// high digit first.
pub open spec fn spec_hex_of_bytes(bytes: Seq<u8>) -> Seq<char>
    decreases bytes.len(),
{
    if bytes.len() == 0 {
        Seq::empty()
    } else {
        spec_hex_of_bytes(bytes.drop_last()) + seq![
            spec_hex_digit(bytes.last() as int / 16),
            spec_hex_digit(bytes.last() as int % 16),
        ]
    }
}

/// A character that can stand in a hexadecimal rendering, either case.
pub open spec fn spec_is_hex_digit(c: char) -> bool {
    ('0' <= c && c <= '9') || ('a' <= c && c <= 'f') || ('A' <= c && c <= 'F')
}

/// The value of one hexadecimal digit.
pub open spec fn spec_hex_char_val(c: char) -> int {
    if '0' <= c && c <= '9' {
        c as int - '0' as int
    } else if 'a' <= c && c <= 'f' {
        c as int - 'a' as int + 10
    } else {
        c as int - 'A' as int + 10
    }
}

/// Text that decodes to an identifier: exactly twenty-four hexadecimal
/// digits.
pub open spec fn spec_is_hex_oid(s: Seq<char>) -> bool {
    s.len() == 24 && (forall|i: int| 0 <= i < s.len() ==> spec_is_hex_digit(#[trigger] s[i]))
}

/// The bytes an even-length hexadecimal rendering decodes to.
pub open spec fn spec_bytes_of_hex(s: Seq<char>) -> Seq<u8>
    decreases s.len(),
{
    if s.len() < 2 {
        Seq::empty()
    } else {
        spec_bytes_of_hex(s.subrange(0, s.len() - 2)) + seq![
            (spec_hex_char_val(s[s.len() - 2]) * 16 + spec_hex_char_val(s[s.len() - 1])) as u8,
        ]
    }
}

/// Each hexadecimal digit names its value: looking the digit up again
/// yields the value it was rendered from.
proof fn lemma_hex_digit_val(n: int)
    requires
        0 <= n < 16,
    ensures
        spec_is_hex_digit(spec_hex_digit(n)),
        spec_hex_char_val(spec_hex_digit(n)) == n,
{
    reveal_strlit("0123456789abcdef");
}

/// Rendering an identifier as hexadecimal digits and reading it back gives
/// the same bytes: the rendering is twice as long as the bytes and every
/// character of it is a digit.
pub proof fn lemma_hex_round_trip(bytes: Seq<u8>)
    ensures
        spec_hex_of_bytes(bytes).len() == 2 * bytes.len(),
        forall|i: int|
            0 <= i < 2 * bytes.len() ==> spec_is_hex_digit(#[trigger] spec_hex_of_bytes(bytes)[i]),
        spec_bytes_of_hex(spec_hex_of_bytes(bytes)) =~= bytes,
    decreases bytes.len(),
{
    if bytes.len() > 0 {
        let prefix = bytes.drop_last();
        lemma_hex_round_trip(prefix);
        let b = bytes.last();
        let hi = b as int / 16;
        let lo = b as int % 16;
        lemma_hex_digit_val(hi);
        lemma_hex_digit_val(lo);
        let h = spec_hex_of_bytes(bytes);
        let hp = spec_hex_of_bytes(prefix);
        let tail = seq![spec_hex_digit(hi), spec_hex_digit(lo)];
        assert(h == hp + tail);
        assert(h.len() == 2 * bytes.len());
        assert forall|i: int| 0 <= i < h.len() implies spec_is_hex_digit(
            #[trigger] h[i],
        ) by {
            if i < hp.len() {
                assert(h[i] == hp[i]);
            } else {
                assert(h[i] == tail[i - hp.len()]);
            }
        }
        assert(h.subrange(0, h.len() - 2) =~= hp);
        assert(h[h.len() - 2] == spec_hex_digit(hi));
        assert(h[h.len() - 1] == spec_hex_digit(lo));
        assert(spec_bytes_of_hex(h) == spec_bytes_of_hex(hp) + seq![
            (spec_hex_char_val(h[h.len() - 2]) * 16 + spec_hex_char_val(h[h.len() - 1])) as u8,
        ]);
        assert((hi * 16 + lo) as u8 == b);
        assert(spec_bytes_of_hex(h) =~= bytes);
    }
}

/// The value of one hexadecimal digit, or nothing for any other character.
fn hex_char_val(c: char) -> (r: Option<u8>)
    ensures
        r is Some <==> spec_is_hex_digit(c),
        r matches Some(v) ==> v == spec_hex_char_val(c) && v < 16,
{
    let u = c as u32;
    if u >= 48 && u <= 57 {
        Some((u - 48) as u8)
    } else if u >= 97 && u <= 102 {
        Some((u - 97 + 10) as u8)
    } else if u >= 65 && u <= 70 {
        Some((u - 65 + 10) as u8)
    } else {
        None
    }
}

} // verus!
