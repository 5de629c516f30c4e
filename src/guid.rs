//! Identifiers of 128 bits, read from their textual form.
use vstd::prelude::*;
use vstd::string::StrSliceExecFns;

verus! {

/// A 128-bit identifier, in the field layout used by the operating system.
#[derive(Clone, Copy, Debug, PartialEq, Eq)]
pub struct Guid {
    pub data1: u32,
    pub data2: u16,
    pub data3: u16,
    pub data4: [u8; 8],
}

pub open spec fn is_hex_digit(c: char) -> bool {
    ('0' <= c && c <= '9') || ('a' <= c && c <= 'f') || ('A' <= c && c <= 'F')
}

pub open spec fn hex_digit_value(c: char) -> nat {
    if '0' <= c && c <= '9' {
        (c as u32 - '0' as u32) as nat
    } else if 'a' <= c && c <= 'f' {
        (c as u32 - 'a' as u32 + 10) as nat
    } else {
        (c as u32 - 'A' as u32 + 10) as nat
    }
}

/// The number that a run of hexadecimal digits spells, most significant first.
pub open spec fn hex_value(s: Seq<char>) -> nat
    decreases s.len(),
{
    if s.len() == 0 {
        0
    } else {
        hex_value(s.drop_last()) * 16 + hex_digit_value(s.last())
    }
}

pub open spec fn is_dash_position(i: int) -> bool {
    i == 8 || i == 13 || i == 18 || i == 23
}

/// `xxxxxxxx-xxxx-xxxx-xxxx-xxxxxxxxxxxx` with hexadecimal digits of either case.
pub open spec fn is_guid_text(s: Seq<char>) -> bool {
    &&& s.len() == 36
    &&& forall|i: int|
        0 <= i < 36 ==> if is_dash_position(i) {
            #[trigger] s[i] == '-'
        } else {
            is_hex_digit(s[i])
        }
}

/// Where the two digits of byte `k` of the last eight bytes start in the text.
pub open spec fn tail_byte_start(k: int) -> int {
    if k < 2 {
        19 + 2 * k
    } else {
        20 + 2 * k
    }
}

/// `g` is the identifier that the text `s` spells.
pub open spec fn denotes(g: Guid, s: Seq<char>) -> bool {
    &&& g.data1 as nat == hex_value(s.subrange(0, 8))
    &&& g.data2 as nat == hex_value(s.subrange(9, 13))
    &&& g.data3 as nat == hex_value(s.subrange(14, 18))
    &&& forall|k: int|
        0 <= k < 8 ==> #[trigger] g.data4@[k] as nat == hex_value(
            s.subrange(tail_byte_start(k), tail_byte_start(k) + 2),
        )
}

/// The sixteen bytes of `g` as the operating system lays it out in memory:
/// the first three fields little-endian, then the last eight bytes in order.
pub open spec fn guid_bytes(g: Guid) -> Seq<u8> {
    seq![
        (g.data1 & 0xff) as u8,
        ((g.data1 >> 8) & 0xff) as u8,
        ((g.data1 >> 16) & 0xff) as u8,
        ((g.data1 >> 24) & 0xff) as u8,
        (g.data2 & 0xff) as u8,
        ((g.data2 >> 8) & 0xff) as u8,
        (g.data3 & 0xff) as u8,
        ((g.data3 >> 8) & 0xff) as u8,
    ] + g.data4@
}

/// Relies on `From<&str>` for `windows::core::GUID`: on a 36-byte text with dashes
/// at 8, 13, 18 and 23 and hexadecimal digits elsewhere, each field is the value
/// of its digits; any other text panics, so it is excluded.
#[verifier::external_body]
fn guid_from_text(s: &str) -> (r: Guid)
    requires
        is_guid_text(s@),
    ensures
        denotes(r, s@),
{
    let g = windows::core::GUID::from(s);
    Guid { data1: g.data1, data2: g.data2, data3: g.data3, data4: g.data4 }
}

fn is_hex_char(c: char) -> (r: bool)
    ensures
        r == is_hex_digit(c),
{
    ('0' <= c && c <= '9') || ('a' <= c && c <= 'f') || ('A' <= c && c <= 'F')
}

impl Guid {
    /// Whether `s` is an identifier in its textual form.
    pub fn is_text(s: &str) -> (r: bool)
        ensures
            r == is_guid_text(s@),
    {
        let n = s.unicode_len();
        if n != 36 {
            return false;
        }
        let mut i: usize = 0;
        while i < 36
            invariant
                s@.len() == 36,
                0 <= i <= 36,
                forall|j: int|
                    0 <= j < i ==> if is_dash_position(j) {
                        #[trigger] s@[j] == '-'
                    } else {
                        is_hex_digit(s@[j])
                    },
            decreases 36 - i,
        {
            let c = s.get_char(i);
            let ok = if i == 8 || i == 13 || i == 18 || i == 23 {
                c == '-'
            } else {
                is_hex_char(c)
            };
            if !ok {
                assert(!(if is_dash_position(i as int) {
                    s@[i as int] == '-'
                } else {
                    is_hex_digit(s@[i as int])
                }));
                return false;
            }
            i = i + 1;
        }
        true
    }

    /// Reads an identifier from its textual form; `None` where `s` is not one.
    pub fn parse(s: &str) -> (r: Option<Guid>)
        ensures
            is_guid_text(s@) ==> (r matches Some(g) && denotes(g, s@)),
            !is_guid_text(s@) ==> r is None,
    {
        if Guid::is_text(s) {
            Some(guid_from_text(s))
        } else {
            None
        }
    }

    /// The identifier as sixteen bytes in its in-memory layout.
    pub fn to_bytes(&self) -> (r: [u8; 16])
        ensures
            r@ == guid_bytes(*self),
    {
        let a = self.data1;
        let b = self.data2;
        let c = self.data3;
        let d = self.data4;
        let r: [u8; 16] = [
            (a & 0xff) as u8,
            ((a >> 8) & 0xff) as u8,
            ((a >> 16) & 0xff) as u8,
            ((a >> 24) & 0xff) as u8,
            (b & 0xff) as u8,
            ((b >> 8) & 0xff) as u8,
            (c & 0xff) as u8,
            ((c >> 8) & 0xff) as u8,
            d[0],
            d[1],
            d[2],
            d[3],
            d[4],
            d[5],
            d[6],
            d[7],
        ];
        assert(r@ =~= guid_bytes(*self));
        r
    }
}

} // verus!
