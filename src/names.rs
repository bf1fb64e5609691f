//! UTF-16 text as the host exchanges it: null-terminated names and their comparison.
use vstd::prelude::*;
use vstd::std_specs::iter::IteratorSpec;

verus! {

/// Whether two runs of UTF-16 units are equal, unit for unit.
pub fn same_units(a: &[u16], b: &[u16]) -> (r: bool)
    ensures
        r == (a@ == b@),
{
    if a.len() != b.len() {
        return false;
    }
    let mut i: usize = 0;
    while i < a.len()
        invariant
            a@.len() == b@.len(),
            0 <= i <= a@.len(),
            forall|j: int| 0 <= j < i ==> a@[j] == b@[j],
        decreases a@.len() - i,
    {
        if a[i] != b[i] {
            return false;
        }
        i = i + 1;
    }
    assert(a@ =~= b@);
    true
}

/// Whether `r` is where `name` first occurs in `names`, or `None` when it does not occur.
pub open spec fn is_first_match(names: Seq<Seq<u16>>, name: Seq<u16>, r: Option<usize>) -> bool {
    match r {
        Some(i) => i < names.len() && names[i as int] == name && forall|j: int|
            0 <= j < i ==> names[j] != name,
        None => forall|j: int| 0 <= j < names.len() ==> names[j] != name,
    }
}

/// The UTF-16 code units of one character.
pub open spec fn utf16_of_char(c: char) -> Seq<u16> {
    let v = c as u32;
    if v < 0x10000 {
        seq![v as u16]
    } else {
        let w = (v - 0x10000) as int;
        seq![(0xD800 + w / 0x400) as u16, (0xDC00 + w % 0x400) as u16]
    }
}

/// The UTF-16 code units of a character string.
pub open spec fn utf16_of(s: Seq<char>) -> Seq<u16>
    decreases s.len(),
{
    if s.len() == 0 {
        seq![]
    } else {
        utf16_of(s.drop_last()) + utf16_of_char(s.last())
    }
}

/// Whether a unit is a leading surrogate.
pub open spec fn is_lead_surrogate(u: u16) -> bool {
    0xD800 <= u < 0xDC00
}

/// Whether a unit is a trailing surrogate.
pub open spec fn is_trail_surrogate(u: u16) -> bool {
    0xDC00 <= u < 0xE000
}

/// The code points that UTF-16 units decode to, each unpaired surrogate standing for
/// U+FFFD, the replacement character.
pub open spec fn utf16_lossy_points(u: Seq<u16>) -> Seq<u32>
    decreases u.len(),
{
    if u.len() == 0 {
        seq![]
    } else if u.len() >= 2 && is_lead_surrogate(u[0]) && is_trail_surrogate(u[1]) {
        seq![(0x10000 + (u[0] - 0xD800) * 0x400 + (u[1] - 0xDC00)) as u32] + utf16_lossy_points(
            u.subrange(2, u.len() as int),
        )
    } else if is_lead_surrogate(u[0]) || is_trail_surrogate(u[0]) {
        seq![0xFFFDu32] + utf16_lossy_points(u.drop_first())
    } else {
        seq![u[0] as u32] + utf16_lossy_points(u.drop_first())
    }
}

/// The code points of a character string.
pub open spec fn points_of(s: Seq<char>) -> Seq<u32> {
    s.map_values(|c: char| c as u32)
}

/// Relies on `String::from_utf16_lossy`: the units decoded as UTF-16, each unpaired
/// surrogate replaced by U+FFFD.
#[verifier::external_body]
fn decode_utf16_lossy(u: &[u16]) -> (r: String)
    ensures
        points_of(r@) == utf16_lossy_points(u@),
{
    String::from_utf16_lossy(u)
}

/// The units of `u` without the zero units at its end.
pub open spec fn trim_trailing_zeros(u: Seq<u16>) -> Seq<u16>
    decreases u.len(),
{
    if u.len() > 0 && u.last() == 0 {
        trim_trailing_zeros(u.drop_last())
    } else {
        u
    }
}

/// Appends the UTF-16 units of `c` to `out`.
fn push_utf16(out: &mut Vec<u16>, c: char)
    ensures
        final(out)@ == old(out)@ + utf16_of_char(c),
{
    let v = c as u32;
    if v < 0x10000 {
        out.push(v as u16);
    } else {
        assert(v <= 0x10FFFF) by {
            assert(c as u32 <= 0x10FFFF);
        }
        let w = v - 0x10000;
        out.push((0xD800 + w / 0x400) as u16);
        out.push((0xDC00 + w % 0x400) as u16);
    }
    assert(final(out)@ =~= old(out)@ + utf16_of_char(c));
}

/// A string as the host takes text: UTF-16 units followed by a zero terminator.
pub fn os_string(s: &str) -> (r: Vec<u16>)
    ensures
        r@ == utf16_of(s@).push(0),
{
    broadcast use vstd::string::group_string_axioms;

    let mut chars = s.chars();
    let mut r: Vec<u16> = Vec::new();
    let ghost mut done: Seq<char> = seq![];
    assert(chars.remaining() == s@);
    loop
        invariant
            chars.obeys_prophetic_iter_laws(),
            chars.decrease() is Some,
            done + chars.remaining() == s@,
            r@ == utf16_of(done),
        ensures
            r@ == utf16_of(s@),
        decreases chars.decrease()->0,
    {
        let ghost before = chars.remaining();
        match chars.next() {
            Some(c) => {
                push_utf16(&mut r, c);
                proof {
                    assert(done.push(c).drop_last() =~= done);
                    assert(done.push(c) + chars.remaining() =~= done + before);
                    done = done.push(c);
                }
            },
            None => {
                assert(done =~= s@);
                break;
            },
        }
    }
    r.push(0);
    r
}

/// Text from the host as a string: the units decoded, the terminator and any zero units
/// before it dropped.
pub fn from_os_string(s: &[u16]) -> (r: String)
    ensures
        points_of(r@) == utf16_lossy_points(trim_trailing_zeros(s@)),
{
    let mut end = s.len();
    assert(s@.subrange(0, end as int) =~= s@);
    while end > 0 && s[end - 1] == 0
        invariant
            0 <= end <= s@.len(),
            trim_trailing_zeros(s@) == trim_trailing_zeros(s@.subrange(0, end as int)),
        decreases end,
    {
        assert(s@.subrange(0, end as int).drop_last() =~= s@.subrange(0, end - 1));
        end = end - 1;
    }
    let (head, _) = s.split_at(end);
    assert(trim_trailing_zeros(s@.subrange(0, end as int)) == s@.subrange(0, end as int));
    decode_utf16_lossy(head)
}

} // verus!
