//! The predicates that decide whether a candidate value is accepted.

use crate::text::chars_of;
use vstd::prelude::*;

verus! {

/// The placeholder that some manufacturers leave where a serial number
/// belongs, in lower case.
pub open spec fn oem_placeholder() -> Seq<char> {
    seq![
        't', 'o', ' ', 'b', 'e', ' ', 'f', 'i', 'l', 'l', 'e', 'd', ' ', 'b', 'y', ' ', 'o', '.',
        'e', '.', 'm', '.',
    ]
}

/// `c` with an ASCII capital letter replaced by its small letter.
pub open spec fn ascii_lower(c: char) -> char {
    if 0x41 <= c as u32 <= 0x5A {
        ((c as u32) + 0x20) as char
    } else {
        c
    }
}

/// Whether `a` and `b` are equal once ASCII letters are read without case.
pub open spec fn eq_ignoring_ascii_case(a: Seq<char>, b: Seq<char>) -> bool {
    a.map_values(|c: char| ascii_lower(c)) == b.map_values(|c: char| ascii_lower(c))
}

/// Whether `value` is a usable serial number: not empty, not `0`, and not
/// the manufacturer's placeholder in any mix of upper and lower case.
pub open spec fn valid_serial(value: Seq<char>) -> bool {
    &&& value.len() > 0
    &&& value != seq!['0']
    &&& !eq_ignoring_ascii_case(value, oem_placeholder())
}

/// A rule that a candidate value has to meet.
#[derive(Clone, Copy, Debug, PartialEq, Eq, Structural)]
pub enum Validity {
    /// Every value is accepted.
    Any,
    /// The value is not empty.
    NonEmpty,
    /// The value is a usable serial number.
    SerialNumber,
}

/// Whether `value` meets `rule`.
pub open spec fn is_valid(rule: Validity, value: Seq<char>) -> bool {
    match rule {
        Validity::Any => true,
        Validity::NonEmpty => value.len() > 0,
        Validity::SerialNumber => valid_serial(value),
    }
}

/// Whether `a` is `b` once an ASCII capital letter in `a` is made small.
fn lowers_to(a: char, b: char) -> (r: bool)
    ensures
        r == (ascii_lower(a) == b),
{
    let n: u32 = a as u32;
    if 0x41 <= n && n <= 0x5A {
        n + 0x20 == b as u32
    } else {
        a == b
    }
}

/// Decides whether `value` is the manufacturer's placeholder, whatever the
/// case of its letters.
pub fn is_oem_placeholder(value: &str) -> (r: bool)
    ensures
        r == eq_ignoring_ascii_case(value@, oem_placeholder()),
{
    let v = chars_of(value);
    let p = chars_of("to be filled by o.e.m.");
    proof {
        reveal_strlit("to be filled by o.e.m.");
        assert(p@ =~= oem_placeholder());
        assert(p@.map_values(|c: char| ascii_lower(c)) =~= p@);
    }
    let ghost low = v@.map_values(|c: char| ascii_lower(c));
    if v.len() != p.len() {
        assert(low.len() != p@.len());
        return false;
    }
    let mut i: usize = 0;
    while i < v.len()
        invariant
            i <= v.len() == p.len(),
            v@ == value@,
            low == v@.map_values(|c: char| ascii_lower(c)),
            p@ == oem_placeholder().map_values(|c: char| ascii_lower(c)),
            forall|j: int| 0 <= j < i ==> low[j] == p@[j],
        decreases v.len() - i,
    {
        if !lowers_to(v[i], p[i]) {
            assert(low[i as int] != p@[i as int]);
            return false;
        }
        i = i + 1;
    }
    assert(low =~= p@);
    true
}

/// Decides whether `value` is a usable serial number.
pub fn is_valid_serial(value: &str) -> (r: bool)
    ensures
        r == valid_serial(value@),
{
    let v = chars_of(value);
    if v.len() == 0 {
        return false;
    }
    if v.len() == 1 && v[0] == '0' {
        assert(value@ =~= seq!['0']);
        return false;
    }
    assert(value@ != seq!['0']) by {
        if value@ == seq!['0'] {
            assert(value@.len() == 1 && value@[0] == '0');
        }
    }
    !is_oem_placeholder(value)
}

/// Decides whether `value` meets `rule`.
pub fn accepts(rule: Validity, value: &str) -> (r: bool)
    ensures
        r == is_valid(rule, value@),
{
    match rule {
        Validity::Any => true,
        Validity::NonEmpty => !value.is_empty(),
        Validity::SerialNumber => is_valid_serial(value),
    }
}

} // verus!
