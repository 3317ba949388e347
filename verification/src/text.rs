use vstd::prelude::*;

verus! {

/// Relies on String::push: appends the given character at the end.
#[verifier::external_body]
pub(crate) fn push_char(s: &mut String, c: char)
    ensures
        final(s).view() == old(s).view().push(c),
{
    s.push(c);
}

/// The decimal digit character for one digit value.
pub open spec fn spec_digit_char(d: int) -> char {
    ((48 + d) as u8) as char
}

/// The decimal text of a natural number, most significant digit first.
pub open spec fn spec_nat_text(n: nat) -> Seq<char>
    decreases n,
{
    if n < 10 {
        seq![spec_digit_char(n as int)]
    } else {
        spec_nat_text(n / 10).push(spec_digit_char((n % 10) as int))
    }
}

/// The decimal text of a signed number: a minus sign for a negative value,
/// then the digits of its magnitude.
pub open spec fn spec_int_text(v: int) -> Seq<char> {
    if v < 0 {
        seq!['-'] + spec_nat_text((-v) as nat)
    } else {
        spec_nat_text(v as nat)
    }
}

/// Writes a natural number in decimal.
pub fn u64_text(n: u64) -> (r: String)
    ensures
        r.view() == spec_nat_text(n as nat),
    decreases n,
{
    if n < 10 {
        let mut s = String::new();
        push_char(&mut s, (48u8 + (n % 10) as u8) as char);
        s
    } else {
        let mut s = u64_text(n / 10);
        push_char(&mut s, (48u8 + (n % 10) as u8) as char);
        s
    }
}

/// Writes a signed number in decimal.
pub fn i64_text(v: i64) -> (r: String)
    ensures
        r.view() == spec_int_text(v as int),
{
    if v >= 0 {
        u64_text(v as u64)
    } else {
        let magnitude: u64 = (-(v as i128)) as u64;
        let mut s = String::new();
        push_char(&mut s, '-');
        let digits = u64_text(magnitude);
        s.append(digits.as_str());
        proof {
            assert(s.view() =~= spec_int_text(v as int));
        }
        s
    }
}

} // verus!
