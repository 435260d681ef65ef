use vstd::prelude::*;

verus! {

/// Whether `char::is_numeric` holds of `c`: its Unicode general category is
/// one of those for numbers.
pub uninterp spec fn numeric_char(c: char) -> bool;

/// Relies on `char::is_numeric`: whether `c` is in a numeric Unicode general
/// category, which holds of the ASCII digits.
#[verifier::external_body]
fn is_numeric(c: char) -> (r: bool)
    ensures
        r == numeric_char(c),
        '0' <= c <= '9' ==> r,
{
    c.is_numeric()
}

/// Relies on `String::push`: appends `c` to `s`.
#[verifier::external_body]
fn push_char(s: &mut String, c: char)
    ensures
        final(s)@ == old(s)@.push(c),
{
    s.push(c)
}

/// A comma read as a decimal point.
pub open spec fn normalized(c: char) -> char {
    if c == ',' {
        '.'
    } else {
        c
    }
}

/// Whether a (normalized) character may stand in a number.
pub open spec fn numeric_kept(c: char) -> bool {
    numeric_char(c) || c == '.' || c == '-'
}

/// `s` with commas read as decimal points and every character dropped that
/// cannot stand in a number.
pub open spec fn numeric_text(s: Seq<char>) -> Seq<char>
    decreases s.len(),
{
    if s.len() == 0 {
        Seq::empty()
    } else {
        let c = normalized(s.last());
        let prev = numeric_text(s.drop_last());
        if numeric_kept(c) {
            prev.push(c)
        } else {
            prev
        }
    }
}

/// Cleans typed text into something that parses as a number: commas become
/// decimal points, and only numeric characters, `.` and `-` are kept, in order.
pub fn to_numeric(s: &String) -> (r: String)
    ensures
        r@ == numeric_text(s@),
{
    let text: &str = s.as_str();
    let n: usize = text.unicode_len();
    let mut r: String = String::new();
    let mut i: usize = 0;
    while i < n
        invariant
            text@ == s@,
            n == s@.len(),
            i <= n,
            r@ == numeric_text(s@.subrange(0, i as int)),
        decreases n - i,
    {
        let raw: char = text.get_char(i);
        let c: char = if raw == ',' {
            '.'
        } else {
            raw
        };
        let keep: bool = is_numeric(c) || c == '.' || c == '-';
        if keep {
            push_char(&mut r, c);
        }
        assert(s@.subrange(0, i + 1).drop_last() =~= s@.subrange(0, i as int));
        i = i + 1;
    }
    assert(s@.subrange(0, n as int) =~= s@);
    r
}

} // verus!
