use vstd::prelude::*;

verus! {

/// Whether two string slices hold the same characters.
pub fn str_equal(a: &str, b: &str) -> (same: bool)
    ensures
        same == (a@ == b@),
{
    let left = a.to_owned();
    let right = b.to_owned();
    left == right
}

/// `prefix` followed by `tail`, as a new string.
pub fn joined(prefix: &str, tail: &str) -> (out: String)
    ensures
        out@ == prefix@ + tail@,
{
    let mut out = String::from_str(prefix);
    out.append(tail);
    out
}

/// The decimal digit `d`.
pub open spec fn digit(d: nat) -> char
    recommends
        d < 10,
{
    if d == 0 {
        '0'
    } else if d == 1 {
        '1'
    } else if d == 2 {
        '2'
    } else if d == 3 {
        '3'
    } else if d == 4 {
        '4'
    } else if d == 5 {
        '5'
    } else if d == 6 {
        '6'
    } else if d == 7 {
        '7'
    } else if d == 8 {
        '8'
    } else {
        '9'
    }
}

/// The decimal text of `n`, without leading zeros.
pub open spec fn decimal(n: nat) -> Seq<char>
    decreases n,
{
    if n < 10 {
        Seq::empty().push(digit(n))
    } else {
        decimal(n / 10).push(digit(n % 10))
    }
}

/// The decimal digit `d` as a character.
fn digit_char(d: u64) -> (c: char)
    requires
        d < 10,
    ensures
        c == digit(d as nat),
{
    if d == 0 {
        '0'
    } else if d == 1 {
        '1'
    } else if d == 2 {
        '2'
    } else if d == 3 {
        '3'
    } else if d == 4 {
        '4'
    } else if d == 5 {
        '5'
    } else if d == 6 {
        '6'
    } else if d == 7 {
        '7'
    } else if d == 8 {
        '8'
    } else {
        '9'
    }
}

/// The decimal digits of `n`, without leading zeros.
pub fn decimal_digits(n: u64) -> (digits: Vec<char>)
    ensures
        digits@ == decimal(n as nat),
{
    let mut low_first: Vec<char> = Vec::new();
    let mut rest: u64 = n;
    while rest >= 10
        invariant
            decimal(n as nat) == decimal(rest as nat) + low_first@.reverse(),
        decreases rest,
    {
        let ghost before = low_first@;
        low_first.push(digit_char(rest % 10));
        proof {
            assert(low_first@.reverse() =~= Seq::empty().push(digit((rest % 10) as nat))
                + before.reverse());
            assert(decimal(rest as nat) + before.reverse() =~= decimal((rest / 10) as nat)
                + low_first@.reverse());
        }
        rest = rest / 10;
    }
    let ghost before = low_first@;
    low_first.push(digit_char(rest));
    proof {
        assert(low_first@.reverse() =~= Seq::empty().push(digit(rest as nat)) + before.reverse());
        assert(decimal(n as nat) =~= low_first@.reverse());
    }
    let mut digits: Vec<char> = Vec::new();
    let mut i: usize = low_first.len();
    while i > 0
        invariant
            0 <= i <= low_first.len(),
            digits@.len() == low_first.len() - i,
            forall|k: int|
                0 <= k < digits@.len() ==> digits@[k] == low_first@[low_first@.len() - 1 - k],
        decreases i,
    {
        digits.push(low_first[i - 1]);
        i -= 1;
    }
    proof {
        assert(digits@ =~= low_first@.reverse());
    }
    digits
}

/// The decimal text of `n`.
pub fn number_text(n: u64) -> (out: String)
    ensures
        out@ == decimal(n as nat),
{
    string_of(&decimal_digits(n))
}

/// The decimal text of `n`, with a minus sign before it where `n` is
/// negative.
pub open spec fn signed_decimal(n: int) -> Seq<char> {
    if n < 0 {
        "-"@ + decimal((-n) as nat)
    } else {
        decimal(n as nat)
    }
}

/// The decimal text of `n`, with a minus sign before it where `n` is
/// negative.
pub fn signed_text(n: i64) -> (out: String)
    ensures
        out@ == signed_decimal(n as int),
{
    if n < 0 {
        let size: u64 = ((-(n + 1)) as u64) + 1;
        let mut out: Vec<char> = Vec::new();
        out.push('-');
        let digits = decimal_digits(size);
        let mut i: usize = 0;
        while i < digits.len()
            invariant
                0 <= i <= digits.len(),
                out@ == Seq::empty().push('-') + digits@.take(i as int),
            decreases digits.len() - i,
        {
            out.push(digits[i]);
            proof {
                assert(out@ =~= Seq::empty().push('-') + digits@.take(i + 1));
            }
            i += 1;
        }
        proof {
            reveal_strlit("-");
            assert(digits@.take(digits.len() as int) =~= digits@);
            assert("-"@ =~= Seq::empty().push('-'));
        }
        string_of(&out)
    } else {
        number_text(n as u64)
    }
}

/// Trusted: `String::from_iter` of std, by way of `Iterator::collect`. The
/// string holds the characters of the list, in order.
#[verifier::external_body]
pub(crate) fn string_of(chars: &Vec<char>) -> (s: String)
    ensures
        s@ == chars@,
{
    chars.iter().collect()
}

} // verus!
