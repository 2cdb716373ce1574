//! Plain-text building blocks: decimal numerals and string comparison.
use vstd::prelude::*;
use vstd::string::StringExecFns;

verus! {

/// The character for a single decimal digit.
pub open spec fn digit_char(d: nat) -> char {
    if d == 0 {
        '0'
    } else if d == 1 {
        '1'
    } else if d == 2 {
        '2'
    } else if d == 3 {
        '3'
    } else if d == 4 {
        '4'
    } else if d == 5 {
        '5'
    } else if d == 6 {
        '6'
    } else if d == 7 {
        '7'
    } else if d == 8 {
        '8'
    } else {
        '9'
    }
}

/// The decimal text of a natural number, most significant digit first,
/// with no leading zeros (a single `'0'` for zero).
pub open spec fn decimal_digits(n: nat) -> Seq<char>
    decreases n,
{
    if n < 10 {
        seq![digit_char(n)]
    } else {
        decimal_digits(n / 10).push(digit_char(n % 10))
    }
}

/// The numeric value of a single decimal digit character.
pub open spec fn digit_value(c: char) -> nat {
    if c == '0' {
        0
    } else if c == '1' {
        1
    } else if c == '2' {
        2
    } else if c == '3' {
        3
    } else if c == '4' {
        4
    } else if c == '5' {
        5
    } else if c == '6' {
        6
    } else if c == '7' {
        7
    } else if c == '8' {
        8
    } else {
        9
    }
}

/// The number a sequence of decimal digit characters denotes.
pub open spec fn decimal_value(s: Seq<char>) -> nat
    decreases s.len(),
{
    if s.len() == 0 {
        0
    } else {
        decimal_value(s.drop_last()) * 10 + digit_value(s.last())
    }
}

/// The decimal text of a number denotes that number back: `decimal_digits`
/// really is the base-ten numeral.
pub proof fn lemma_decimal_round_trip(n: nat)
    ensures
        decimal_value(decimal_digits(n)) == n,
    decreases n,
{
    if n < 10 {
        let s = decimal_digits(n);
        assert(s.len() == 1);
        assert(s.last() == digit_char(n));
        assert(s.drop_last().len() == 0);
        assert(decimal_value(s.drop_last()) == 0);
        assert(decimal_value(s) == decimal_value(s.drop_last()) * 10 + digit_value(s.last()));
        assert(digit_value(digit_char(n)) == n);
    } else {
        lemma_decimal_round_trip(n / 10);
        assert(decimal_digits(n).drop_last() =~= decimal_digits(n / 10));
        vstd::arithmetic::div_mod::lemma_fundamental_div_mod(n as int, 10);
    }
}

/// A character that may stand between the `{{` and the `>` of a partial
/// invocation in template syntax: whitespace, the whitespace-trimming
/// tilde, or the `#` of a partial block.
pub open spec fn partial_filler(c: char) -> bool {
    c == ' ' || c == '\t' || c == '\n' || c == '\r' || c == '~' || c == '#'
}

/// Every character of `s` in `[from, to)` is a partial filler.
pub open spec fn filler_span(s: Seq<char>, from: int, to: int) -> bool {
    forall|k: int| from <= k < to ==> partial_filler(#[trigger] s[k])
}

/// A partial invocation may start at `i`: a `{{` followed, across
/// fillers only, by a `>`.
pub open spec fn partial_marker_at(s: Seq<char>, i: int) -> bool {
    &&& 0 <= i && i + 2 <= s.len()
    &&& s[i] == '{' && s[i + 1] == '{'
    &&& exists|j: int| i + 2 <= j < s.len() && #[trigger] s[j] == '>' && filler_span(s, i + 2, j)
}

/// The text holds something the template grammar could read as a
/// partial invocation (`{{> name}}`, `{{#> name}}`, with tildes and
/// whitespace): a conservative reading, so every real partial reference
/// is such a marker.
pub open spec fn refs_partials(s: Seq<char>) -> bool {
    exists|i: int| #[trigger] partial_marker_at(s, i)
}

fn is_partial_filler(c: char) -> (r: bool)
    ensures
        r == partial_filler(c),
{
    c == ' ' || c == '\t' || c == '\n' || c == '\r' || c == '~' || c == '#'
}

/// Scans a template source for a partial-invocation marker.
pub fn has_partial_marker(source: &str) -> (r: bool)
    ensures
        r == refs_partials(source@),
{
    let ghost s = source@;
    let n = source.unicode_len();
    let mut i: usize = 0;
    while i < n
        invariant
            0 <= i <= n,
            s == source@,
            n == s.len(),
            forall|i2: int| 0 <= i2 < i ==> !#[trigger] partial_marker_at(s, i2),
        decreases n - i,
    {
        if n - i >= 2 && source.get_char(i) == '{' && source.get_char(i + 1) == '{' {
            let mut j: usize = i + 2;
            while j < n && is_partial_filler(source.get_char(j))
                invariant
                    s == source@,
                    n == s.len(),
                    i + 2 <= j <= n,
                    filler_span(s, i + 2 as int, j as int),
                decreases n - j,
            {
                j = j + 1;
            }
            if j < n && source.get_char(j) == '>' {
                assert(partial_marker_at(s, i as int));
                return true;
            }
            proof {
                assert forall|j2: int|
                    i + 2 <= j2 < s.len() && s[j2] == '>' implies !filler_span(
                    s,
                    i + 2 as int,
                    j2,
                ) by {
                    if j2 < j {
                        assert(partial_filler(s[j2]));
                    } else if j2 == j {
                        assert(s[j2] != '>');
                    } else {
                        if filler_span(s, i + 2 as int, j2) {
                            assert(partial_filler(s[j as int]));
                        }
                    }
                }
                assert(!partial_marker_at(s, i as int));
            }
        } else {
            assert(!partial_marker_at(s, i as int));
        }
        i = i + 1;
    }
    assert forall|i2: int| !#[trigger] partial_marker_at(s, i2) by {
        if 0 <= i2 < s.len() {
            assert(!partial_marker_at(s, i2));
        }
    }
    false
}

/// Relies on `str`'s `PartialEq`: two string slices are equal exactly when
/// their character sequences are equal.
#[verifier::external_body]
pub fn str_eq(a: &str, b: &str) -> (r: bool)
    ensures
        r == (a@ == b@),
{
    a == b
}

fn digit_str(d: u64) -> (r: &'static str)
    requires
        d < 10,
    ensures
        r@ == seq![digit_char(d as nat)],
{
    proof {
        reveal_strlit("0");
        reveal_strlit("1");
        reveal_strlit("2");
        reveal_strlit("3");
        reveal_strlit("4");
        reveal_strlit("5");
        reveal_strlit("6");
        reveal_strlit("7");
        reveal_strlit("8");
        reveal_strlit("9");
    }
    let r: &'static str = match d {
        0 => "0",
        1 => "1",
        2 => "2",
        3 => "3",
        4 => "4",
        5 => "5",
        6 => "6",
        7 => "7",
        8 => "8",
        _ => "9",
    };
    assert(r@ =~= seq![digit_char(d as nat)]);
    r
}

/// The decimal text of `n`.
pub fn u64_to_decimal(n: u64) -> (s: String)
    ensures
        s@ == decimal_digits(n as nat),
    decreases n,
{
    if n < 10 {
        String::from_str(digit_str(n))
    } else {
        let mut s = u64_to_decimal(n / 10);
        s.append(digit_str(n % 10));
        assert(s@ =~= decimal_digits(n as nat));
        s
    }
}

} // verus!
