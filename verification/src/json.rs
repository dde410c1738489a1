//! JSON text pieces: string literals (escaped by `serde_json`) and decimal
//! numbers.
use vstd::prelude::*;

verus! {

/// A string that JSON writes between quotes unchanged: no quote, no
/// backslash and no control character below U+0020.
pub open spec fn plain_text(s: Seq<char>) -> bool {
    forall|i: int| 0 <= i < s.len() ==> #[trigger] s[i] != '"' && s[i] != '\\' && (s[i] as u32) >= 0x20
}

/// The JSON string literal, quotes included, that `serde_json` writes for `s`.
pub uninterp spec fn json_string_literal(s: Seq<char>) -> Seq<char>;

/// `s` between two double quotes.
pub open spec fn quoted(s: Seq<char>) -> Seq<char> {
    seq!['"'] + s + seq!['"']
}

/// Writes `s` as a JSON string literal.
///
/// Calls `serde_json::Value::to_string` (its `Display`) on `Value::String`.
/// The contract names the result `json_string_literal(s)`, and states what
/// `serde_json`'s escape table shows: only `"`, `\` and the characters below
/// U+0020 are escaped, so any other text comes out between two quotes as it
/// is. How the escaped characters are written is left unsaid; but a string
/// literal reads back to one string only, so no other text has this literal.
#[verifier::external_body]
pub(crate) fn json_quote(s: &str) -> (r: String)
    ensures
        r@ == json_string_literal(s@),
        plain_text(s@) ==> r@ == quoted(s@),
        forall|t: Seq<char>| #[trigger] json_string_literal(t) == r@ ==> t == s@,
{
    serde_json::Value::String(s.to_string()).to_string()
}

/// The decimal digit character for `d < 10`.
pub open spec fn digit_char(d: nat) -> char {
    if d == 0 { '0' }
    else if d == 1 { '1' }
    else if d == 2 { '2' }
    else if d == 3 { '3' }
    else if d == 4 { '4' }
    else if d == 5 { '5' }
    else if d == 6 { '6' }
    else if d == 7 { '7' }
    else if d == 8 { '8' }
    else { '9' }
}

/// The decimal numeral of `n`, most significant digit first, as JSON writes
/// a non-negative integer.
pub open spec fn decimal(n: nat) -> Seq<char>
    decreases n,
{
    if n < 10 {
        seq![digit_char(n)]
    } else {
        decimal(n / 10).push(digit_char(n % 10))
    }
}

fn digit_str(d: usize) -> (r: &'static str)
    requires
        d < 10,
    ensures
        r@ == seq![digit_char(d as nat)],
{
    if d == 0 {
        proof { reveal_strlit("0"); }
        "0"
    } else if d == 1 {
        proof { reveal_strlit("1"); }
        "1"
    } else if d == 2 {
        proof { reveal_strlit("2"); }
        "2"
    } else if d == 3 {
        proof { reveal_strlit("3"); }
        "3"
    } else if d == 4 {
        proof { reveal_strlit("4"); }
        "4"
    } else if d == 5 {
        proof { reveal_strlit("5"); }
        "5"
    } else if d == 6 {
        proof { reveal_strlit("6"); }
        "6"
    } else if d == 7 {
        proof { reveal_strlit("7"); }
        "7"
    } else if d == 8 {
        proof { reveal_strlit("8"); }
        "8"
    } else {
        proof { reveal_strlit("9"); }
        "9"
    }
}

/// Writes `n` in decimal.
pub fn decimal_string(n: usize) -> (r: String)
    ensures
        r@ == decimal(n as nat),
    decreases n,
{
    if n < 10 {
        String::from_str(digit_str(n))
    } else {
        let mut s = decimal_string(n / 10);
        s.append(digit_str(n % 10));
        s
    }
}

/// The value that a string of decimal digits denotes.
pub open spec fn digits_value(s: Seq<char>) -> nat
    decreases s.len(),
{
    if s.len() == 0 {
        0
    } else {
        digits_value(s.drop_last()) * 10 + ((s.last() as u32) - ('0' as u32)) as nat
    }
}

/// Every character of `decimal(n)` is a digit, the first is `0` only for
/// zero itself, and the digits denote `n`.
pub proof fn lemma_decimal_denotes(n: nat)
    ensures
        decimal(n).len() >= 1,
        forall|i: int| 0 <= i < decimal(n).len() ==> '0' <= #[trigger] decimal(n)[i] <= '9',
        n > 0 ==> decimal(n)[0] != '0',
        digits_value(decimal(n)) == n,
    decreases n,
{
    let s = decimal(n);
    lemma_digit_char_code(n % 10);
    if n >= 10 {
        lemma_decimal_denotes(n / 10);
        assert(s.drop_last() =~= decimal(n / 10));
    } else {
        assert(s.drop_last().len() == 0);
        assert(digits_value(s.drop_last()) == 0);
    }
}

proof fn lemma_digit_char_code(d: nat)
    requires
        d < 10,
    ensures
        digit_char(d) as u32 == '0' as u32 + d,
        '0' <= digit_char(d) <= '9',
        d > 0 ==> digit_char(d) != '0',
{
}

/// `m` is the decimal numeral of `n`: one or more digits, no leading zero
/// unless it is the single digit `0`, and their value is `n`.
pub open spec fn numeral_of(m: Seq<char>, n: nat) -> bool {
    &&& m.len() >= 1
    &&& forall|i: int| 0 <= i < m.len() ==> '0' <= #[trigger] m[i] <= '9'
    &&& (m.len() == 1 || m[0] != '0')
    &&& digits_value(m) == n
}

/// `decimal(n)` is the decimal numeral of `n`.
pub proof fn lemma_decimal_numeral(n: nat)
    ensures
        numeral_of(decimal(n), n),
{
    lemma_decimal_denotes(n);
}

/// The three parts of `a + b + c` stand at their places.
pub proof fn lemma_three_parts(a: Seq<char>, b: Seq<char>, c: Seq<char>)
    ensures
        ({
            let s = a + b + c;
            &&& s.len() == a.len() + b.len() + c.len()
            &&& s.subrange(0, a.len() as int) == a
            &&& s.subrange(a.len() as int, (a.len() + b.len()) as int) == b
            &&& s.subrange((a.len() + b.len()) as int, s.len() as int) == c
        }),
{
    let s = a + b + c;
    assert(s.subrange(0, a.len() as int) =~= a);
    assert(s.subrange(a.len() as int, (a.len() + b.len()) as int) =~= b);
    assert(s.subrange((a.len() + b.len()) as int, s.len() as int) =~= c);
}

} // verus!
