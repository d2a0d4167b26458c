//! Text helpers over the character view of strings: comparison, decimal
//! formatting and placeholder filling.
use vstd::prelude::*;

verus! {

/// Appends one character to a `String` (`String::push` of std).
///
/// Claimed: the string afterwards holds its former characters followed by `c`.
#[verifier::external_body]
fn push_char(s: &mut String, c: char)
    ensures
        final(s)@ == old(s)@.push(c),
{
    s.push(c);
}

/// Whether two string slices hold the same characters.
pub fn text_eq(a: &str, b: &str) -> (r: bool)
    ensures
        r == (a@ == b@),
{
    let n = a.unicode_len();
    if n != b.unicode_len() {
        return false;
    }
    let mut i: usize = 0;
    while i < n
        invariant
            n == a@.len(),
            n == b@.len(),
            i <= n,
            forall|j: int| 0 <= j < i ==> a@[j] == b@[j],
        decreases n - i,
    {
        if a.get_char(i) != b.get_char(i) {
            return false;
        }
        i = i + 1;
    }
    assert(a@ =~= b@);
    true
}

/// The characters of a string slice, as a vector.
pub fn chars_of(s: &str) -> (v: Vec<char>)
    ensures
        v@ == s@,
{
    let n = s.unicode_len();
    let mut v: Vec<char> = Vec::new();
    let mut i: usize = 0;
    while i < n
        invariant
            n == s@.len(),
            i <= n,
            v@ == s@.subrange(0, i as int),
        decreases n - i,
    {
        v.push(s.get_char(i));
        i = i + 1;
        assert(v@ =~= s@.subrange(0, i as int));
    }
    assert(s@.subrange(0, n as int) =~= s@);
    v
}

/// A `String` holding exactly the given characters.
pub fn string_of(chars: &Vec<char>) -> (s: String)
    ensures
        s@ == chars@,
{
    let mut s = String::new();
    let mut i: usize = 0;
    while i < chars.len()
        invariant
            i <= chars@.len(),
            s@ == chars@.subrange(0, i as int),
        decreases chars.len() - i,
    {
        push_char(&mut s, chars[i]);
        i = i + 1;
        assert(s@ =~= chars@.subrange(0, i as int));
    }
    assert(chars@.subrange(0, chars@.len() as int) =~= chars@);
    s
}

/// The ASCII digit for a value below ten.
pub open spec fn digit_char(d: int) -> char {
    if d == 0 {
        '0'
    } else if d == 1 {
        '1'
    } else if d == 2 {
        '2'
    } else if d == 3 {
        '3'
    } else if d == 4 {
        '4'
    } else if d == 5 {
        '5'
    } else if d == 6 {
        '6'
    } else if d == 7 {
        '7'
    } else if d == 8 {
        '8'
    } else {
        '9'
    }
}

/// The decimal notation of a natural number, without leading zeros.
pub open spec fn decimal(n: nat) -> Seq<char>
    decreases n,
{
    if n < 10 {
        seq![digit_char(n as int)]
    } else {
        decimal(n / 10).push(digit_char((n % 10) as int))
    }
}

fn digit(d: u32) -> (c: char)
    requires
        d < 10,
    ensures
        c == digit_char(d as int),
{
    if d == 0 {
        '0'
    } else if d == 1 {
        '1'
    } else if d == 2 {
        '2'
    } else if d == 3 {
        '3'
    } else if d == 4 {
        '4'
    } else if d == 5 {
        '5'
    } else if d == 6 {
        '6'
    } else if d == 7 {
        '7'
    } else if d == 8 {
        '8'
    } else {
        '9'
    }
}

/// The decimal notation of `n`, as `n.to_string()` writes it.
pub fn decimal_string(n: u32) -> (s: String)
    ensures
        s@ == decimal(n as nat),
{
    let mut rest: u32 = n;
    let mut acc: Vec<char> = Vec::new();
    while rest >= 10
        invariant
            decimal(n as nat) == decimal(rest as nat) + acc@,
        decreases rest,
    {
        let d = digit(rest % 10);
        acc.insert(0, d);
        assert(decimal(rest as nat) == decimal((rest / 10) as nat).push(d));
        rest = rest / 10;
        assert(decimal(n as nat) =~= decimal(rest as nat) + acc@);
    }
    acc.insert(0, digit(rest));
    assert(decimal(n as nat) =~= acc@);
    string_of(&acc)
}

/// The text with every `{}` placeholder, taken from left to right, replaced by
/// `value`.
pub open spec fn fill_placeholder(text: Seq<char>, value: Seq<char>) -> Seq<char>
    decreases text.len(),
{
    if text.len() < 2 {
        text
    } else if text[0] == '{' && text[1] == '}' {
        value + fill_placeholder(text.skip(2), value)
    } else {
        seq![text[0]] + fill_placeholder(text.skip(1), value)
    }
}

/// Replaces every `{}` in `text` by `value` (as `text.replace("{}", value)`).
pub fn fill_placeholder_text(text: &str, value: &str) -> (r: String)
    ensures
        r@ == fill_placeholder(text@, value@),
{
    let chars = chars_of(text);
    let vals = chars_of(value);
    let n = chars.len();
    let mut out: Vec<char> = Vec::new();
    let mut i: usize = 0;
    assert(text@.skip(0) =~= text@);
    assert(out@ + text@ =~= text@);
    while i < n
        invariant
            n == chars@.len(),
            chars@ == text@,
            vals@ == value@,
            i <= n,
            fill_placeholder(text@, value@) == out@ + fill_placeholder(text@.skip(i as int), value@),
        decreases n - i,
    {
        let ghost rest = text@.skip(i as int);
        if i + 1 < n && chars[i] == '{' && chars[i + 1] == '}' {
            assert(rest[0] == '{' && rest[1] == '}');
            assert(rest.skip(2) =~= text@.skip(i + 2));
            let mut k: usize = 0;
            let ghost before = out@;
            while k < vals.len()
                invariant
                    k <= vals@.len(),
                    out@ == before + vals@.subrange(0, k as int),
                decreases vals.len() - k,
            {
                out.push(vals[k]);
                k = k + 1;
                assert(out@ =~= before + vals@.subrange(0, k as int));
            }
            assert(vals@.subrange(0, vals@.len() as int) =~= vals@);
            assert(out@ == before + value@);
            i = i + 2;
            assert(fill_placeholder(text@, value@) =~= out@ + fill_placeholder(
                text@.skip(i as int),
                value@,
            ));
        } else {
            let c = chars[i];
            assert(rest[0] == c);
            proof {
                if rest.len() < 2 {
                    assert(text@.skip(i + 1) =~= Seq::<char>::empty());
                    assert(rest =~= seq![c] + text@.skip(i + 1));
                } else {
                    assert(rest.skip(1) =~= text@.skip(i + 1));
                }
            }
            out.push(c);
            i = i + 1;
            assert(fill_placeholder(text@, value@) =~= out@ + fill_placeholder(
                text@.skip(i as int),
                value@,
            ));
        }
    }
    assert(text@.skip(n as int) =~= Seq::<char>::empty());
    assert(out@ =~= fill_placeholder(text@, value@));
    string_of(&out)
}

/// The value of a string of decimal digits.
pub open spec fn digits_value(s: Seq<char>) -> int
    decreases s.len(),
{
    if s.len() == 0 {
        0
    } else {
        digits_value(s.drop_last()) * 10 + ((s.last() as u32) - 48)
    }
}

/// The number of decimal digits of `n` (one for zero).
pub open spec fn digit_count(n: nat) -> nat
    decreases n,
{
    if n < 10 {
        1
    } else {
        1 + digit_count(n / 10)
    }
}

proof fn lemma_digit_char_value(d: int)
    requires
        0 <= d < 10,
    ensures
        '0' <= digit_char(d) <= '9',
        (digit_char(d) as u32) - 48 == d,
        d != 0 ==> digit_char(d) != '0',
{
}

/// `decimal(n)` is the decimal numeral of `n`: it holds only the digits
/// `0`..`9`, reads back as `n`, has no leading zero (it is `0` only for zero)
/// and has as many digits as `n` has.
pub proof fn lemma_decimal_is_numeral(n: nat)
    ensures
        forall|i: int| 0 <= i < decimal(n).len() ==> '0' <= #[trigger] decimal(n)[i] <= '9',
        digits_value(decimal(n)) == n,
        decimal(n).len() == digit_count(n),
        decimal(n)[0] == '0' ==> n == 0,
    decreases n,
{
    if n < 10 {
        lemma_digit_char_value(n as int);
        let d = decimal(n);
        assert(d.drop_last() =~= Seq::<char>::empty());
        assert(digits_value(d.drop_last()) == 0);
    } else {
        lemma_decimal_is_numeral(n / 10);
        lemma_digit_char_value((n % 10) as int);
        let prefix = decimal(n / 10);
        let d = decimal(n);
        assert(d == prefix.push(digit_char((n % 10) as int)));
        assert(d.drop_last() =~= prefix);
        assert(n == (n / 10) * 10 + n % 10);
        assert forall|i: int| 0 <= i < d.len() implies '0' <= #[trigger] d[i] <= '9' by {
            if i < prefix.len() {
                assert(d[i] == prefix[i]);
            }
        }
        assert(d[0] == prefix[0]);
    }
}

} // verus!
