//! Small string utilities shared by the other modules.

use vstd::prelude::*;

verus! {

/// Decimal digit character for `d` (`d < 10`).
pub open spec fn digit_char(d: nat) -> char {
    (('0' as u32) + d) as char
}

/// The decimal representation of `n`, as `u64::to_string` prints it.
pub open spec fn decimal(n: nat) -> Seq<char>
    decreases n,
{
    if n < 10 {
        seq![digit_char(n)]
    } else {
        decimal(n / 10).push(digit_char(n % 10))
    }
}

/// Appends one character to a string (`String::push`).
#[verifier::external_body]
pub(crate) fn push_char(s: &mut String, c: char)
    ensures
        final(s)@ == old(s)@.push(c),
{
    s.push(c);
}

/// Builds a string out of the characters of `chars`, in order.
pub fn string_from_chars(chars: &Vec<char>) -> (res: String)
    ensures
        res@ == chars@,
{
    let mut res = String::new();
    let mut i: usize = 0;
    while i < chars.len()
        invariant
            i <= chars.len(),
            res@ == chars@.subrange(0, i as int),
        decreases chars.len() - i,
    {
        push_char(&mut res, chars[i]);
        i = i + 1;
        assert(res@ =~= chars@.subrange(0, i as int));
    }
    assert(res@ =~= chars@);
    res
}

/// The characters of `s`, in order.
pub fn chars_of(s: &str) -> (res: Vec<char>)
    ensures
        res@ == s@,
{
    let mut res: Vec<char> = Vec::new();
    let n = s.unicode_len();
    let mut i: usize = 0;
    while i < n
        invariant
            n == s@.len(),
            i <= n,
            res@ == s@.subrange(0, i as int),
        decreases n - i,
    {
        res.push(s.get_char(i));
        i = i + 1;
        assert(res@ =~= s@.subrange(0, i as int));
    }
    assert(res@ =~= s@);
    res
}

/// The decimal representation of `n`.
pub fn decimal_string(n: u64) -> (res: String)
    ensures
        res@ == decimal(n as nat),
{
    // digits collected least significant first
    let mut rev: Vec<char> = Vec::new();
    let mut m: u64 = n;
    while m >= 10
        invariant
            decimal(n as nat) == decimal(m as nat) + rev@.reverse(),
        decreases m,
    {
        let c = char_of_digit(m % 10);
        let ghost old_rev = rev@;
        rev.push(c);
        assert(rev@.reverse() =~= seq![c] + old_rev.reverse());
        assert(decimal(m as nat) == decimal((m / 10) as nat).push(digit_char((m % 10) as nat)));
        m = m / 10;
        assert(decimal(n as nat) =~= decimal(m as nat) + rev@.reverse());
    }
    let ghost before = rev@;
    rev.push(char_of_digit(m));
    assert(rev@.reverse() =~= seq![digit_char(m as nat)] + before.reverse());
    assert(decimal(n as nat) =~= rev@.reverse());
    let mut out: Vec<char> = Vec::new();
    let mut k: usize = rev.len();
    while k > 0
        invariant
            k <= rev.len(),
            out@ == rev@.reverse().subrange(0, (rev.len() - k) as int),
        decreases k,
    {
        k = k - 1;
        out.push(rev[k]);
        assert(out@ =~= rev@.reverse().subrange(0, (rev.len() - k) as int));
    }
    assert(out@ =~= rev@.reverse());
    string_from_chars(&out)
}

/// The digit character of `d` (`d < 10`).
pub fn char_of_digit(d: u64) -> (c: char)
    requires
        d < 10,
    ensures
        c == digit_char(d as nat),
{
    match d {
        0 => '0',
        1 => '1',
        2 => '2',
        3 => '3',
        4 => '4',
        5 => '5',
        6 => '6',
        7 => '7',
        8 => '8',
        _ => '9',
    }
}

/// `a` followed by `b`.
pub fn concat_str(a: &str, b: &str) -> (res: String)
    ensures
        res@ == a@ + b@,
{
    let mut res = String::from_str(a);
    res.append(b);
    res
}

} // verus!

verus! {

/// Whether `a` and `b` are the same text.
pub fn same_text(a: &str, b: &str) -> (res: bool)
    ensures
        res == (a@ == b@),
{
    String::from_str(a) == String::from_str(b)
}

/// The one-character string `c`.
pub fn char_string(c: char) -> (res: String)
    ensures
        res@ == seq![c],
{
    let mut s = String::new();
    push_char(&mut s, c);
    assert(s@ =~= seq![c]);
    s
}

} // verus!

verus! {

/// The length in bytes of the UTF-8 encoding of `s`, as `str::len` reports
/// it.
pub open spec fn byte_len(s: Seq<char>) -> usize {
    vstd::utf8::encode_utf8(s).len() as usize
}

} // verus!

verus! {

/// The value of a string of decimal digits (leading zeros allowed).
pub open spec fn digits_value(s: Seq<char>) -> nat
    decreases s.len(),
{
    if s.len() == 0 {
        0
    } else {
        digits_value(s.drop_last()) * 10 + ((s.last() as u32) - ('0' as u32)) as nat
    }
}

/// Every character of `s` is a decimal digit.
pub open spec fn all_digits(s: Seq<char>) -> bool {
    forall|i: int| 0 <= i < s.len() ==> '0' <= #[trigger] s[i] <= '9'
}

/// The decimal text of a number is made of digits; it has at most five of
/// them below 100000.
pub proof fn lemma_decimal_digits(n: nat)
    ensures
        all_digits(decimal(n)),
        decimal(n).len() >= 1,
        n < 100000 ==> decimal(n).len() <= 5,
        n < 10000 ==> decimal(n).len() <= 4,
        n < 1000 ==> decimal(n).len() <= 3,
        n < 100 ==> decimal(n).len() <= 2,
    decreases n,
{
    if n >= 10 {
        lemma_decimal_digits(n / 10);
        let d = decimal(n / 10);
        assert forall|i: int| 0 <= i < decimal(n).len() implies '0' <= #[trigger] decimal(n)[i] <= '9' by {
            if i < d.len() {
                assert(decimal(n)[i] == d[i]);
            }
        }
    }
}

/// A string of `k` digits is worth less than `10^k`.
pub proof fn lemma_digits_value_bound(s: Seq<char>)
    requires
        all_digits(s),
    ensures
        s.len() <= 4 ==> digits_value(s) < 10000,
        s.len() <= 3 ==> digits_value(s) < 1000,
        s.len() <= 2 ==> digits_value(s) < 100,
        s.len() <= 1 ==> digits_value(s) < 10,
    decreases s.len(),
{
    if s.len() > 0 {
        let t = s.drop_last();
        assert(all_digits(t)) by {
            assert forall|i: int| 0 <= i < t.len() implies '0' <= #[trigger] t[i] <= '9' by {
                assert(t[i] == s[i]);
            }
        }
        lemma_digits_value_bound(t);
        assert('0' <= s[s.len() - 1] <= '9');
    }
}

} // verus!

verus! {

/// `t` occurs in `s` starting at position `i`.
pub open spec fn occurs_at(s: Seq<char>, t: Seq<char>, i: int) -> bool {
    0 <= i && i + t.len() <= s.len() && s.subrange(i, i + t.len()) == t
}

/// `t` occurs somewhere in `s` (`str::contains`).
pub open spec fn has_infix(s: Seq<char>, t: Seq<char>) -> bool {
    exists|i: int| occurs_at(s, t, i)
}

/// Whether `s[i..]` starts with `t`.
fn matches_at(s: &Vec<char>, t: &Vec<char>, i: usize) -> (res: bool)
    requires
        i + t@.len() <= s@.len(),
    ensures
        res == occurs_at(s@, t@, i as int),
{
    let mut j: usize = 0;
    while j < t.len()
        invariant
            j <= t@.len(),
            i + t@.len() <= s@.len(),
            forall|m: int| 0 <= m < j ==> s@[i + m] == t@[m],
        decreases t.len() - j,
    {
        assert(i + j < s.len());
        if s[i + j] != t[j] {
            assert(s@.subrange(i as int, i + t@.len())[j as int] != t@[j as int]);
            return false;
        }
        j = j + 1;
    }
    assert(s@.subrange(i as int, i + t@.len()) =~= t@);
    true
}

/// Whether `t` occurs in `s`.
pub fn contains_text(s: &str, t: &str) -> (res: bool)
    ensures
        res == has_infix(s@, t@),
{
    let sc = chars_of(s);
    let tc = chars_of(t);
    if tc.len() > sc.len() {
        return false;
    }
    let last = sc.len() - tc.len();
    let mut i: usize = 0;
    loop
        invariant
            last == sc@.len() - tc@.len(),
            i <= last,
            sc@ == s@,
            tc@ == t@,
            forall|k: int| 0 <= k < i ==> !occurs_at(s@, t@, k),
        decreases last - i,
    {
        if matches_at(&sc, &tc, i) {
            return true;
        }
        if i == last {
            assert forall|k: int| !occurs_at(s@, t@, k) by {
                if 0 <= k && k <= i {
                }
            }
            return false;
        }
        i = i + 1;
    }
}

} // verus!

verus! {

/// Whether `c` is a numeric character in Unicode's sense (general category
/// Nd, Nl or No), as `char::is_numeric` decides.
pub uninterp spec fn numeric_char(c: char) -> bool;

/// `char::is_numeric`. Its result is named `numeric_char`; the ASCII digits
/// are numeric, as its documentation shows.
#[verifier::external_body]
pub(crate) fn is_numeric(c: char) -> (res: bool)
    ensures
        res == numeric_char(c),
        '0' <= c <= '9' ==> res,
{
    c.is_numeric()
}

} // verus!

verus! {

/// Every character of `t` is ASCII.
pub open spec fn is_ascii_text(t: Seq<char>) -> bool {
    forall|i: int| 0 <= i < t.len() ==> (#[trigger] t[i] as u32) < 128
}

/// ASCII text takes one byte per character.
pub proof fn lemma_ascii_byte_len(t: Seq<char>)
    requires
        is_ascii_text(t),
        t.len() <= usize::MAX,
    ensures
        byte_len(t) == t.len(),
{
    lemma_ascii_encoded_len(t);
}

/// The UTF-8 encoding of ASCII text has one byte per character.
proof fn lemma_ascii_encoded_len(t: Seq<char>)
    requires
        is_ascii_text(t),
    ensures
        vstd::utf8::encode_utf8(t).len() == t.len(),
    decreases t.len(),
{
    if t.len() > 0 {
        let rest = t.drop_first();
        assert(is_ascii_text(rest)) by {
            assert forall|i: int| 0 <= i < rest.len() implies (#[trigger] rest[i] as u32) < 128 by {
                assert(rest[i] == t[i + 1]);
            }
        }
        lemma_ascii_encoded_len(rest);
        assert((t[0] as u32) < 128);
    }
}

} // verus!
