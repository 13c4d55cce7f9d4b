//! Decimal text of integers, parsing of unsigned decimal settings, and small
//! string helpers shared by the formatting modules.

use vstd::prelude::*;

verus! {

/// The ASCII digit for `d` (meaningful for `d < 10`).
pub open spec fn digit_char(d: nat) -> char {
    if d == 0 { '0' }
    else if d == 1 { '1' }
    else if d == 2 { '2' }
    else if d == 3 { '3' }
    else if d == 4 { '4' }
    else if d == 5 { '5' }
    else if d == 6 { '6' }
    else if d == 7 { '7' }
    else if d == 8 { '8' }
    else { '9' }
}

/// The shortest decimal digits of `n`, most significant first.
pub open spec fn nat_digits(n: nat) -> Seq<char>
    decreases n,
{
    if n < 10 {
        seq![digit_char(n)]
    } else {
        nat_digits(n / 10).push(digit_char(n % 10))
    }
}

/// The decimal text of an integer, with a leading `-` when it is negative
/// (what `to_string` gives for Rust's integer types).
pub open spec fn int_text(n: int) -> Seq<char> {
    if n < 0 {
        seq!['-'] + nat_digits((-n) as nat)
    } else {
        nat_digits(n as nat)
    }
}

/// `String::push` appends one character at the end of the string.
#[verifier::external_body]
pub(crate) fn push_char(s: &mut String, c: char)
    ensures
        final(s)@ == old(s)@.push(c),
{
    s.push(c);
}

fn digit(d: u64) -> (c: char)
    requires
        d < 10,
    ensures
        c == digit_char(d as nat),
{
    if d == 0 { '0' }
    else if d == 1 { '1' }
    else if d == 2 { '2' }
    else if d == 3 { '3' }
    else if d == 4 { '4' }
    else if d == 5 { '5' }
    else if d == 6 { '6' }
    else if d == 7 { '7' }
    else if d == 8 { '8' }
    else { '9' }
}

/// Appends the decimal digits of `n` to `out`.
pub fn push_digits(out: &mut String, n: u64)
    ensures
        final(out)@ == old(out)@ + nat_digits(n as nat),
    decreases n,
{
    if n >= 10 {
        push_digits(out, n / 10);
    }
    push_char(out, digit(n % 10));
    assert(out@ =~= old(out)@ + nat_digits(n as nat));
}


/// Appends the decimal text of `n` to `out` (a `-` first when `n` is negative).
pub fn push_int(out: &mut String, n: i64)
    ensures
        final(out)@ == old(out)@ + int_text(n as int),
{
    if n < 0 {
        push_char(out, '-');
        let magnitude: u64 = (0i128 - (n as i128)) as u64;
        push_digits(out, magnitude);
        assert(out@ =~= old(out)@ + int_text(n as int));
    } else {
        push_digits(out, n as u64);
    }
}

/// The decimal text of a signed integer, as `i64::to_string` gives it.
pub fn i64_text(n: i64) -> (r: String)
    ensures
        r@ == int_text(n as int),
{
    let mut out = String::new();
    push_int(&mut out, n);
    assert(out@ =~= int_text(n as int));
    out
}

/// The decimal text of an unsigned integer, as `u64::to_string` gives it.
pub fn u64_text(n: u64) -> (r: String)
    ensures
        r@ == nat_digits(n as nat),
{
    let mut out = String::new();
    push_digits(&mut out, n);
    assert(out@ =~= nat_digits(n as nat));
    out
}

/// An ASCII decimal digit.
pub open spec fn is_digit(c: char) -> bool {
    '0' <= c && c <= '9'
}

/// The value of an ASCII decimal digit.
pub open spec fn digit_value(c: char) -> nat {
    (c as int - '0' as int) as nat
}

/// The value of a run of decimal digits, most significant first (0 when empty).
pub open spec fn digits_value(s: Seq<char>) -> nat
    decreases s.len(),
{
    if s.len() == 0 {
        0
    } else {
        digits_value(s.drop_last()) * 10 + digit_value(s.last())
    }
}

/// Every character of `s` is an ASCII decimal digit.
pub open spec fn all_digits(s: Seq<char>) -> bool {
    forall|i: int| 0 <= i < s.len() ==> is_digit(#[trigger] s[i])
}

/// The text after one optional leading `+`.
pub open spec fn unsigned_body(s: Seq<char>) -> Seq<char> {
    if s.len() > 0 && s[0] == '+' {
        s.drop_first()
    } else {
        s
    }
}

/// What `str::parse` gives for an unsigned integer type whose largest value is
/// `max`: an optional `+`, then at least one ASCII digit and nothing else, and a
/// value no larger than `max`; `None` for any other text.
pub open spec fn parse_unsigned_spec(s: Seq<char>, max: nat) -> Option<nat> {
    let d = unsigned_body(s);
    if d.len() > 0 && all_digits(d) && digits_value(d) <= max {
        Some(digits_value(d))
    } else {
        None
    }
}

proof fn lemma_digits_value_monotone(s: Seq<char>, j: int, k: int)
    requires
        0 <= j <= k <= s.len(),
    ensures
        digits_value(s.subrange(0, j)) <= digits_value(s.subrange(0, k)),
    decreases k - j,
{
    if j < k {
        lemma_digits_value_monotone(s, j, k - 1);
        assert(s.subrange(0, k).drop_last() =~= s.subrange(0, k - 1));
    }
}

fn char_digit(c: char) -> (r: Option<u64>)
    ensures
        r is Some <==> is_digit(c),
        r matches Some(v) ==> v == digit_value(c) && v < 10,
{
    if '0' <= c && c <= '9' {
        Some(((c as u32) - ('0' as u32)) as u64)
    } else {
        None
    }
}

/// Parses an unsigned decimal number no larger than `max`, as `str::parse`
/// does for the unsigned integer type whose largest value is `max`.
pub fn parse_unsigned(s: &str, max: u64) -> (r: Option<u64>)
    ensures
        r matches Some(v) ==> parse_unsigned_spec(s@, max as nat) == Some(v as nat),
        r is None ==> parse_unsigned_spec(s@, max as nat) is None,
{
    let len = s.unicode_len();
    if len == 0 {
        return None;
    }
    let mut i: usize = 0;
    if s.get_char(0) == '+' {
        i = 1;
    }
    let start = i;
    let ghost body = unsigned_body(s@);
    assert(body =~= s@.subrange(start as int, len as int));
    if i == len {
        return None;
    }
    let mut acc: u64 = 0;
    while i < len
        invariant
            start <= i <= len,
            len == s@.len(),
            body == s@.subrange(start as int, len as int),
            body == unsigned_body(s@),
            body.len() > 0,
            all_digits(body.subrange(0, i - start)),
            acc as nat == digits_value(body.subrange(0, i - start)),
            acc <= max,
        decreases len - i,
    {
        let c = s.get_char(i);
        assert(c == body[i - start]);
        let prefix = Ghost(body.subrange(0, i - start));
        assert(body.subrange(0, i - start + 1).drop_last() =~= prefix@);
        match char_digit(c) {
            None => {
                assert(!is_digit(body[i - start]));
                assert(!all_digits(body));
                return None;
            },
            Some(dv) => {
                if dv > max || acc > (max - dv) / 10 {
                    assert(acc * 10 + dv > max) by (nonlinear_arith)
                        requires
                            dv > max || acc > (max - dv) / 10,
                            acc >= 0,
                    {
                    }
                    assert(digits_value(body.subrange(0, i - start + 1)) == acc * 10 + dv);
                    proof {
                        lemma_digits_value_monotone(body, i - start + 1, body.len() as int);
                        assert(body.subrange(0, body.len() as int) =~= body);
                    }
                    return None;
                }
                assert(acc * 10 + dv <= max) by (nonlinear_arith)
                    requires
                        acc <= (max - dv) / 10,
                        dv <= max,
                {
                }
                acc = acc * 10 + dv;
                proof {
                    assert forall|k: int| 0 <= k < i - start + 1 implies is_digit(
                        #[trigger] body.subrange(0, i - start + 1)[k],
                    ) by {
                        if k < i - start {
                            assert(body.subrange(0, i - start + 1)[k] == prefix@[k]);
                        }
                    }
                }
                i = i + 1;
            },
        }
    }
    assert(body.subrange(0, len - start) =~= body);
    Some(acc)
}

proof fn lemma_digit_char_value(d: nat)
    requires
        d < 10,
    ensures
        is_digit(digit_char(d)),
        digit_value(digit_char(d)) == d,
{
}

proof fn lemma_nat_digits_value(n: nat)
    ensures
        nat_digits(n).len() > 0,
        all_digits(nat_digits(n)),
        digits_value(nat_digits(n)) == n,
    decreases n,
{
    lemma_digit_char_value(n % 10);
    assert(nat_digits(n).last() == digit_char(n % 10));
    if n >= 10 {
        lemma_nat_digits_value(n / 10);
        let p = nat_digits(n / 10);
        assert(nat_digits(n).drop_last() =~= p);
        assert forall|i: int| 0 <= i < nat_digits(n).len() implies is_digit(
            #[trigger] nat_digits(n)[i],
        ) by {
            if i < p.len() {
                assert(nat_digits(n)[i] == p[i]);
            }
        }
        assert(digits_value(nat_digits(n)) == digits_value(p) * 10 + n % 10);
        assert(n == (n / 10) * 10 + n % 10);
    } else {
        assert(nat_digits(n).drop_last() =~= Seq::<char>::empty());
        assert(digits_value(nat_digits(n)) == digits_value(Seq::<char>::empty()) * 10 + n % 10);
    }
}

/// Reading back the decimal text of a number gives the number: for every `n`
/// no larger than `max`, parsing the digits of `n` yields `n`.
pub proof fn lemma_parse_decimal_round_trip(n: nat, max: nat)
    requires
        n <= max,
    ensures
        parse_unsigned_spec(nat_digits(n), max) == Some(n),
{
    lemma_nat_digits_value(n);
    let s = nat_digits(n);
    assert(is_digit(s[0]));
    assert(unsigned_body(s) == s);
}


/// `needle` occurs somewhere in `hay`.
pub open spec fn contains_text(hay: Seq<char>, needle: Seq<char>) -> bool {
    exists|pre: Seq<char>, post: Seq<char>| #[trigger] (pre + needle + post) == hay
}

/// A text contains each of its middle pieces.
pub proof fn lemma_contains_middle(pre: Seq<char>, needle: Seq<char>, post: Seq<char>)
    ensures
        contains_text(pre + needle + post, needle),
{
    assert((pre + needle + post) == pre + needle + post);
}

/// Containment is transitive.
pub proof fn lemma_contains_trans(a: Seq<char>, b: Seq<char>, c: Seq<char>)
    requires
        contains_text(a, b),
        contains_text(b, c),
    ensures
        contains_text(a, c),
{
    let (p1, s1) = choose|pre: Seq<char>, post: Seq<char>| #[trigger] (pre + b + post) == a;
    let (p2, s2) = choose|pre: Seq<char>, post: Seq<char>| #[trigger] (pre + c + post) == b;
    assert(a =~= (p1 + p2) + c + (s2 + s1));
    lemma_contains_middle(p1 + p2, c, s2 + s1);
}

/// A text contains itself.
pub proof fn lemma_contains_refl(x: Seq<char>)
    ensures
        contains_text(x, x),
{
    lemma_contains_middle(Seq::empty(), x, Seq::empty());
    assert(Seq::<char>::empty() + x + Seq::<char>::empty() =~= x);
}

/// What a text contains, the text with more before it contains too.
pub proof fn lemma_contains_left(x: Seq<char>, y: Seq<char>, n: Seq<char>)
    requires
        contains_text(y, n),
    ensures
        contains_text(x + y, n),
{
    let (p, q) = choose|pre: Seq<char>, post: Seq<char>| #[trigger] (pre + n + post) == y;
    assert(x + y =~= (x + p) + n + q);
    lemma_contains_middle(x + p, n, q);
}

/// What a text contains, the text with more after it contains too.
pub proof fn lemma_contains_right(y: Seq<char>, x: Seq<char>, n: Seq<char>)
    requires
        contains_text(y, n),
    ensures
        contains_text(y + x, n),
{
    let (p, q) = choose|pre: Seq<char>, post: Seq<char>| #[trigger] (pre + n + post) == y;
    assert(y + x =~= p + n + (q + x));
    lemma_contains_middle(p, n, q + x);
}

/// `first` occurs in `hay` before `second`, the two not overlapping.
pub open spec fn occurs_before(hay: Seq<char>, first: Seq<char>, second: Seq<char>) -> bool {
    exists|pre: Seq<char>, mid: Seq<char>, post: Seq<char>|
        #[trigger] (pre + first + mid + second + post) == hay
}

/// Order inside a piece of a text holds in the whole text.
pub proof fn lemma_occurs_before_in(a: Seq<char>, b: Seq<char>, x: Seq<char>, y: Seq<char>)
    requires
        contains_text(a, b),
        occurs_before(b, x, y),
    ensures
        occurs_before(a, x, y),
{
    let (p1, s1) = choose|pre: Seq<char>, post: Seq<char>| #[trigger] (pre + b + post) == a;
    let (p2, m2, s2) = choose|pre: Seq<char>, mid: Seq<char>, post: Seq<char>|
        #[trigger] (pre + x + mid + y + post) == b;
    assert(a =~= (p1 + p2) + x + m2 + y + (s2 + s1));
    assert(((p1 + p2) + x + m2 + y + (s2 + s1)) == a);
}

/// Whether two texts hold the same characters.
pub fn text_eq(a: &str, b: &str) -> (r: bool)
    ensures
        r == (a@ == b@),
{
    let n = a.unicode_len();
    if n != b.unicode_len() {
        return false;
    }
    let mut i: usize = 0;
    while i < n
        invariant
            i <= n,
            n == a@.len(),
            n == b@.len(),
            forall|k: int| 0 <= k < i ==> a@[k] == b@[k],
        decreases n - i,
    {
        if a.get_char(i) != b.get_char(i) {
            return false;
        }
        i = i + 1;
    }
    assert(a@ =~= b@);
    true
}

/// Whether `s` begins with the characters of `prefix`.
pub fn starts_with(s: &str, prefix: &str) -> (r: bool)
    ensures
        r == (prefix@.len() <= s@.len() && s@.subrange(0, prefix@.len() as int) == prefix@),
{
    let n = prefix.unicode_len();
    if n > s.unicode_len() {
        return false;
    }
    let mut i: usize = 0;
    while i < n
        invariant
            i <= n,
            n == prefix@.len(),
            n <= s@.len(),
            forall|k: int| 0 <= k < i ==> s@[k] == prefix@[k],
        decreases n - i,
    {
        if s.get_char(i) != prefix.get_char(i) {
            assert(s@.subrange(0, n as int)[i as int] != prefix@[i as int]);
            return false;
        }
        i = i + 1;
    }
    assert(s@.subrange(0, n as int) =~= prefix@);
    true
}

/// The decimal text of a count, as `usize::to_string` gives it.
pub fn usize_text(n: usize) -> (r: String)
    ensures
        r@ == nat_digits(n as nat),
{
    u64_text(n as u64)
}

} // verus!
