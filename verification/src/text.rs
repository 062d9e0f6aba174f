use vstd::prelude::*;
use vstd::string::*;

verus! {

/// Appends one character to the end of a string (std's `String::push`).
#[verifier::external_body]
pub(crate) fn push_char(s: &mut String, c: char)
    ensures
        final(s)@ == old(s)@.push(c),
{
    s.push(c);
}

/// The characters of a string, in order.
pub fn chars_of(s: &str) -> (v: Vec<char>)
    ensures
        v@ == s@,
{
    let n: usize = s.unicode_len();
    let mut v: Vec<char> = Vec::new();
    let mut i: usize = 0;
    while i < n
        invariant
            n == s@.len(),
            i <= n,
            v@ == s@.subrange(0, i as int),
        decreases n - i,
    {
        v.push(s.get_char(i));
        i = i + 1;
    }
    v
}

/// `needle` occurs in `hay` starting at position `i`.
pub open spec fn occurs_at(hay: Seq<char>, needle: Seq<char>, i: int) -> bool {
    &&& 0 <= i
    &&& i + needle.len() <= hay.len()
    &&& hay.subrange(i, i + needle.len()) == needle
}

/// `needle` occurs somewhere in `hay` (the empty needle occurs everywhere).
pub open spec fn spec_contains(hay: Seq<char>, needle: Seq<char>) -> bool {
    exists|i: int| occurs_at(hay, needle, i)
}

/// `prefix` is a prefix of `s`.
pub open spec fn has_prefix(s: Seq<char>, prefix: Seq<char>) -> bool {
    prefix.len() <= s.len() && s.subrange(0, prefix.len() as int) == prefix
}

fn matches_at(hay: &Vec<char>, needle: &Vec<char>, i: usize) -> (res: bool)
    requires
        i + needle@.len() <= hay@.len(),
    ensures
        res == occurs_at(hay@, needle@, i as int),
{
    let hl: usize = hay.len();
    let mut j: usize = 0;
    while j < needle.len()
        invariant
            hl == hay@.len(),
            i + needle@.len() <= hay@.len(),
            j <= needle@.len(),
            forall|k: int| 0 <= k < j ==> hay@[i + k] == needle@[k],
        decreases needle@.len() - j,
    {
        if hay[i + j] != needle[j] {
            assert(hay@.subrange(i as int, i + needle@.len())[j as int] != needle@[j as int]);
            return false;
        }
        j = j + 1;
    }
    assert(hay@.subrange(i as int, i + needle@.len()) =~= needle@);
    true
}

/// Substring search: does `needle` occur in `hay`?
pub fn contains(hay: &str, needle: &str) -> (res: bool)
    ensures
        res == spec_contains(hay@, needle@),
{
    let h = chars_of(hay);
    let n = chars_of(needle);
    if n.len() > h.len() {
        assert forall|i: int| !occurs_at(hay@, needle@, i) by {}
        return false;
    }
    if n.len() == 0 {
        assert(hay@.subrange(0, 0) =~= needle@);
        assert(occurs_at(hay@, needle@, 0));
        return true;
    }
    let last: usize = h.len() - n.len();
    let mut i: usize = 0;
    while i <= last
        invariant
            h@ == hay@,
            n@ == needle@,
            last == h@.len() - n@.len(),
            last < h@.len(),
            h@.len() == h.len(),
            i <= last + 1,
            forall|k: int| 0 <= k < i ==> !occurs_at(hay@, needle@, k),
        decreases last + 1 - i,
    {
        if matches_at(&h, &n, i) {
            return true;
        }
        i = i + 1;
    }
    assert forall|k: int| !occurs_at(hay@, needle@, k) by {
        if 0 <= k && k <= last {
        }
    }
    false
}

/// The rest of `s` after `prefix`, when `s` starts with `prefix`.
pub fn strip_prefix<'a>(s: &'a str, prefix: &str) -> (res: Option<&'a str>)
    ensures
        res is Some <==> has_prefix(s@, prefix@),
        res matches Some(rest) ==> rest@ == s@.skip(prefix@.len() as int),
{
    let sc = chars_of(s);
    let pc = chars_of(prefix);
    if pc.len() > sc.len() {
        return None;
    }
    if !matches_at(&sc, &pc, 0) {
        return None;
    }
    Some(s.substring_char(pc.len(), sc.len()))
}

/// ASCII-only lowercase of one character.
pub open spec fn ascii_lower(c: char) -> char {
    if 'A' <= c && c <= 'Z' {
        ((c as u32) + 32) as char
    } else {
        c
    }
}

/// Equality of two texts when ASCII letters are compared without case.
pub open spec fn spec_eq_ignore_ascii_case(a: Seq<char>, b: Seq<char>) -> bool {
    a.len() == b.len() && forall|i: int| 0 <= i < a.len() ==> ascii_lower(a[i]) == ascii_lower(b[i])
}

fn char_eq_ignore_ascii_case(x: char, y: char) -> (res: bool)
    ensures
        res == (ascii_lower(x) == ascii_lower(y)),
{
    let xu = 'A' <= x && x <= 'Z';
    let yu = 'A' <= y && y <= 'Z';
    let xv: u32 = if xu { x as u32 + 32 } else { x as u32 };
    let yv: u32 = if yu { y as u32 + 32 } else { y as u32 };
    assert(xv == ascii_lower(x) as u32);
    assert(yv == ascii_lower(y) as u32);
    xv == yv
}

/// Compares two strings, ignoring the case of ASCII letters.
pub fn eq_ignore_ascii_case(a: &str, b: &str) -> (res: bool)
    ensures
        res == spec_eq_ignore_ascii_case(a@, b@),
{
    let ac = chars_of(a);
    let bc = chars_of(b);
    if ac.len() != bc.len() {
        return false;
    }
    let mut i: usize = 0;
    while i < ac.len()
        invariant
            ac@ == a@,
            bc@ == b@,
            ac@.len() == bc@.len(),
            i <= ac@.len(),
            forall|k: int| 0 <= k < i ==> ascii_lower(a@[k]) == ascii_lower(b@[k]),
        decreases ac@.len() - i,
    {
        if !char_eq_ignore_ascii_case(ac[i], bc[i]) {
            return false;
        }
        i = i + 1;
    }
    true
}

/// The decimal digit character for `d` in `0..10`.
pub open spec fn digit_char(d: int) -> char {
    if d == 0 { '0' } else if d == 1 { '1' } else if d == 2 { '2' } else if d == 3 { '3' }
    else if d == 4 { '4' } else if d == 5 { '5' } else if d == 6 { '6' } else if d == 7 { '7' }
    else if d == 8 { '8' } else { '9' }
}

/// Decimal notation of a natural number, without leading zeros.
pub open spec fn nat_decimal(n: nat) -> Seq<char>
    decreases n,
{
    if n < 10 {
        seq![digit_char(n as int)]
    } else {
        nat_decimal(n / 10).push(digit_char((n % 10) as int))
    }
}

/// Decimal notation of an integer, as Rust's `Display` writes it.
pub open spec fn int_decimal(n: int) -> Seq<char> {
    if n < 0 {
        seq!['-'] + nat_decimal((-n) as nat)
    } else {
        nat_decimal(n as nat)
    }
}

fn digit_to_char(d: u64) -> (c: char)
    requires
        d < 10,
    ensures
        c == digit_char(d as int),
{
    if d == 0 { '0' } else if d == 1 { '1' } else if d == 2 { '2' } else if d == 3 { '3' }
    else if d == 4 { '4' } else if d == 5 { '5' } else if d == 6 { '6' } else if d == 7 { '7' }
    else if d == 8 { '8' } else { '9' }
}

fn write_decimal(n: u64, out: &mut String)
    ensures
        final(out)@ == old(out)@ + nat_decimal(n as nat),
    decreases n,
{
    if n >= 10 {
        write_decimal(n / 10, out);
    }
    push_char(out, digit_to_char(n % 10));
    assert(final(out)@ =~= old(out)@ + nat_decimal(n as nat));
}

/// Appends the decimal notation of `n` to `out`.
pub fn push_i64(out: &mut String, n: i64)
    ensures
        final(out)@ == old(out)@ + int_decimal(n as int),
{
    if n < 0 {
        push_char(out, '-');
        let magnitude: u64 = (0i128 - n as i128) as u64;
        write_decimal(magnitude, out);
        assert(final(out)@ =~= old(out)@ + int_decimal(n as int));
    } else {
        write_decimal(n as u64, out);
    }
}

/// `c` is one of the ASCII digits `0` to `9`.
pub open spec fn is_digit(c: char) -> bool {
    '0' <= c && c <= '9'
}

/// Every character of `s` is an ASCII digit.
pub open spec fn all_digits(s: Seq<char>) -> bool {
    forall|i: int| 0 <= i < s.len() ==> is_digit(#[trigger] s[i])
}

/// The number that a run of decimal digits denotes.
pub open spec fn digits_value(s: Seq<char>) -> int
    decreases s.len(),
{
    if s.len() == 0 {
        0
    } else {
        10 * digits_value(s.drop_last()) + (s.last() as int - '0' as int)
    }
}

/// What `str::parse::<u16>` accepts: an optional `+`, then one or more
/// ASCII digits whose value fits in a `u16`.
pub open spec fn spec_parse_u16(s: Seq<char>) -> Option<u16> {
    let body = if s.len() > 0 && s[0] == '+' { s.drop_first() } else { s };
    if body.len() > 0 && all_digits(body) && digits_value(body) <= u16::MAX {
        Some(digits_value(body) as u16)
    } else {
        None
    }
}

proof fn lemma_digits_value_nonneg(s: Seq<char>)
    requires
        all_digits(s),
    ensures
        digits_value(s) >= 0,
    decreases s.len(),
{
    if s.len() > 0 {
        assert(all_digits(s.drop_last()));
        lemma_digits_value_nonneg(s.drop_last());
        assert(is_digit(s[s.len() - 1]));
    }
}

proof fn lemma_digits_value_prefix(s: Seq<char>, k: int)
    requires
        all_digits(s),
        0 <= k <= s.len(),
    ensures
        digits_value(s.take(k)) <= digits_value(s),
    decreases s.len(),
{
    if k < s.len() {
        let t = s.drop_last();
        assert(all_digits(t));
        lemma_digits_value_prefix(t, k);
        assert(t.take(k) =~= s.take(k));
        lemma_digits_value_nonneg(t);
        assert(is_digit(s[s.len() - 1]));
    } else {
        assert(s.take(k) =~= s);
    }
}

/// Parses a port number the way `str::parse::<u16>` does.
pub fn parse_u16(s: &str) -> (res: Option<u16>)
    ensures
        res == spec_parse_u16(s@),
{
    let c = chars_of(s);
    let n: usize = c.len();
    let start: usize = if n > 0 && c[0] == '+' { 1 } else { 0 };
    let ghost body = if s@.len() > 0 && s@[0] == '+' { s@.drop_first() } else { s@ };
    assert(body =~= s@.skip(start as int));
    if start >= n {
        return None;
    }
    let mut acc: u32 = 0;
    let mut i: usize = start;
    while i < n
        invariant
            c@ == s@,
            n == c@.len(),
            start <= i <= n,
            body =~= s@.skip(start as int),
            body == (if s@.len() > 0 && s@[0] == '+' { s@.drop_first() } else { s@ }),
            all_digits(body.take(i - start)),
            acc as int == digits_value(body.take(i - start)),
            acc <= u16::MAX,
        decreases n - i,
    {
        let ch = c[i];
        if !('0' <= ch && ch <= '9') {
            assert(body[i - start] == ch);
            assert(!is_digit(body[i - start]));
            assert(!all_digits(body));
            return None;
        }
        let d: u32 = ch as u32 - '0' as u32;
        let ghost prev = body.take(i - start);
        let ghost next = body.take(i + 1 - start);
        assert(next.drop_last() =~= prev);
        assert(next.last() == ch);
        assert forall|k: int| 0 <= k < next.len() implies is_digit(#[trigger] next[k]) by {
            if k < prev.len() {
                assert(next[k] == prev[k]);
            }
        }
        let value: u32 = acc * 10 + d;
        assert(digits_value(next) == 10 * digits_value(prev) + (ch as int - '0' as int));
        assert(value as int == digits_value(next));
        if value > 65535 {
            proof {
                if all_digits(body) {
                    lemma_digits_value_prefix(body, i + 1 - start);
                }
            }
            return None;
        }
        acc = value;
        i = i + 1;
    }
    assert(body.take(n - start) =~= body);
    Some(acc as u16)
}

proof fn lemma_nat_decimal_digits(n: nat)
    ensures
        all_digits(nat_decimal(n)),
        digits_value(nat_decimal(n)) == n,
        nat_decimal(n).len() > 0,
    decreases n,
{
    let d = nat_decimal(n);
    if n < 10 {
        assert(d.drop_last() =~= Seq::<char>::empty());
        assert(digits_value(Seq::<char>::empty()) == 0);
    } else {
        lemma_nat_decimal_digits(n / 10);
        let p = nat_decimal(n / 10);
        assert(d.drop_last() =~= p);
        assert forall|i: int| 0 <= i < d.len() implies is_digit(#[trigger] d[i]) by {
            if i < p.len() {
                assert(d[i] == p[i]);
            }
        }
    }
}

/// A port written in decimal reads back as the same port.
pub proof fn law_port_decimal_round_trip(port: u16)
    ensures
        spec_parse_u16(nat_decimal(port as nat)) == Some(port),
{
    lemma_nat_decimal_digits(port as nat);
    let d = nat_decimal(port as nat);
    if d.len() > 0 && d[0] == '+' {
        assert(is_digit(d[0]));
    }
}

/// A leading minus sign is never a port, nor is the empty text or a lone
/// plus sign.
pub proof fn law_signed_or_empty_is_no_port(s: Seq<char>)
    ensures
        s.len() > 0 && s[0] == '-' ==> spec_parse_u16(s) is None,
        s.len() == 0 ==> spec_parse_u16(s) is None,
        s == seq!['+'] ==> spec_parse_u16(s) is None,
{
    if s.len() > 0 && s[0] == '-' {
        assert(!is_digit(s[0]));
    }
    if s == seq!['+'] {
        assert(s.drop_first().len() == 0);
    }
}

/// Text placed inside other text is found there, and nothing longer than
/// the text is found in it.
pub proof fn law_contains_what_was_put_in(before: Seq<char>, needle: Seq<char>, after: Seq<char>, hay: Seq<char>)
    ensures
        spec_contains(before + needle + after, needle),
        spec_contains(hay, needle) ==> needle.len() <= hay.len(),
{
    let h = before + needle + after;
    assert(h.subrange(before.len() as int, (before.len() + needle.len()) as int) =~= needle);
    assert(occurs_at(h, needle, before.len() as int));
}

/// Comparing without ASCII case is reflexive and symmetric, and ignores the
/// case of ASCII letters only.
pub proof fn law_eq_ignore_ascii_case(a: Seq<char>, b: Seq<char>)
    ensures
        spec_eq_ignore_ascii_case(a, a),
        spec_eq_ignore_ascii_case(a, b) == spec_eq_ignore_ascii_case(b, a),
        spec_eq_ignore_ascii_case(a, b) ==> a.len() == b.len(),
        ascii_lower('A') == 'a' && ascii_lower('Z') == 'z' && ascii_lower('a') == 'a' && ascii_lower('1') == '1',
{
    assert('A' as u32 == 65);
}

} // verus!
