//! Character-level helpers on strings, with their meaning stated over `Seq<char>`.

use vstd::prelude::*;

verus! {

/// The characters of `s`, in order.
pub fn chars_of(s: &str) -> (res: Vec<char>)
    ensures
        res@ == s@,
{
    let mut res: Vec<char> = Vec::new();
    for c in it: s.chars()
        invariant
            res@ == it.seq().take(it.index() as int),
    {
        res.push(c);
    }
    res
}

/// std's `String::push`: appends one character to the string.
#[verifier::external_body]
fn push_char(s: &mut String, c: char)
    ensures
        final(s)@ == old(s)@.push(c),
{
    s.push(c);
}

/// The string made of `chars`, in order.
pub fn string_of(chars: &[char]) -> (res: String)
    ensures
        res@ == chars@,
{
    let mut res = String::new();
    let mut k: usize = 0;
    while k < chars.len()
        invariant
            k <= chars.len(),
            res@ == chars@.take(k as int),
        decreases chars.len() - k,
    {
        push_char(&mut res, chars[k]);
        k = k + 1;
        assert(chars@.take(k as int) =~= chars@.take(k - 1).push(chars@[k - 1]));
    }
    assert(chars@.take(k as int) =~= chars@);
    res
}

/// Unicode `White_Space`, the property that std's `char::is_whitespace` and `str::trim` use.
pub open spec fn is_white_space(c: char) -> bool {
    let v = c as u32;
    ||| 0x09 <= v <= 0x0d
    ||| v == 0x20
    ||| v == 0x85
    ||| v == 0xa0
    ||| v == 0x1680
    ||| 0x2000 <= v <= 0x200a
    ||| v == 0x2028
    ||| v == 0x2029
    ||| v == 0x202f
    ||| v == 0x205f
    ||| v == 0x3000
}

pub fn is_whitespace(c: char) -> (res: bool)
    ensures
        res == is_white_space(c),
{
    let v = c as u32;
    (0x09 <= v && v <= 0x0d) || v == 0x20 || v == 0x85 || v == 0xa0 || v == 0x1680 || (0x2000
        <= v && v <= 0x200a) || v == 0x2028 || v == 0x2029 || v == 0x202f || v == 0x205f || v
        == 0x3000
}

/// `s` without its leading white space.
pub open spec fn trim_start(s: Seq<char>) -> Seq<char>
    decreases s.len(),
{
    if s.len() > 0 && is_white_space(s[0]) {
        trim_start(s.drop_first())
    } else {
        s
    }
}

/// `s` without its trailing white space.
pub open spec fn trim_end(s: Seq<char>) -> Seq<char>
    decreases s.len(),
{
    if s.len() > 0 && is_white_space(s.last()) {
        trim_end(s.drop_last())
    } else {
        s
    }
}

/// `s` without white space at either end, as std's `str::trim`.
pub open spec fn trim(s: Seq<char>) -> Seq<char> {
    trim_end(trim_start(s))
}

/// A string is blank when nothing but white space is in it.
pub open spec fn is_blank(s: Seq<char>) -> bool {
    forall|i: int| 0 <= i < s.len() ==> is_white_space(#[trigger] s[i])
}

proof fn lemma_trim_start_skip(s: Seq<char>, i: int)
    requires
        0 <= i <= s.len(),
        forall|j: int| 0 <= j < i ==> is_white_space(#[trigger] s[j]),
    ensures
        trim_start(s) == trim_start(s.skip(i)),
    decreases i,
{
    if i > 0 {
        assert(s.skip(1) == s.drop_first());
        lemma_trim_start_skip(s.drop_first(), i - 1);
        assert(s.drop_first().skip(i - 1) == s.skip(i));
    } else {
        assert(s.skip(0) == s);
    }
}

proof fn lemma_trim_end_take(s: Seq<char>, i: int)
    requires
        0 <= i <= s.len(),
        forall|j: int| i <= j < s.len() ==> is_white_space(#[trigger] s[j]),
    ensures
        trim_end(s) == trim_end(s.take(i)),
    decreases s.len() - i,
{
    if i < s.len() {
        lemma_trim_end_take(s.drop_last(), i);
        assert(s.drop_last().take(i) == s.take(i));
    } else {
        assert(s.take(i) == s);
    }
}

pub proof fn lemma_trim_empty_iff_blank(s: Seq<char>)
    ensures
        (trim(s).len() == 0) == is_blank(s),
    decreases s.len(),
{
    lemma_trim_start_shape(s);
    if is_blank(s) {
        if s.len() > 0 {
            assert(is_white_space(s[0]));
            assert forall|i: int| 0 <= i < s.drop_first().len() implies is_white_space(
                #[trigger] s.drop_first()[i],
            ) by {
                assert(is_white_space(s[i + 1]));
            }
            lemma_trim_empty_iff_blank(s.drop_first());
        }
    } else {
        let i = choose|i: int| 0 <= i < s.len() && !is_white_space(s[i]);
        if s.len() > 0 && is_white_space(s[0]) {
            assert(!is_white_space(s.drop_first()[i - 1]));
            lemma_trim_empty_iff_blank(s.drop_first());
        } else {
            lemma_trim_end_keeps_first(s);
        }
    }
}

proof fn lemma_trim_start_shape(s: Seq<char>)
    ensures
        trim_start(s).len() <= s.len(),
    decreases s.len(),
{
    if s.len() > 0 && is_white_space(s[0]) {
        lemma_trim_start_shape(s.drop_first());
    }
}

proof fn lemma_trim_end_keeps_first(s: Seq<char>)
    requires
        s.len() > 0,
        !is_white_space(s[0]),
    ensures
        trim_end(s).len() > 0,
    decreases s.len(),
{
    if is_white_space(s.last()) {
        lemma_trim_end_keeps_first(s.drop_last());
    }
}

/// `s` without white space at either end (std's `str::trim`).
pub fn trim_chars(s: &[char]) -> (res: Vec<char>)
    ensures
        res@ == trim(s@),
{
    let n = s.len();
    let mut start: usize = 0;
    while start < n && is_whitespace(s[start])
        invariant
            start <= n,
            n == s@.len(),
            forall|j: int| 0 <= j < start ==> is_white_space(#[trigger] s@[j]),
        decreases n - start,
    {
        start = start + 1;
    }
    proof {
        lemma_trim_start_skip(s@, start as int);
    }
    let ghost rest = s@.skip(start as int);
    assert(trim_start(rest) == rest);
    let mut end: usize = n;
    while end > start && is_whitespace(s[end - 1])
        invariant
            start <= end <= n,
            n == s@.len(),
            rest == s@.skip(start as int),
            forall|j: int| end <= j < n ==> is_white_space(#[trigger] s@[j]),
        decreases end,
    {
        end = end - 1;
    }
    proof {
        lemma_trim_end_take(rest, end - start);
        assert(rest.take(end - start) == s@.subrange(start as int, end as int));
    }
    let mut res: Vec<char> = Vec::new();
    let mut k = start;
    while k < end
        invariant
            start <= k <= end <= n,
            n == s@.len(),
            res@ == s@.subrange(start as int, k as int),
        decreases end - k,
    {
        res.push(s[k]);
        k = k + 1;
    }
    proof {
        if start == n {
        } else {
            assert(!is_white_space(rest[0]));
        }
    }
    res
}

/// The string `s` without white space at either end (std's `str::trim`).
pub fn trim_string(s: &str) -> (res: String)
    ensures
        res@ == trim(s@),
{
    let cs = chars_of(s);
    let t = trim_chars(cs.as_slice());
    string_of(t.as_slice())
}

/// Whether `s` holds only white space (std's `s.trim().is_empty()`).
pub fn is_blank_str(s: &str) -> (res: bool)
    ensures
        res == is_blank(s@),
        res == (trim(s@).len() == 0),
{
    let cs = chars_of(s);
    let n = cs.len();
    let mut i: usize = 0;
    while i < n
        invariant
            i <= n,
            n == cs@.len(),
            cs@ == s@,
            forall|j: int| 0 <= j < i ==> is_white_space(#[trigger] s@[j]),
        decreases n - i,
    {
        if !is_whitespace(cs[i]) {
            proof {
                lemma_trim_empty_iff_blank(s@);
            }
            return false;
        }
        i = i + 1;
    }
    proof {
        lemma_trim_empty_iff_blank(s@);
    }
    true
}


/// Whether two strings are the same.
pub fn str_eq(a: &str, b: &str) -> (res: bool)
    ensures
        res == (a@ == b@),
{
    let x = chars_of(a);
    let y = chars_of(b);
    if x.len() != y.len() {
        return false;
    }
    let mut i: usize = 0;
    while i < x.len()
        invariant
            i <= x.len(),
            x.len() == y.len(),
            x@ == a@,
            y@ == b@,
            forall|j: int| 0 <= j < i ==> x@[j] == y@[j],
        decreases x.len() - i,
    {
        if x[i] != y[i] {
            return false;
        }
        i = i + 1;
    }
    assert(x@ =~= y@);
    true
}

/// Whether `needle` occurs in `hay` at position `at`.
pub open spec fn occurs_at(hay: Seq<char>, needle: Seq<char>, at: int) -> bool {
    0 <= at && at + needle.len() <= hay.len() && hay.subrange(at, at + needle.len()) == needle
}

/// Whether `needle` occurs anywhere in `hay` (std's `str::contains`).
pub open spec fn contains_seq(hay: Seq<char>, needle: Seq<char>) -> bool {
    exists|at: int| occurs_at(hay, needle, at)
}

/// Whether `hay` begins with `prefix` (std's `str::starts_with`).
pub open spec fn starts_with_seq(hay: Seq<char>, prefix: Seq<char>) -> bool {
    occurs_at(hay, prefix, 0)
}

/// Whether `needle` occurs in `hay` at position `at`.
pub fn matches_at(hay: &[char], needle: &[char], at: usize) -> (res: bool)
    requires
        at <= hay.len(),
    ensures
        res == occurs_at(hay@, needle@, at as int),
{
    if needle.len() > hay.len() - at {
        return false;
    }
    let mut k: usize = 0;
    while k < needle.len()
        invariant
            k <= needle.len(),
            at + needle.len() <= hay.len(),
            forall|j: int| 0 <= j < k ==> hay@[at + j] == needle@[j],
        decreases needle.len() - k,
    {
        if hay[at + k] != needle[k] {
            assert(hay@.subrange(at as int, at + needle@.len())[k as int] != needle@[k as int]);
            return false;
        }
        k = k + 1;
    }
    assert(hay@.subrange(at as int, at + needle@.len()) =~= needle@);
    true
}

/// The first position at or after `from` where `needle` occurs in `hay`.
pub open spec fn find_spec(hay: Seq<char>, needle: Seq<char>, from: int) -> Option<int>
    decreases hay.len() + 1 - from,
{
    if from < 0 || from > hay.len() {
        None
    } else if occurs_at(hay, needle, from) {
        Some(from)
    } else {
        find_spec(hay, needle, from + 1)
    }
}

pub proof fn lemma_find_spec_bounds(hay: Seq<char>, needle: Seq<char>, from: int)
    ensures
        find_spec(hay, needle, from) matches Some(i) ==> from <= i && occurs_at(hay, needle, i),
    decreases hay.len() + 1 - from,
{
    if 0 <= from <= hay.len() && !occurs_at(hay, needle, from) {
        lemma_find_spec_bounds(hay, needle, from + 1);
    }
}

/// The first position where `needle` occurs in `hay` (std's `str::find`).
pub open spec fn find_first(hay: Seq<char>, needle: Seq<char>) -> Option<int> {
    find_spec(hay, needle, 0)
}

/// The first position at or after `from` where `needle` occurs in `hay`.
pub fn find_from(hay: &[char], needle: &[char], from: usize) -> (res: Option<usize>)
    requires
        from <= hay.len(),
    ensures
        match res {
            Some(at) => from <= at && occurs_at(hay@, needle@, at as int) && forall|j: int|
                from <= j < at ==> !occurs_at(hay@, needle@, j),
            None => forall|j: int| from <= j ==> !occurs_at(hay@, needle@, j),
        },
        match res {
            Some(at) => find_spec(hay@, needle@, from as int) == Some(at as int),
            None => find_spec(hay@, needle@, from as int) is None,
        },
{
    let mut i = from;
    loop
        invariant
            from <= i <= hay.len(),
            forall|j: int| from <= j < i ==> !occurs_at(hay@, needle@, j),
            find_spec(hay@, needle@, from as int) == find_spec(hay@, needle@, i as int),
        decreases hay.len() - i,
    {
        if matches_at(hay, needle, i) {
            return Some(i);
        }
        if i == hay.len() {
            assert(find_spec(hay@, needle@, i + 1) is None);
            return None;
        }
        i = i + 1;
    }
}

/// Whether `needle` occurs in `hay` (std's `str::contains`).
pub fn contains_chars(hay: &[char], needle: &[char]) -> (res: bool)
    ensures
        res == contains_seq(hay@, needle@),
{
    match find_from(hay, needle, 0) {
        Some(_) => true,
        None => false,
    }
}

/// Whether `hay` begins with `prefix` (std's `str::starts_with`).
pub fn starts_with_chars(hay: &[char], prefix: &[char]) -> (res: bool)
    ensures
        res == starts_with_seq(hay@, prefix@),
{
    matches_at(hay, prefix, 0)
}

/// Whether the string `hay` contains the string `needle`.
pub fn str_contains(hay: &str, needle: &str) -> (res: bool)
    ensures
        res == contains_seq(hay@, needle@),
{
    let h = chars_of(hay);
    let n = chars_of(needle);
    contains_chars(h.as_slice(), n.as_slice())
}

/// Whether the string `hay` begins with the string `prefix`.
pub fn str_starts_with(hay: &str, prefix: &str) -> (res: bool)
    ensures
        res == starts_with_seq(hay@, prefix@),
{
    let h = chars_of(hay);
    let p = chars_of(prefix);
    starts_with_chars(h.as_slice(), p.as_slice())
}

/// The lower-case form of a string under Unicode's mapping, as std's `str::to_lowercase`
/// computes it.
pub uninterp spec fn lowercase(s: Seq<char>) -> Seq<char>;

/// std's `str::to_lowercase`: its result is named `lowercase` of the argument.
#[verifier::external_body]
pub(crate) fn to_lowercase(s: &str) -> (res: String)
    ensures
        res@ == lowercase(s@),
{
    s.to_lowercase()
}

/// The decimal digit character for `d` (`0 <= d < 10`).
pub open spec fn digit_char(d: int) -> char {
    (d + '0' as int) as char
}

/// The decimal spelling of a natural number, without leading zeros.
pub open spec fn decimal(n: nat) -> Seq<char>
    decreases n,
{
    if n < 10 {
        seq![digit_char(n as int)]
    } else {
        decimal(n / 10).push(digit_char((n % 10) as int))
    }
}

/// The decimal spelling of an integer, with a leading `-` when it is negative
/// (std's `Display` for integers).
pub open spec fn decimal_int(v: int) -> Seq<char> {
    if v < 0 {
        seq!['-'] + decimal((-v) as nat)
    } else {
        decimal(v as nat)
    }
}

fn digits_of(n: u64) -> (res: Vec<char>)
    ensures
        res@ == decimal(n as nat),
    decreases n,
{
    if n < 10 {
        let c = ((n as u8) + 48u8) as char;
        let mut v: Vec<char> = Vec::new();
        v.push(c);
        proof {
            assert(c == digit_char(n as int));
        }
        v
    } else {
        let mut v = digits_of(n / 10);
        let d = n % 10;
        let c = ((d as u8) + 48u8) as char;
        assert(c == digit_char((n % 10) as int));
        v.push(c);
        v
    }
}

/// The decimal text of `v` (std's `i64::to_string`).
pub fn format_i64(v: i64) -> (res: String)
    ensures
        res@ == decimal_int(v as int),
{
    if v < 0 {
        let m: u64 = (0i128 - (v as i128)) as u64;
        let d = digits_of(m);
        let mut all: Vec<char> = Vec::new();
        all.push('-');
        let mut k: usize = 0;
        while k < d.len()
            invariant
                k <= d.len(),
                all@ == seq!['-'] + d@.take(k as int),
            decreases d.len() - k,
        {
            all.push(d[k]);
            k = k + 1;
            assert(d@.take(k as int) == d@.take(k - 1).push(d@[k - 1]));
        }
        assert(d@.take(d.len() as int) == d@);
        string_of(all.as_slice())
    } else {
        let d = digits_of(v as u64);
        string_of(d.as_slice())
    }
}

/// The decimal text of `v` (std's `u32::to_string`).
pub fn format_u32(v: u32) -> (res: String)
    ensures
        res@ == decimal(v as nat),
{
    let d = digits_of(v as u64);
    string_of(d.as_slice())
}

/// Whether `c` is one of the ASCII digits `0`..`9`.
pub open spec fn is_digit(c: char) -> bool {
    '0' <= c && c <= '9'
}

/// The value of a string of decimal digits.
pub open spec fn digits_value(s: Seq<char>) -> nat
    decreases s.len(),
{
    if s.len() == 0 {
        0
    } else {
        (digits_value(s.drop_last()) * 10 + (s.last() as int - '0' as int)) as nat
    }
}

/// Whether every character of `s` is an ASCII digit.
pub open spec fn all_digits(s: Seq<char>) -> bool {
    forall|i: int| 0 <= i < s.len() ==> is_digit(#[trigger] s[i])
}

/// How many characters of `s` form its sign: one for a leading `+` or `-`.
pub open spec fn sign_len(s: Seq<char>) -> int {
    if s.len() > 0 && (s[0] == '-' || s[0] == '+') {
        1
    } else {
        0
    }
}

/// What std's `str::parse::<i64>` gives: an optional `+` or `-`, then one or more ASCII
/// digits, whose value fits in an `i64`.
pub open spec fn parse_int_spec(s: Seq<char>) -> Option<int> {
    let body = s.skip(sign_len(s));
    if s.len() == 0 || body.len() == 0 || !all_digits(body) {
        None
    } else {
        let v: int = if s[0] == '-' {
            -(digits_value(body) as int)
        } else {
            digits_value(body) as int
        };
        if i64::MIN <= v <= i64::MAX {
            Some(v)
        } else {
            None
        }
    }
}

proof fn lemma_digits_value_prefix(s: Seq<char>, i: int)
    requires
        0 <= i <= s.len(),
        all_digits(s),
    ensures
        digits_value(s.take(i)) <= digits_value(s),
    decreases s.len() - i,
{
    if i < s.len() {
        assert(all_digits(s.drop_last())) by {
            assert forall|j: int| 0 <= j < s.drop_last().len() implies is_digit(
                #[trigger] s.drop_last()[j],
            ) by {
                assert(is_digit(s[j]));
            }
        }
        lemma_digits_value_prefix(s.drop_last(), i);
        assert(s.drop_last().take(i) == s.take(i));
        assert(is_digit(s[s.len() - 1]));
        assert(digits_value(s.drop_last()) <= digits_value(s)) by (nonlinear_arith)
            requires
                digits_value(s) == digits_value(s.drop_last()) * 10 + (s.last() as int
                    - '0' as int),
                s.last() as int - '0' as int >= 0,
        ;
    } else {
        assert(s.take(i) == s);
    }
}

/// The value of the digits `cs[start..]`, when they are all digits and the value is at
/// most 2^63.
fn digits_upto_limit(cs: &[char], start: usize) -> (res: Option<u64>)
    requires
        start <= cs.len(),
    ensures
        ({
            let body = cs@.skip(start as int);
            &&& res matches Some(v) ==> all_digits(body) && v == digits_value(body) && v
                <= 0x8000_0000_0000_0000u64
            &&& res is None ==> !all_digits(body) || digits_value(body)
                > 0x8000_0000_0000_0000u64
        }),
{
    let ghost body = cs@.skip(start as int);
    let n = cs.len();
    let limit: u64 = 0x8000_0000_0000_0000;
    let mut acc: u64 = 0;
    let mut i = start;
    while i < n
        invariant
            start <= i <= n,
            n == cs@.len(),
            body == cs@.skip(start as int),
            limit == 0x8000_0000_0000_0000u64,
            acc <= limit,
            acc == digits_value(body.take(i - start)),
            forall|j: int| 0 <= j < i - start ==> is_digit(#[trigger] body[j]),
        decreases n - i,
    {
        let c = cs[i];
        assert(body[i - start] == c);
        if !('0' <= c && c <= '9') {
            assert(!is_digit(body[i - start]));
            return None;
        }
        let d = (c as u32 - 48) as u64;
        assert(body.take(i - start + 1).drop_last() == body.take(i - start));
        assert(body.take(i - start + 1).last() == c);
        assert(digits_value(body.take(i - start + 1)) == acc * 10 + d);
        if acc > (limit - d) / 10 {
            proof {
                if all_digits(body) {
                    lemma_digits_value_prefix(body, i - start + 1);
                    assert(acc * 10 + d > limit) by (nonlinear_arith)
                        requires
                            acc > (limit - d) / 10,
                            d <= 9,
                            limit == 0x8000_0000_0000_0000u64,
                    ;
                }
            }
            return None;
        }
        assert(acc * 10 + d <= limit) by (nonlinear_arith)
            requires
                acc <= (limit - d) / 10,
                d <= 9,
                limit == 0x8000_0000_0000_0000u64,
        ;
        acc = acc * 10 + d;
        i = i + 1;
    }
    assert(body.take(n - start) == body);
    Some(acc)
}

/// std's `str::parse::<i64>`: `None` where std gives an error.
pub fn parse_i64(s: &str) -> (res: Option<i64>)
    ensures
        res matches Some(v) ==> parse_int_spec(s@) == Some(v as int),
        res is None ==> parse_int_spec(s@) is None,
{
    let cs = chars_of(s);
    let n = cs.len();
    if n == 0 {
        return None;
    }
    let neg = cs[0] == '-';
    let start: usize = if cs[0] == '-' || cs[0] == '+' {
        1
    } else {
        0
    };
    assert(start == sign_len(s@));
    if start == n {
        return None;
    }
    match digits_upto_limit(cs.as_slice(), start) {
        None => None,
        Some(acc) => {
            if neg {
                Some((0i128 - (acc as i128)) as i64)
            } else if acc <= 0x7fff_ffff_ffff_ffff {
                Some(acc as i64)
            } else {
                None
            }
        },
    }
}

/// The number of bytes of a character in UTF-8 (std's `char::len_utf8`).
pub open spec fn utf8_width(c: char) -> nat {
    let v = c as u32;
    if v < 0x80 {
        1
    } else if v < 0x800 {
        2
    } else if v < 0x10000 {
        3
    } else {
        4
    }
}

/// The number of bytes of a string in UTF-8 (std's `str::len`).
pub open spec fn byte_len(s: Seq<char>) -> nat
    decreases s.len(),
{
    if s.len() == 0 {
        0
    } else {
        byte_len(s.drop_last()) + utf8_width(s.last())
    }
}

/// The number of bytes of `s` in UTF-8.
pub fn byte_length(s: &[char]) -> (res: u128)
    ensures
        res == byte_len(s@),
{
    let mut total: u128 = 0;
    let mut k: usize = 0;
    while k < s.len()
        invariant
            k <= s.len(),
            total == byte_len(s@.take(k as int)),
            total <= 4 * k,
        decreases s.len() - k,
    {
        assert(s@.take(k + 1).drop_last() == s@.take(k as int));
        total = total + char_utf8_width(s[k]) as u128;
        k = k + 1;
    }
    assert(s@.take(k as int) =~= s@);
    total
}

pub fn char_utf8_width(c: char) -> (res: usize)
    ensures
        res == utf8_width(c),
{
    let v = c as u32;
    if v < 0x80 {
        1
    } else if v < 0x800 {
        2
    } else if v < 0x10000 {
        3
    } else {
        4
    }
}

/// The index of the character that starts at byte `b` of `s`, searching from character `k`
/// on; none when byte `b` is not the start of a character (nor the end of `s`).
pub open spec fn char_index_from(s: Seq<char>, b: int, k: int) -> Option<int>
    decreases s.len() + 1 - k,
{
    if k < 0 || k > s.len() {
        None
    } else if byte_len(s.take(k)) == b {
        Some(k)
    } else {
        char_index_from(s, b, k + 1)
    }
}

/// The index of the character that starts at byte `b` of `s` (or `s.len()` for its last
/// byte plus one); none when `b` falls inside a character, which is where std's
/// byte-range slicing of a `str` panics.
pub open spec fn char_index_of_byte(s: Seq<char>, b: int) -> Option<int> {
    char_index_from(s, b, 0)
}

/// The character index of byte `b` of `s`.
pub fn char_index_of_byte_exec(s: &[char], b: usize) -> (res: Option<usize>)
    ensures
        match res {
            Some(k) => char_index_of_byte(s@, b as int) == Some(k as int) && k <= s.len(),
            None => char_index_of_byte(s@, b as int) is None,
        },
{
    let mut k: usize = 0;
    let mut off: u128 = 0;
    loop
        invariant
            k <= s.len(),
            off == byte_len(s@.take(k as int)),
            off <= 4 * k,
            char_index_of_byte(s@, b as int) == char_index_from(s@, b as int, k as int),
        decreases s.len() - k,
    {
        if off == b as u128 {
            return Some(k);
        }
        if k == s.len() {
            assert(char_index_from(s@, b as int, k + 1) is None);
            return None;
        }
        if off > b as u128 {
            // offsets only grow: no later character starts at `b`
            proof {
                lemma_char_index_from_past(s@, b as int, k as int + 1);
            }
            return None;
        }
        assert(s@.take(k + 1).drop_last() == s@.take(k as int));
        let w = char_utf8_width(s[k]);
        off = off + w as u128;
        k = k + 1;
    }
}

pub proof fn lemma_byte_len_monotone(s: Seq<char>, i: int, j: int)
    requires
        0 <= i <= j <= s.len(),
    ensures
        byte_len(s.take(i)) + (j - i) <= byte_len(s.take(j)),
    decreases j - i,
{
    if i < j {
        lemma_byte_len_monotone(s, i, j - 1);
        assert(s.take(j).drop_last() == s.take(j - 1));
    }
}

proof fn lemma_char_index_from_past(s: Seq<char>, b: int, k: int)
    requires
        0 < k,
        byte_len(s.take(k - 1)) > b,
    ensures
        char_index_from(s, b, k) is None,
    decreases s.len() + 1 - k,
{
    if k <= s.len() {
        lemma_byte_len_monotone(s, k - 1, k);
        lemma_char_index_from_past(s, b, k + 1);
    }
}

/// `s` without its last character when that is a carriage return.
pub open spec fn strip_cr(s: Seq<char>) -> Seq<char> {
    if s.len() > 0 && s.last() == '\r' {
        s.drop_last()
    } else {
        s
    }
}

/// The lines of a text, as std's `str::lines` splits it: at each `\n`, with a `\r` right
/// before it dropped, and no empty line after a final `\n`.
pub open spec fn lines_of(s: Seq<char>) -> Seq<Seq<char>>
    decreases s.len(),
{
    if s.len() == 0 {
        seq![]
    } else {
        match find_first(s, seq!['\n']) {
            Some(i) => {
                proof {
                    lemma_find_spec_bounds(s, seq!['\n'], 0);
                }
                seq![strip_cr(s.take(i))] + lines_of(s.skip(i + 1))
            },
            None => seq![s],
        }
    }
}

proof fn lemma_find_spec_skip(hay: Seq<char>, needle: Seq<char>, i: int, j: int)
    requires
        0 <= i <= hay.len(),
        0 <= j,
    ensures
        find_spec(hay.skip(i), needle, j) == match find_spec(hay, needle, i + j) {
            Some(k) => Some(k - i),
            None => None,
        },
    decreases hay.len() + 1 - i - j,
{
    let h = hay.skip(i);
    if j <= h.len() {
        if occurs_at(h, needle, j) {
            assert(h.subrange(j, j + needle.len()) == hay.subrange(i + j, i + j + needle.len()));
        } else {
            if occurs_at(hay, needle, i + j) {
                assert(h.subrange(j, j + needle.len()) == hay.subrange(i + j, i + j + needle.len()));
            }
            lemma_find_spec_skip(hay, needle, i, j + 1);
        }
    }
}

proof fn lemma_find_newline_append(s: Seq<char>, d: Seq<char>, from: int)
    requires
        0 <= from <= s.len(),
    ensures
        find_spec(s, seq!['\n'], from) matches Some(i) ==> find_spec(s + d, seq!['\n'], from) == Some(i),
        find_spec(s, seq!['\n'], from) is None ==> find_spec(s + d, seq!['\n'], from) == find_spec(
            s + d,
            seq!['\n'],
            s.len() as int,
        ),
    decreases s.len() - from,
{
    let nl = seq!['\n'];
    if from < s.len() {
        assert((s + d).subrange(from, from + 1) == s.subrange(from, from + 1));
        lemma_find_newline_append(s, d, from + 1);
    } else {
        assert(!occurs_at(s, nl, from));
        assert(find_spec(s, nl, from + 1) is None);
    }
}

/// How the lines of a text change when more text is appended: all lines but the last stay,
/// and the last one is the start of the line at its place (unless a `\r` that ended the
/// text is taken away by a `\n` that the new text starts with).
pub proof fn lemma_lines_append(s: Seq<char>, d: Seq<char>)
    requires
        !(s.len() > 0 && s.last() == '\r' && d.len() > 0 && d[0] == '\n'),
    ensures
        lines_of(s + d).len() >= lines_of(s).len(),
        forall|k: int|
            0 <= k < lines_of(s).len() - 1 ==> #[trigger] lines_of(s + d)[k] == lines_of(s)[k],
        lines_of(s).len() > 0 ==> ({
            let last = lines_of(s).last();
            let grown = lines_of(s + d)[lines_of(s).len() - 1];
            last.len() <= grown.len() && grown.take(last.len() as int) == last
        }),
    decreases s.len(),
{
    let nl = seq!['\n'];
    if s.len() == 0 {
        return;
    }
    let t = s + d;
    lemma_find_newline_append(s, d, 0);
    lemma_find_spec_bounds(s, nl, 0);
    lemma_find_spec_bounds(t, nl, 0);
    match find_first(s, nl) {
        Some(i) => {
            assert(t.take(i) == s.take(i));
            assert(t.skip(i + 1) =~= s.skip(i + 1) + d);
            let rest = s.skip(i + 1);
            if rest.len() > 0 {
                assert(rest.last() == s.last());
            }
            lemma_lines_append(rest, d);
            assert(lines_of(s) == seq![strip_cr(s.take(i))] + lines_of(rest));
            assert(lines_of(t) == seq![strip_cr(s.take(i))] + lines_of(rest + d));
            assert forall|k: int| 0 <= k < lines_of(s).len() - 1 implies #[trigger] lines_of(t)[k]
                == lines_of(s)[k] by {
                if k > 0 {
                    assert(lines_of(t)[k] == lines_of(rest + d)[k - 1]);
                    assert(lines_of(s)[k] == lines_of(rest)[k - 1]);
                }
            }
            if lines_of(rest).len() > 0 {
                assert(lines_of(s).last() == lines_of(rest).last());
                assert(lines_of(t)[lines_of(s).len() - 1] == lines_of(rest + d)[lines_of(rest).len() - 1]);
            }
        },
        None => {
            assert(lines_of(s) == seq![s]);
            lemma_find_spec_bounds(t, nl, s.len() as int);
            match find_first(t, nl) {
                Some(j) => {
                    assert(j >= s.len());
                    let line = t.take(j);
                    assert(line.take(s.len() as int) =~= s);
                    if j == s.len() {
                        assert(t.subrange(j, j + 1) == nl);
                        assert(t.subrange(j, j + 1)[0] == t[j]);
                        assert(d[0] == t[j]);
                        assert(line =~= s);
                        assert(strip_cr(line) == line);
                    } else {
                        assert(strip_cr(line).take(s.len() as int) =~= s);
                    }
                },
                None => {
                    assert(t.take(s.len() as int) =~= s);
                },
            }
        },
    }
}

/// The lines of `content`, as std's `str::lines` gives them.
pub fn split_lines(content: &str) -> (res: Vec<String>)
    ensures
        strings_of(res@) == lines_of(content@),
{
    let cs = chars_of(content);
    let nl: Vec<char> = vec!['\n'];
    assert(nl@ == seq!['\n']);
    let mut out: Vec<String> = Vec::new();
    let mut i: usize = 0;
    assert(cs@.skip(0) == cs@);
    while i < cs.len()
        invariant
            i <= cs.len(),
            cs@ == content@,
            nl@ == seq!['\n'],
            strings_of(out@) + lines_of(cs@.skip(i as int)) == lines_of(content@),
        decreases cs.len() - i,
    {
        let ghost rest = cs@.skip(i as int);
        proof {
            lemma_find_spec_skip(cs@, seq!['\n'], i as int, 0);
        }
        match find_from(cs.as_slice(), nl.as_slice(), i) {
            Some(at) => {
                let mut end = at;
                if end > i && cs[end - 1] == '\r' {
                    end = end - 1;
                }
                let mut line: Vec<char> = Vec::new();
                let mut k = i;
                while k < end
                    invariant
                        i <= k <= end <= cs.len(),
                        line@ == cs@.subrange(i as int, k as int),
                    decreases end - k,
                {
                    line.push(cs[k]);
                    k = k + 1;
                }
                assert(rest.take(at - i) == cs@.subrange(i as int, at as int));
                assert(line@ == strip_cr(rest.take(at - i)));
                assert(rest.skip(at - i + 1) == cs@.skip(at + 1));
                let ghost before = strings_of(out@);
                out.push(string_of(line.as_slice()));
                assert(strings_of(out@) == before.push(line@));
                assert(lines_of(rest) == seq![line@] + lines_of(cs@.skip(at + 1)));
                assert(strings_of(out@) + lines_of(cs@.skip(at + 1)) == before + lines_of(rest));
                i = at + 1;
            },
            None => {
                let mut line: Vec<char> = Vec::new();
                let mut k = i;
                while k < cs.len()
                    invariant
                        i <= k <= cs.len(),
                        line@ == cs@.subrange(i as int, k as int),
                    decreases cs.len() - k,
                {
                    line.push(cs[k]);
                    k = k + 1;
                }
                assert(line@ == rest);
                let ghost before = strings_of(out@);
                out.push(string_of(line.as_slice()));
                assert(strings_of(out@) == before.push(line@));
                assert(cs@.skip(cs.len() as int) == Seq::<char>::empty());
                assert(lines_of(cs@.skip(cs.len() as int)) == Seq::<Seq<char>>::empty());
                assert(strings_of(out@) + lines_of(cs@.skip(cs.len() as int)) == before + lines_of(rest));
                i = cs.len();
            },
        }
    }
    assert(cs@.skip(cs.len() as int) == Seq::<char>::empty());
    assert(strings_of(out@) + Seq::<Seq<char>>::empty() == strings_of(out@));
    out
}

/// The views of a sequence of strings.
pub open spec fn strings_of(v: Seq<String>) -> Seq<Seq<char>> {
    v.map_values(|e: String| e@)
}

/// Whether `a` comes before `b` in the order of `str`'s comparison: character by character,
/// by code point (which for UTF-8 is also the order of the bytes), a proper prefix first.
pub open spec fn lex_lt(a: Seq<char>, b: Seq<char>) -> bool
    decreases a.len(),
{
    if a.len() == 0 {
        b.len() > 0
    } else if b.len() == 0 {
        false
    } else if a[0] != b[0] {
        a[0] < b[0]
    } else {
        lex_lt(a.drop_first(), b.drop_first())
    }
}

/// No string comes before itself.
pub proof fn lemma_lex_irreflexive(a: Seq<char>)
    ensures
        !lex_lt(a, a),
    decreases a.len(),
{
    if a.len() > 0 {
        lemma_lex_irreflexive(a.drop_first());
    }
}

/// Of two strings, at most one comes before the other.
pub proof fn lemma_lex_asymmetric(a: Seq<char>, b: Seq<char>)
    ensures
        lex_lt(a, b) ==> !lex_lt(b, a),
    decreases a.len(),
{
    if a.len() > 0 && b.len() > 0 && a[0] == b[0] {
        lemma_lex_asymmetric(a.drop_first(), b.drop_first());
    }
}

/// The order is transitive.
pub proof fn lemma_lex_transitive(a: Seq<char>, b: Seq<char>, c: Seq<char>)
    ensures
        lex_lt(a, b) && lex_lt(b, c) ==> lex_lt(a, c),
    decreases a.len(),
{
    if a.len() > 0 && b.len() > 0 && c.len() > 0 && a[0] == b[0] && b[0] == c[0] {
        lemma_lex_transitive(a.drop_first(), b.drop_first(), c.drop_first());
    }
}

/// Of two different strings, one comes before the other.
pub proof fn lemma_lex_total(a: Seq<char>, b: Seq<char>)
    ensures
        a != b ==> lex_lt(a, b) || lex_lt(b, a),
    decreases a.len(),
{
    if a.len() == 0 && b.len() == 0 {
        assert(a =~= b);
    } else if a.len() > 0 && b.len() > 0 && a[0] == b[0] {
        lemma_lex_total(a.drop_first(), b.drop_first());
        if a.drop_first() == b.drop_first() {
            assert(a =~= b) by {
                assert forall|i: int| 0 <= i < a.len() implies a[i] == b[i] by {
                    if i > 0 {
                        assert(a[i] == a.drop_first()[i - 1]);
                        assert(b[i] == b.drop_first()[i - 1]);
                    }
                }
            }
        }
    }
}

/// Whether `a` comes before `b` in the order of `str`'s comparison.
pub fn lex_less(a: &[char], b: &[char]) -> (res: bool)
    ensures
        res == lex_lt(a@, b@),
{
    let mut i: usize = 0;
    assert(a@.skip(0) =~= a@);
    assert(b@.skip(0) =~= b@);
    while i < a.len() && i < b.len()
        invariant
            i <= a.len(),
            i <= b.len(),
            lex_lt(a@, b@) == lex_lt(a@.skip(i as int), b@.skip(i as int)),
        decreases a.len() - i,
    {
        assert(a@.skip(i as int)[0] == a@[i as int]);
        assert(b@.skip(i as int)[0] == b@[i as int]);
        if a[i] != b[i] {
            return a[i] < b[i];
        }
        assert(a@.skip(i as int).drop_first() =~= a@.skip(i + 1));
        assert(b@.skip(i as int).drop_first() =~= b@.skip(i + 1));
        i = i + 1;
    }
    i < b.len()
}

} // verus!
