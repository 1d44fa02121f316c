//! Text as sequences of characters.
//!
//! Strings are handled through their view, a `Seq<char>`. Positions are
//! character positions, never byte offsets.

use vstd::prelude::*;

verus! {

broadcast use {
    vstd::string::group_string_axioms,
    vstd::seq::group_seq_axioms,
};

/// `String::push` appends one character.
pub assume_specification[ String::push ](s: &mut String, c: char)
    ensures
        final(s)@ == old(s)@.push(c),
;

/// What `str::to_lowercase` returns for a text.
pub uninterp spec fn lowercase(s: Seq<char>) -> Seq<char>;

/// `str::to_lowercase`: the result depends on the text alone.
pub assume_specification[ str::to_lowercase ](s: &str) -> (r: String)
    ensures
        r@ == lowercase(s@),
;

/// The characters of a text.
pub fn chars_of(s: &str) -> (r: Vec<char>)
    ensures
        r@ == s@,
{
    let mut out: Vec<char> = Vec::new();
    for c in iter: s.chars()
        invariant
            iter.seq() == s@,
            out@ == s@.take(iter.index() as int),
    {
        out.push(c);
        assert(s@.take(iter.index() + 1) =~= s@.take(iter.index() as int).push(c));
    }
    assert(s@.take(s@.len() as int) =~= s@);
    out
}

/// The text made of the given characters.
pub fn string_of(chars: &Vec<char>) -> (r: String)
    ensures
        r@ == chars@,
{
    string_between(chars, 0, chars.len())
}

/// The text made of the characters from `from` up to `to`.
pub fn string_between(chars: &Vec<char>, from: usize, to: usize) -> (r: String)
    requires
        from <= to <= chars.len(),
    ensures
        r@ == chars@.subrange(from as int, to as int),
{
    let mut out = String::new();
    let mut i: usize = from;
    while i < to
        invariant
            from <= i <= to <= chars.len(),
            out@ == chars@.subrange(from as int, i as int),
        decreases to - i,
    {
        out.push(chars[i]);
        assert(chars@.subrange(from as int, i + 1) =~= chars@.subrange(from as int, i as int).push(
            chars@[i as int],
        ));
        i += 1;
    }
    out
}

/// Whether two texts are equal.
pub fn same_text(a: &str, b: &str) -> (r: bool)
    ensures
        r == (a@ == b@),
{
    let x: Vec<char> = chars_of(a);
    let y: Vec<char> = chars_of(b);
    if x.len() != y.len() {
        return false;
    }
    let mut i: usize = 0;
    while i < x.len()
        invariant
            i <= x.len() == y.len(),
            x@ == a@,
            y@ == b@,
            forall|j: int| 0 <= j < i ==> x@[j] == y@[j],
        decreases x.len() - i,
    {
        if x[i] != y[i] {
            return false;
        }
        i += 1;
    }
    assert(a@ =~= b@);
    true
}

/// Unicode's `White_Space` property.
pub open spec fn white_space(c: char) -> bool {
    let n = c as u32;
    ||| 0x9 <= n <= 0xd
    ||| n == 0x20
    ||| n == 0x85
    ||| n == 0xa0
    ||| n == 0x1680
    ||| 0x2000 <= n <= 0x200a
    ||| n == 0x2028
    ||| n == 0x2029
    ||| n == 0x202f
    ||| n == 0x205f
    ||| n == 0x3000
}

/// Whether a character is white space.
pub fn is_white_space(c: char) -> (r: bool)
    ensures
        r == white_space(c),
{
    let n: u32 = c as u32;
    (0x9 <= n && n <= 0xd) || n == 0x20 || n == 0x85 || n == 0xa0 || n == 0x1680 || (0x2000 <= n
        && n <= 0x200a) || n == 0x2028 || n == 0x2029 || n == 0x202f || n == 0x205f || n == 0x3000
}

/// A text without its leading white space.
pub open spec fn trim_start(s: Seq<char>) -> Seq<char>
    decreases s.len(),
{
    if s.len() > 0 && white_space(s[0]) {
        trim_start(s.subrange(1, s.len() as int))
    } else {
        s
    }
}

/// A text without its trailing white space.
pub open spec fn trim_end(s: Seq<char>) -> Seq<char>
    decreases s.len(),
{
    if s.len() > 0 && white_space(s[s.len() - 1]) {
        trim_end(s.subrange(0, s.len() - 1))
    } else {
        s
    }
}

/// A text without leading and trailing white space.
pub open spec fn trim(s: Seq<char>) -> Seq<char> {
    trim_end(trim_start(s))
}

/// The part of `chars` from `from` on, without its leading white space.
fn skip_white(chars: &Vec<char>, from: usize) -> (r: usize)
    requires
        from <= chars.len(),
    ensures
        from <= r <= chars.len(),
        trim_start(chars@.subrange(from as int, chars@.len() as int)) == chars@.subrange(
            r as int,
            chars@.len() as int,
        ),
{
    let mut i: usize = from;
    while i < chars.len() && is_white_space(chars[i])
        invariant
            from <= i <= chars.len(),
            trim_start(chars@.subrange(from as int, chars@.len() as int)) == trim_start(
                chars@.subrange(i as int, chars@.len() as int),
            ),
        decreases chars.len() - i,
    {
        assert(chars@.subrange(i as int, chars@.len() as int).subrange(
            1,
            chars@.len() - i,
        ) =~= chars@.subrange(i + 1, chars@.len() as int));
        i += 1;
    }
    i
}

/// The text without leading white space (`str::trim_start`).
pub fn trimmed_start(s: &str) -> (r: String)
    ensures
        r@ == trim_start(s@),
{
    let chars: Vec<char> = chars_of(s);
    assert(chars@.subrange(0, chars@.len() as int) =~= s@);
    let from: usize = skip_white(&chars, 0);
    string_between(&chars, from, chars.len())
}

/// The text without leading and trailing white space (`str::trim`).
pub fn trimmed(s: &str) -> (r: String)
    ensures
        r@ == trim(s@),
{
    let chars: Vec<char> = chars_of(s);
    assert(chars@.subrange(0, chars@.len() as int) =~= s@);
    let from: usize = skip_white(&chars, 0);
    let mut to: usize = chars.len();
    while to > from && is_white_space(chars[to - 1])
        invariant
            from <= to <= chars.len(),
            trim_end(chars@.subrange(from as int, chars@.len() as int)) == trim_end(
                chars@.subrange(from as int, to as int),
            ),
        decreases to,
    {
        assert(chars@.subrange(from as int, to as int).subrange(0, to - from - 1)
            =~= chars@.subrange(from as int, to - 1));
        to -= 1;
    }
    string_between(&chars, from, to)
}

/// Whether `s` has `part` at character position `at`.
pub open spec fn has_at(s: Seq<char>, part: Seq<char>, at: int) -> bool {
    0 <= at && at + part.len() <= s.len() && s.subrange(at, at + part.len()) == part
}

/// Whether `s` begins with `prefix`.
pub open spec fn begins_with(s: Seq<char>, prefix: Seq<char>) -> bool {
    has_at(s, prefix, 0)
}

/// Whether `s` ends with `suffix`.
pub open spec fn finishes_with(s: Seq<char>, suffix: Seq<char>) -> bool {
    has_at(s, suffix, s.len() - suffix.len())
}

/// Whether `part` occurs in `s`.
pub open spec fn occurs_in(part: Seq<char>, s: Seq<char>) -> bool {
    exists|at: int| #[trigger] has_at(s, part, at)
}

fn matches_at(s: &Vec<char>, part: &Vec<char>, at: usize) -> (r: bool)
    ensures
        r == has_at(s@, part@, at as int),
{
    if part.len() > s.len() || at > s.len() - part.len() {
        return false;
    }
    let mut i: usize = 0;
    while i < part.len()
        invariant
            i <= part.len(),
            at + part.len() <= s.len(),
            forall|j: int| 0 <= j < i ==> s@[at + j] == part@[j],
        decreases part.len() - i,
    {
        if s[at + i] != part[i] {
            assert(s@.subrange(at as int, at + part@.len())[i as int] != part@[i as int]);
            return false;
        }
        i += 1;
    }
    assert(s@.subrange(at as int, at + part@.len()) =~= part@);
    true
}

/// Whether `s` begins with `prefix` (`str::starts_with`).
pub fn starts_with(s: &str, prefix: &str) -> (r: bool)
    ensures
        r == begins_with(s@, prefix@),
{
    matches_at(&chars_of(s), &chars_of(prefix), 0)
}

/// Whether `s` ends with `suffix` (`str::ends_with`).
pub fn ends_with(s: &str, suffix: &str) -> (r: bool)
    ensures
        r == finishes_with(s@, suffix@),
{
    let a: Vec<char> = chars_of(s);
    let b: Vec<char> = chars_of(suffix);
    if b.len() > a.len() {
        return false;
    }
    matches_at(&a, &b, a.len() - b.len())
}

/// Whether `part` occurs in `s` (`str::contains`).
pub fn contains(s: &str, part: &str) -> (r: bool)
    ensures
        r == occurs_in(part@, s@),
{
    let a: Vec<char> = chars_of(s);
    let b: Vec<char> = chars_of(part);
    let mut at: usize = 0;
    while at < a.len()
        invariant
            a@ == s@,
            b@ == part@,
            at <= a.len(),
            forall|j: int| 0 <= j < at ==> !has_at(a@, b@, j),
        decreases a.len() - at,
    {
        if matches_at(&a, &b, at) {
            return true;
        }
        at += 1;
    }
    matches_at(&a, &b, at)
}

/// The rest of `s` after `prefix`, if `s` begins with it (`str::strip_prefix`).
pub fn strip_prefix(s: &str, prefix: &str) -> (r: Option<String>)
    ensures
        begins_with(s@, prefix@) <==> r is Some,
        r matches Some(rest) ==> rest@ == s@.subrange(prefix@.len() as int, s@.len() as int),
{
    let a: Vec<char> = chars_of(s);
    let b: Vec<char> = chars_of(prefix);
    if matches_at(&a, &b, 0) {
        Some(string_between(&a, b.len(), a.len()))
    } else {
        None
    }
}

/// The decimal digit `n`.
pub open spec fn digit(n: int) -> char {
    ('0' as u32 + n) as char
}

/// A number in decimal notation.
pub open spec fn decimal(n: nat) -> Seq<char>
    decreases n,
{
    if n < 10 {
        seq![digit(n as int)]
    } else {
        decimal(n / 10).push(digit((n % 10) as int))
    }
}

/// No two numbers are written alike.
pub proof fn decimal_is_injective(m: nat, n: nat)
    requires
        decimal(m) == decimal(n),
    ensures
        m == n,
    decreases m,
{
    if m < 10 && n < 10 {
        assert(decimal(m)[0] == digit(m as int));
        assert(decimal(n)[0] == digit(n as int));
    } else if m < 10 || n < 10 {
        let long = if m < 10 {
            n
        } else {
            m
        };
        decimal_has_digits(long / 10);
    } else {
        assert(decimal(m).drop_last() =~= decimal(m / 10));
        assert(decimal(n).drop_last() =~= decimal(n / 10));
        assert(decimal(m).last() == digit((m % 10) as int));
        assert(decimal(n).last() == digit((n % 10) as int));
        decimal_is_injective(m / 10, n / 10);
    }
}

proof fn decimal_has_digits(n: nat)
    ensures
        decimal(n).len() > 0,
    decreases n,
{
    if n >= 10 {
        decimal_has_digits(n / 10);
    }
}

/// The decimal digit `n`.
fn digit_char(n: u64) -> (c: char)
    requires
        n < 10,
    ensures
        c == digit(n as int),
{
    match n {
        0 => '0',
        1 => '1',
        2 => '2',
        3 => '3',
        4 => '4',
        5 => '5',
        6 => '6',
        7 => '7',
        8 => '8',
        _ => '9',
    }
}

/// A number in decimal notation.
pub fn decimal_text(n: u64) -> (r: String)
    ensures
        r@ == decimal(n as nat),
    decreases n,
{
    if n < 10 {
        let mut out = String::new();
        out.push(digit_char(n));
        assert(out@ =~= seq![digit(n as int)]);
        out
    } else {
        let mut out = decimal_text(n / 10);
        out.push(digit_char(n % 10));
        out
    }
}

/// A large number in decimal notation.
pub fn wide_decimal_text(n: u128) -> (r: String)
    ensures
        r@ == decimal(n as nat),
    decreases n,
{
    if n < 10 {
        decimal_text(n as u64)
    } else {
        let mut out = wide_decimal_text(n / 10);
        out.push(digit_char((n % 10) as u64));
        out
    }
}

/// `a` followed by `b`.
pub fn joined(a: &str, b: &str) -> (r: String)
    ensures
        r@ == a@ + b@,
{
    let mut out = a.to_owned();
    out.append(b);
    out
}

/// `a`, `b` and `c` one after another.
pub fn joined3(a: &str, b: &str, c: &str) -> (r: String)
    ensures
        r@ == a@ + b@ + c@,
{
    let mut out = a.to_owned();
    out.append(b);
    out.append(c);
    out
}

/// A copy of an optional text.
pub fn copy_option(o: &Option<String>) -> (r: Option<String>)
    ensures
        r == *o,
{
    match o {
        Some(s) => Some(s.clone()),
        None => None,
    }
}

/// A copy of a list of texts.
pub fn copy_strings(v: &Vec<String>) -> (r: Vec<String>)
    ensures
        r@ == v@,
{
    let mut out: Vec<String> = Vec::new();
    let mut i: usize = 0;
    while i < v.len()
        invariant
            i <= v.len(),
            out@ == v@.take(i as int),
        decreases v.len() - i,
    {
        out.push(v[i].clone());
        assert(v@.take(i + 1) =~= v@.take(i as int).push(v@[i as int]));
        i += 1;
    }
    assert(v@.take(v@.len() as int) =~= v@);
    out
}

/// Whether a list of texts holds `item`.
pub open spec fn lists(v: Seq<String>, item: Seq<char>) -> bool {
    exists|i: int| 0 <= i < v.len() && (#[trigger] v[i])@ == item
}

/// Whether a list of texts holds `item`.
pub fn list_has(v: &Vec<String>, item: &str) -> (r: bool)
    ensures
        r == lists(v@, item@),
{
    let mut i: usize = 0;
    while i < v.len()
        invariant
            i <= v.len(),
            forall|j: int| 0 <= j < i ==> (#[trigger] v@[j])@ != item@,
        decreases v.len() - i,
    {
        if same_text(v[i].as_str(), item) {
            return true;
        }
        i += 1;
    }
    false
}

/// The views of a list of texts.
pub open spec fn views(v: Seq<String>) -> Seq<Seq<char>> {
    v.map_values(|s: String| s@)
}

/// The texts `v`, joined with `separator` between them.
pub open spec fn join(v: Seq<Seq<char>>, separator: Seq<char>) -> Seq<char>
    decreases v.len(),
{
    if v.len() == 0 {
        Seq::empty()
    } else if v.len() == 1 {
        v[0]
    } else {
        join(v.drop_last(), separator) + separator + v.last()
    }
}

/// The texts `v`, joined with `separator` between them.
pub fn join_texts(v: &Vec<String>, separator: &str) -> (r: String)
    ensures
        r@ == join(views(v@), separator@),
{
    let mut out = String::new();
    let mut i: usize = 0;
    while i < v.len()
        invariant
            i <= v.len(),
            out@ == join(views(v@).take(i as int), separator@),
        decreases v.len() - i,
    {
        let ghost part = views(v@).take(i + 1);
        assert(part.drop_last() =~= views(v@).take(i as int));
        assert(part.last() == v@[i as int]@);
        if i > 0 {
            out.append(separator);
        }
        out.append(v[i].as_str());
        if i == 0 {
            assert(out@ =~= part[0]);
        }
        i += 1;
    }
    assert(views(v@).take(v@.len() as int) =~= views(v@));
    out
}

/// How many bytes a character takes in UTF-8.
pub open spec fn utf8_len(c: char) -> nat {
    let n = c as u32;
    if n < 0x80 {
        1
    } else if n < 0x800 {
        2
    } else if n < 0x1_0000 {
        3
    } else {
        4
    }
}

/// How many bytes a text takes in UTF-8.
pub open spec fn byte_len(s: Seq<char>) -> nat
    decreases s.len(),
{
    if s.len() == 0 {
        0
    } else {
        byte_len(s.drop_last()) + utf8_len(s.last())
    }
}

fn utf8_width(c: char) -> (r: usize)
    ensures
        r == utf8_len(c),
        1 <= r <= 4,
{
    let n: u32 = c as u32;
    if n < 0x80 {
        1
    } else if n < 0x800 {
        2
    } else if n < 0x1_0000 {
        3
    } else {
        4
    }
}

proof fn byte_len_grows(s: Seq<char>, k: int)
    requires
        0 <= k <= s.len(),
    ensures
        byte_len(s.take(k)) <= byte_len(s),
    decreases s.len() - k,
{
    if k == s.len() {
        assert(s.take(k) =~= s);
    } else {
        let next = s.take(k + 1);
        assert(next.drop_last() =~= s.take(k));
        byte_len_grows(s, k + 1);
    }
}

/// Whether `k` characters are as many of `s` as fit in `maximum` bytes.
pub open spec fn fitting(s: Seq<char>, maximum: nat, k: int) -> bool {
    &&& 0 <= k <= s.len()
    &&& byte_len(s.take(k)) <= maximum
    &&& k < s.len() ==> byte_len(s.take(k + 1)) > maximum
}

/// How many characters of the text fit in `maximum` bytes.
fn count_fitting(chars: &Vec<char>, maximum: usize) -> (k: usize)
    ensures
        fitting(chars@, maximum as nat, k as int),
{
    let mut used: usize = 0;
    let mut k: usize = 0;
    assert(chars@.take(0) =~= Seq::empty());
    while k < chars.len()
        invariant
            k <= chars.len(),
            used == byte_len(chars@.take(k as int)),
            used <= maximum,
        decreases chars.len() - k,
    {
        let width: usize = utf8_width(chars[k]);
        assert(chars@.take(k + 1).drop_last() =~= chars@.take(k as int));
        if width > maximum - used {
            return k;
        }
        used += width;
        k += 1;
    }
    k
}

/// Whether the text takes at most `maximum` bytes.
pub fn fits_in(s: &str, maximum: usize) -> (r: bool)
    ensures
        r == (byte_len(s@) <= maximum),
{
    let chars: Vec<char> = chars_of(s);
    let k: usize = count_fitting(&chars, maximum);
    assert(chars@.take(chars@.len() as int) =~= chars@);
    if k < chars.len() {
        proof {
            byte_len_grows(chars@, k + 1);
        }
    }
    k == chars.len()
}

/// As much of the text as fits in `maximum` bytes.
pub fn truncate_utf8(value: String, maximum: usize) -> (r: String)
    ensures
        byte_len(value@) <= maximum ==> r@ == value@,
        exists|k: int| #[trigger] fitting(value@, maximum as nat, k) && r@ == value@.take(k),
{
    let chars: Vec<char> = chars_of(value.as_str());
    let k: usize = count_fitting(&chars, maximum);
    assert(chars@.take(chars@.len() as int) =~= chars@);
    if k < chars.len() {
        proof {
            byte_len_grows(chars@, k + 1);
        }
    }
    assert(chars@.subrange(0, k as int) =~= chars@.take(k as int));
    string_between(&chars, 0, k)
}

/// A truncated text is a prefix that takes at most the given number of bytes.
pub proof fn truncation_is_a_prefix(s: Seq<char>, maximum: nat, k: int)
    requires
        fitting(s, maximum, k),
    ensures
        begins_with(s, s.take(k)),
        byte_len(s.take(k)) <= maximum,
{
    assert(s.subrange(0, s.take(k).len() as int) =~= s.take(k));
}

/// The value of a decimal digit.
pub open spec fn digit_value(c: char) -> Option<nat> {
    if '0' <= c <= '9' {
        Some((c as u32 - '0' as u32) as nat)
    } else {
        None
    }
}

/// The number that a sequence of decimal digits stands for.
pub open spec fn number(s: Seq<char>) -> Option<nat>
    decreases s.len(),
{
    if s.len() == 0 {
        Some(0)
    } else {
        match (number(s.drop_last()), digit_value(s.last())) {
            (Some(n), Some(d)) => Some(n * 10 + d),
            _ => None,
        }
    }
}

/// What `str::parse::<usize>` reads: digits, with an optional plus sign before them.
pub open spec fn parsed(s: Seq<char>) -> Option<nat> {
    let digits = if s.len() > 0 && s[0] == '+' {
        s.subrange(1, s.len() as int)
    } else {
        s
    };
    if digits.len() == 0 {
        None
    } else {
        number(digits)
    }
}

proof fn bad_number(s: Seq<char>, k: int)
    requires
        0 <= k <= s.len(),
        number(s.take(k)) is None,
    ensures
        number(s) is None,
    decreases s.len() - k,
{
    if k == s.len() {
        assert(s.take(k) =~= s);
    } else {
        assert(s.take(k + 1).drop_last() =~= s.take(k));
        bad_number(s, k + 1);
    }
}

proof fn large_number(s: Seq<char>, k: int)
    requires
        0 <= k <= s.len(),
        number(s.take(k)) is Some,
        number(s) is Some,
    ensures
        number(s.take(k))->0 <= number(s)->0,
    decreases s.len() - k,
{
    if k == s.len() {
        assert(s.take(k) =~= s);
    } else {
        assert(s.take(k + 1).drop_last() =~= s.take(k));
        if number(s.take(k + 1)) is None {
            bad_number(s, k + 1);
        }
        large_number(s, k + 1);
    }
}

/// The number in a text; `None` where there is none or it does not fit.
pub fn parse_number(s: &str) -> (r: Option<usize>)
    ensures
        match r {
            Some(n) => parsed(s@) == Some(n as nat),
            None => match parsed(s@) {
                Some(n) => n > usize::MAX,
                None => true,
            },
        },
{
    let chars: Vec<char> = chars_of(s);
    let from: usize = if chars.len() > 0 && chars[0] == '+' {
        1
    } else {
        0
    };
    if from == chars.len() {
        return None;
    }
    let ghost digits = chars@.subrange(from as int, chars@.len() as int);
    assert(from == 0 ==> digits =~= chars@);
    assert(digits.take(0) =~= Seq::empty());
    let mut value: usize = 0;
    let mut i: usize = from;
    while i < chars.len()
        invariant
            from <= i <= chars.len(),
            digits == chars@.subrange(from as int, chars@.len() as int),
            digits.len() > 0,
            parsed(s@) == number(digits),
            number(digits.take(i - from)) == Some(value as nat),
        decreases chars.len() - i,
    {
        let c: char = chars[i];
        let ghost next = digits.take(i - from + 1);
        assert(next.drop_last() =~= digits.take(i - from));
        assert(next.last() == c);
        if c < '0' || c > '9' {
            proof {
                bad_number(digits, i - from + 1);
            }
            return None;
        }
        let d: usize = (c as u32 - '0' as u32) as usize;
        if value > (usize::MAX - d) / 10 {
            proof {
                assert(value * 10 + d > usize::MAX);
                if number(digits) is Some {
                    large_number(digits, i - from + 1);
                }
            }
            return None;
        }
        value = value * 10 + d;
        i += 1;
    }
    assert(digits.take(digits.len() as int) =~= digits);
    Some(value)
}

/// `c` with an upper-case Latin letter made lower-case.
pub open spec fn ascii_lower(c: char) -> char {
    if 0x41 <= c as u32 <= 0x5a {
        (c as u32 + 32) as char
    } else {
        c
    }
}

/// `c` with a lower-case Latin letter made upper-case.
pub open spec fn ascii_upper(c: char) -> char {
    if 0x61 <= c as u32 <= 0x7a {
        (c as u32 - 32) as char
    } else {
        c
    }
}

/// A text with its upper-case Latin letters made lower-case.
pub open spec fn ascii_lowered(s: Seq<char>) -> Seq<char> {
    s.map_values(|c: char| ascii_lower(c))
}

fn letter(upper: bool, n: u8) -> (r: char)
    requires
        n < 26,
    ensures
        r as u32 == n + (if upper { 0x41int } else { 0x61int }),
{
    let code: u8 = n + (if upper { 0x41u8 } else { 0x61u8 });
    code as char
}

/// `c` with an upper-case Latin letter made lower-case (`char::to_ascii_lowercase`).
pub fn to_lower(c: char) -> (r: char)
    ensures
        r == ascii_lower(c),
{
    let n: u32 = c as u32;
    if 0x41 <= n && n <= 0x5a {
        letter(false, (n - 0x41) as u8)
    } else {
        c
    }
}

/// `c` with a lower-case Latin letter made upper-case (`char::to_ascii_uppercase`).
pub fn to_upper(c: char) -> (r: char)
    ensures
        r == ascii_upper(c),
{
    let n: u32 = c as u32;
    if 0x61 <= n && n <= 0x7a {
        letter(true, (n - 0x61) as u8)
    } else {
        c
    }
}

/// A text with its upper-case Latin letters made lower-case (`str::to_ascii_lowercase`).
pub fn to_ascii_lower(s: &str) -> (r: String)
    ensures
        r@ == ascii_lowered(s@),
{
    let chars: Vec<char> = chars_of(s);
    let mut out = String::new();
    let mut i: usize = 0;
    while i < chars.len()
        invariant
            i <= chars.len(),
            out@ == ascii_lowered(chars@.take(i as int)),
        decreases chars.len() - i,
    {
        out.push(to_lower(chars[i]));
        assert(ascii_lowered(chars@.take(i + 1)) =~= ascii_lowered(chars@.take(i as int)).push(
            ascii_lower(chars@[i as int]),
        ));
        i += 1;
    }
    assert(chars@.take(chars@.len() as int) =~= chars@);
    out
}

/// The parts of a text between the separators.
pub open spec fn split(s: Seq<char>, separator: char) -> Seq<Seq<char>>
    decreases s.len(),
{
    if s.len() == 0 {
        seq![Seq::empty()]
    } else {
        let parts = split(s.drop_last(), separator);
        if s.last() == separator {
            parts.push(Seq::empty())
        } else {
            parts.update(parts.len() - 1, parts[parts.len() - 1].push(s.last()))
        }
    }
}

/// There is always at least one part.
pub proof fn split_has_parts(s: Seq<char>, separator: char)
    ensures
        split(s, separator).len() > 0,
    decreases s.len(),
{
    if s.len() > 0 {
        split_has_parts(s.drop_last(), separator);
    }
}

/// Splits a text at a separator.
pub fn split_text(s: &str, separator: char) -> (r: Vec<String>)
    ensures
        views(r@) == split(s@, separator),
        r@.len() > 0,
{
    let chars: Vec<char> = chars_of(s);
    let mut parts: Vec<String> = Vec::new();
    let mut part: String = "".to_owned();
    let mut i: usize = 0;
    proof {
        reveal_strlit("");
        assert(part@ =~= Seq::<char>::empty());
        assert(chars@.take(0) =~= Seq::<char>::empty());
        assert(views(parts@).push(part@) =~= seq![Seq::<char>::empty()]);
    }
    while i < chars.len()
        invariant
            i <= chars@.len(),
            views(parts@).push(part@) == split(chars@.take(i as int), separator),
        decreases chars@.len() - i,
    {
        let c: char = chars[i];
        let ghost before = views(parts@).push(part@);
        let ghost prefix = chars@.take(i + 1);
        proof {
            assert(prefix.drop_last() =~= chars@.take(i as int));
            assert(prefix.last() == c);
        }
        if c == separator {
            parts.push(part);
            part = "".to_owned();
            proof {
                reveal_strlit("");
                assert(part@ =~= Seq::<char>::empty());
                assert(views(parts@) =~= before);
                assert(views(parts@).push(part@) =~= before.push(Seq::empty()));
            }
        } else {
            part.push(c);
            assert(views(parts@).push(part@) =~= before.update(
                before.len() - 1,
                before[before.len() - 1].push(c),
            ));
        }
        i += 1;
    }
    let ghost before = views(parts@).push(part@);
    parts.push(part);
    proof {
        assert(chars@.take(chars@.len() as int) =~= chars@);
        assert(views(parts@) =~= before);
        split_has_parts(s@, separator);
    }
    parts
}

/// The number of characters in front of byte `n`, if a character begins or
/// the text ends there.
pub open spec fn boundary(s: Seq<char>, n: int, k: int) -> bool {
    0 <= k <= s.len() && byte_len(s.take(k)) == n
}

proof fn bytes_in_order(s: Seq<char>, j: int, k: int)
    requires
        0 <= j <= k <= s.len(),
    ensures
        byte_len(s.take(j)) <= byte_len(s.take(k)),
{
    byte_len_grows(s.take(k), j);
    assert(s.take(k).take(j) =~= s.take(j));
}

/// No two positions stand in front of the same byte.
pub proof fn boundaries_are_single(s: Seq<char>, n: int, j: int, k: int)
    requires
        boundary(s, n, j),
        boundary(s, n, k),
    ensures
        j == k,
{
    if j < k {
        bytes_in_order(s, j + 1, k);
        assert(s.take(j + 1).drop_last() =~= s.take(j));
    } else if k < j {
        bytes_in_order(s, k + 1, j);
        assert(s.take(k + 1).drop_last() =~= s.take(k));
    }
}

/// Positions stand in the order of their bytes.
pub proof fn boundaries_are_ordered(s: Seq<char>, j: int, m: int, k: int, n: int)
    requires
        boundary(s, m, j),
        boundary(s, n, k),
        m <= n,
    ensures
        j <= k,
{
    if k < j {
        bytes_in_order(s, k + 1, j);
        assert(s.take(k + 1).drop_last() =~= s.take(k));
    }
}

/// The number of characters in front of a byte.
pub fn char_at_byte(chars: &Vec<char>, n: usize) -> (r: Option<usize>)
    ensures
        match r {
            Some(k) => boundary(chars@, n as int, k as int),
            None => forall|k: int| !boundary(chars@, n as int, k),
        },
{
    let k: usize = count_fitting(chars, n);
    let mut used: usize = 0;
    let mut i: usize = 0;
    assert(chars@.take(0) =~= Seq::<char>::empty());
    proof {
        bytes_in_order(chars@, 0, k as int);
    }
    while i < k
        invariant
            i <= k <= chars@.len(),
            used == byte_len(chars@.take(i as int)),
            byte_len(chars@.take(k as int)) <= n,
        decreases k - i,
    {
        assert(chars@.take(i + 1).drop_last() =~= chars@.take(i as int));
        proof {
            bytes_in_order(chars@, i + 1, k as int);
        }
        used += utf8_width(chars[i]);
        i += 1;
    }
    if used == n {
        return Some(k);
    }
    proof {
        assert forall|j: int| !boundary(chars@, n as int, j) by {
            if 0 <= j <= k {
                bytes_in_order(chars@, j, k as int);
            } else if k < j <= chars@.len() {
                bytes_in_order(chars@, k + 1, j);
            }
        }
    }
    None
}

/// Where a part first occurs in a text, counted from `from`; behind the text
/// if it does not occur.
pub open spec fn first_at(s: Seq<char>, part: Seq<char>, from: int) -> int
    decreases s.len() - from,
{
    if from >= s.len() || from + part.len() > s.len() {
        s.len() as int
    } else if has_at(s, part, from) {
        from
    } else {
        first_at(s, part, from + 1)
    }
}

/// The pieces of a text between the places where a part occurs.
pub open spec fn pieces(s: Seq<char>, part: Seq<char>) -> Seq<Seq<char>>
    decreases s.len(),
{
    let at = first_at(s, part, 0);
    if part.len() == 0 || at < 0 || at + part.len() > s.len() {
        seq![s]
    } else {
        seq![s.take(at)] + pieces(s.skip(at + part.len()), part)
    }
}

pub(crate) fn find_at(s: &Vec<char>, part: &Vec<char>, from: usize) -> (r: usize)
    requires
        from <= s@.len(),
    ensures
        r == first_at(s@, part@, from as int),
        from <= r <= s@.len(),
{
    let mut at: usize = from;
    while at < s.len() && part.len() <= s.len() - at
        invariant
            from <= at <= s@.len(),
            first_at(s@, part@, from as int) == first_at(s@, part@, at as int),
        decreases s@.len() - at,
    {
        if matches_at(s, part, at) {
            return at;
        }
        at += 1;
    }
    s.len()
}

/// The pieces of a text between the places where a part occurs.
pub fn split_pieces(s: &str, part: &str) -> (r: Vec<String>)
    requires
        part@.len() > 0,
    ensures
        views(r@) == pieces(s@, part@),
        r@.len() > 0,
{
    let needle: Vec<char> = chars_of(part);
    let mut out: Vec<String> = Vec::new();
    let mut rest: Vec<char> = chars_of(s);
    assert(views(out@) + pieces(rest@, part@) =~= pieces(s@, part@));
    loop
        invariant
            needle@ == part@,
            part@.len() > 0,
            views(out@) + pieces(rest@, part@) == pieces(s@, part@),
        ensures
            views(out@) + seq![rest@] == pieces(s@, part@),
        decreases rest@.len(),
    {
        let at: usize = find_at(&rest, &needle, 0);
        if needle.len() > rest.len() - at {
            break;
        }
        let head: String = string_between(&rest, 0, at);
        let tail: String = string_between(&rest, at + needle.len(), rest.len());
        proof {
            assert(rest@.subrange(0, at as int) =~= rest@.take(at as int));
            assert(rest@.subrange(at + needle@.len(), rest@.len() as int) =~= rest@.skip(
                at + needle@.len(),
            ));
            assert(views(out@.push(head)) =~= views(out@).push(head@));
            assert(views(out@).push(head@) + pieces(tail@, part@) =~= views(out@) + (seq![head@]
                + pieces(tail@, part@)));
        }
        out.push(head);
        rest = chars_of(tail.as_str());
    }
    let last: String = string_of(&rest);
    assert(views(out@.push(last)) =~= views(out@) + seq![last@]);
    out.push(last);
    out
}

/// A number that is written is read back.
pub proof fn numbers_are_read_back(n: nat)
    ensures
        number(decimal(n)) == Some(n),
        parsed(decimal(n)) == Some(n),
    decreases n,
{
    let s = decimal(n);
    if n < 10 {
        assert(s.drop_last() =~= Seq::<char>::empty());
        assert(number(s.drop_last()) == Some(0nat));
        assert(s.last() == digit(n as int));
    } else {
        numbers_are_read_back(n / 10);
        assert(s.drop_last() =~= decimal(n / 10));
        assert(s.last() == digit((n % 10) as int));
    }
    decimal_has_digits(n);
    digits_are_digits(n, 0);
}

proof fn digits_are_digits(n: nat, i: int)
    requires
        0 <= i < decimal(n).len(),
    ensures
        '0' <= decimal(n)[i] <= '9',
    decreases n,
{
    if n >= 10 {
        if i < decimal(n / 10).len() {
            digits_are_digits(n / 10, i);
        }
    }
}

/// Each of the joined texts stands in the whole, and they stand in their order.
pub proof fn joined_texts_stand_in_the_whole(
    v: Seq<Seq<char>>,
    separator: Seq<char>,
    i: int,
) -> (r: (Seq<char>, Seq<char>))
    requires
        0 <= i < v.len(),
    ensures
        join(v, separator) == r.0 + v[i] + r.1,
        r.0 == join(v.take(i), separator) + (if i == 0 {
            Seq::empty()
        } else {
            separator
        }),
    decreases v.len(),
{
    let all = join(v, separator);
    if v.len() == 1 {
        assert(v.take(0).len() == 0);
        let r = (Seq::<char>::empty(), Seq::<char>::empty());
        assert(all =~= r.0 + v[i] + r.1);
        r
    } else if i == v.len() - 1 {
        let r = (join(v.drop_last(), separator) + separator, Seq::<char>::empty());
        assert(v.take(i) =~= v.drop_last());
        assert(all =~= r.0 + v[i] + r.1);
        r
    } else {
        let front = v.drop_last();
        let (a, b) = joined_texts_stand_in_the_whole(front, separator, i);
        assert(front.take(i) =~= v.take(i));
        let r = (a, b + separator + v.last());
        assert(all =~= a + v[i] + (b + separator + v.last()));
        r
    }
}

/// Trimming takes white space from both ends, and nothing else.
pub proof fn trimming_takes_white_space(s: Seq<char>) -> (r: (Seq<char>, Seq<char>))
    ensures
        s == r.0 + trim(s) + r.1,
        forall|i: int| 0 <= i < r.0.len() ==> white_space(#[trigger] r.0[i]),
        forall|i: int| 0 <= i < r.1.len() ==> white_space(#[trigger] r.1[i]),
        trim(s).len() > 0 ==> !white_space(trim(s)[0]) && !white_space(trim(s).last()),
{
    let front = start_is_white(s);
    let rest = trim_start(s);
    let back = end_is_white(rest);
    assert(s =~= front + trim(s) + back);
    (front, back)
}

proof fn start_is_white(s: Seq<char>) -> (r: Seq<char>)
    ensures
        s == r + trim_start(s),
        forall|i: int| 0 <= i < r.len() ==> white_space(#[trigger] r[i]),
        trim_start(s).len() > 0 ==> !white_space(trim_start(s)[0]),
    decreases s.len(),
{
    if s.len() > 0 && white_space(s[0]) {
        let rest = s.subrange(1, s.len() as int);
        let more = start_is_white(rest);
        let r = seq![s[0]] + more;
        assert(s =~= seq![s[0]] + rest);
        assert(s =~= r + trim_start(s));
        assert forall|i: int| 0 <= i < r.len() implies white_space(#[trigger] r[i]) by {
            if i > 0 {
                assert(r[i] == more[i - 1]);
            }
        }
        r
    } else {
        assert(s =~= Seq::<char>::empty() + s);
        Seq::empty()
    }
}

proof fn end_is_white(s: Seq<char>) -> (r: Seq<char>)
    ensures
        s == trim_end(s) + r,
        forall|i: int| 0 <= i < r.len() ==> white_space(#[trigger] r[i]),
        trim_end(s).len() > 0 ==> !white_space(trim_end(s).last()) && trim_end(s)[0] == s[0],
    decreases s.len(),
{
    if s.len() > 0 && white_space(s.last()) {
        let rest = s.drop_last();
        let more = end_is_white(rest);
        let r = more.push(s.last());
        assert(s =~= rest.push(s.last()));
        assert(s =~= trim_end(s) + r);
        assert forall|i: int| 0 <= i < r.len() implies white_space(#[trigger] r[i]) by {
            if i < more.len() {
                assert(r[i] == more[i]);
            }
        }
        r
    } else {
        assert(s =~= s + Seq::<char>::empty());
        Seq::empty()
    }
}

/// The parts of a split text, joined again, are the text, and none of them holds the
/// separator.
pub proof fn parts_make_the_text(s: Seq<char>, separator: char)
    ensures
        join(split(s, separator), seq![separator]) == s,
        forall|i: int|
            0 <= i < split(s, separator).len() ==> !(#[trigger] split(s, separator)[i]).contains(
                separator,
            ),
    decreases s.len(),
{
    let all = split(s, separator);
    if s.len() == 0 {
        assert(join(all, seq![separator]) =~= s);
        assert(!Seq::<char>::empty().contains(separator));
    } else {
        let parts = split(s.drop_last(), separator);
        parts_make_the_text(s.drop_last(), separator);
        split_has_parts(s.drop_last(), separator);
        let n = parts.len() as int;
        if s.last() == separator {
            assert(all.drop_last() =~= parts);
            assert(join(all, seq![separator]) =~= s.drop_last() + seq![separator]);
            assert(s =~= s.drop_last() + seq![separator]);
            assert(!Seq::<char>::empty().contains(separator));
        } else {
            let last = parts[n - 1].push(s.last());
            assert(s =~= s.drop_last() + seq![s.last()]);
            assert(all.drop_last() =~= parts.drop_last());
            assert(join(all, seq![separator]) =~= s);
            assert(!last.contains(separator)) by {
                if last.contains(separator) {
                    let j = choose|j: int| 0 <= j < last.len() && last[j] == separator;
                    assert(parts[n - 1][j] == separator);
                    assert(parts[n - 1].contains(separator));
                }
            }
        }
    }
}

/// Small letters stand for the capital ones, and everything else stays.
pub proof fn lowering_keeps_the_rest(s: Seq<char>, i: int)
    requires
        0 <= i < s.len(),
    ensures
        ascii_lowered(s).len() == s.len(),
        0x41 <= s[i] as u32 <= 0x5a ==> ascii_lowered(s)[i] as u32 == s[i] as u32 + 0x20,
        !(0x41 <= s[i] as u32 <= 0x5a) ==> ascii_lowered(s)[i] == s[i],
{
}

/// A written number is made of digits, at least one.
pub proof fn numbers_have_digits(n: nat, i: int)
    ensures
        decimal(n).len() > 0,
        0 <= i < decimal(n).len() ==> '0' <= decimal(n)[i] <= '9',
{
    decimal_has_digits(n);
    if 0 <= i < decimal(n).len() {
        digits_are_digits(n, i);
    }
}

} // verus!
