//! Text helpers shared by the recorder, synthesizer and code generator.
//!
//! Everything here works on the `Seq<char>` view of strings, so that the
//! contracts of the rest of the library can speak of exact text.
use vstd::prelude::*;

verus! {

// ── Appending ────────────────────────────────────────────────────────────────

/// Appends one character (std `String::push`).
#[verifier::external_body]
pub fn push_char(s: &mut String, c: char)
    ensures
        final(s)@ == old(s)@.push(c),
{
    s.push(c);
}

/// Appends a string slice.
pub fn push_str(s: &mut String, t: &str)
    ensures
        final(s)@ == old(s)@ + t@,
{
    s.append(t);
}

/// An owned copy of a string slice.
pub fn to_owned_string(t: &str) -> (r: String)
    ensures
        r@ == t@,
{
    let mut r = String::new();
    push_str(&mut r, t);
    r
}

/// A copy of an optional string.
pub fn clone_opt(o: &Option<String>) -> (r: Option<String>)
    ensures
        r.deep_view() == o.deep_view(),
{
    match o {
        Some(s) => Some(s.clone()),
        None => None,
    }
}

/// A copy of a vector of strings.
pub fn clone_strings(v: &Vec<String>) -> (r: Vec<String>)
    ensures
        r.deep_view() == v.deep_view(),
{
    let mut r: Vec<String> = Vec::new();
    let mut i: usize = 0;
    while i < v.len()
        invariant
            i <= v@.len(),
            r@.len() == i,
            forall|k: int| 0 <= k < i ==> #[trigger] r@[k]@ == v@[k]@,
        decreases v.len() - i,
    {
        r.push(v[i].clone());
        i = i + 1;
    }
    assert(r.deep_view() =~= v.deep_view());
    r
}

/// The concatenation of two strings as a new `String`.
pub fn concat(a: &str, b: &str) -> (r: String)
    ensures
        r@ == a@ + b@,
{
    let mut r = to_owned_string(a);
    push_str(&mut r, b);
    r
}

/// The characters of a string slice, in order.
pub fn chars_of(s: &str) -> (r: Vec<char>)
    ensures
        r@ == s@,
{
    let n = s.unicode_len();
    let mut r: Vec<char> = Vec::new();
    let mut i: usize = 0;
    while i < n
        invariant
            n == s@.len(),
            i <= n,
            r@ == s@.subrange(0, i as int),
        decreases n - i,
    {
        r.push(s.get_char(i));
        i = i + 1;
        assert(r@ =~= s@.subrange(0, i as int));
    }
    assert(r@ =~= s@);
    r
}

/// A string made of the given characters.
pub fn string_from_chars(cs: &Vec<char>) -> (r: String)
    ensures
        r@ == cs@,
{
    let mut r = String::new();
    let mut i: usize = 0;
    while i < cs.len()
        invariant
            i <= cs.len(),
            r@ == cs@.subrange(0, i as int),
        decreases cs.len() - i,
    {
        push_char(&mut r, cs[i]);
        i = i + 1;
        assert(r@ =~= cs@.subrange(0, i as int));
    }
    assert(r@ =~= cs@);
    r
}

// ── Character classes that std defines by Unicode tables ─────────────────────

/// Whether std's `char::is_alphanumeric` holds of a character.
pub uninterp spec fn unicode_alphanumeric(c: char) -> bool;

/// The Unicode `White_Space` property, which std's `char::is_whitespace`
/// tests: tab to carriage return, space, next line, no-break space, ogham
/// space mark, the spaces U+2000 to U+200A, line and paragraph separators,
/// narrow no-break space, medium mathematical space and ideographic space.
pub open spec fn unicode_whitespace(c: char) -> bool {
    let u = c as u32;
    ||| 0x9 <= u <= 0xD
    ||| u == 0x20
    ||| u == 0x85
    ||| u == 0xA0
    ||| u == 0x1680
    ||| 0x2000 <= u <= 0x200A
    ||| u == 0x2028
    ||| u == 0x2029
    ||| u == 0x202F
    ||| u == 0x205F
    ||| u == 0x3000
}

/// An ASCII letter or digit.
pub open spec fn ascii_alphanumeric(c: char) -> bool {
    ('0' <= c <= '9') || ('a' <= c <= 'z') || ('A' <= c <= 'Z')
}

/// ASCII lowercasing of one character: `A`..`Z` become `a`..`z`.
pub open spec fn ascii_lower(c: char) -> char {
    if 'A' <= c <= 'Z' {
        ((c as u32) + 32) as char
    } else {
        c
    }
}

/// ASCII uppercasing of one character: `a`..`z` become `A`..`Z`.
pub open spec fn ascii_upper(c: char) -> char {
    if 'a' <= c <= 'z' {
        ((c as u32) - 32) as char
    } else {
        c
    }
}

/// Every character of the text is ASCII.
pub open spec fn all_ascii(s: Seq<char>) -> bool {
    forall|i: int| 0 <= i < s.len() ==> (#[trigger] s[i] as u32) < 128
}

/// What std's `str::to_lowercase` makes of a text.
pub uninterp spec fn unicode_lowercase(s: Seq<char>) -> Seq<char>;

/// What std's `char::to_uppercase` makes of one character.
pub uninterp spec fn unicode_uppercase(c: char) -> Seq<char>;

/// std `char::is_alphanumeric`: Unicode `Alphabetic` or `Numeric`. The
/// contract names the result; the Unicode tables are not restated, except
/// for ASCII, where exactly the letters and digits are alphanumeric.
#[verifier::external_body]
pub fn is_alphanumeric(c: char) -> (r: bool)
    ensures
        r == unicode_alphanumeric(c),
        (c as u32) < 128 ==> r == ascii_alphanumeric(c),
{
    c.is_alphanumeric()
}

/// Whether a character is whitespace: the Unicode `White_Space` property,
/// as std's `char::is_whitespace` tests it.
pub fn is_whitespace(c: char) -> (r: bool)
    ensures
        r == unicode_whitespace(c),
{
    let u = c as u32;
    (0x9 <= u && u <= 0xD) || u == 0x20 || u == 0x85 || u == 0xA0 || u == 0x1680 || (0x2000 <= u && u <= 0x200A)
        || u == 0x2028 || u == 0x2029 || u == 0x202F || u == 0x205F || u == 0x3000
}

/// std `str::to_lowercase`. The contract names the result; the Unicode
/// case mapping is not restated, except for ASCII text, which is lowercased
/// character by character.
#[verifier::external_body]
pub fn to_lowercase(s: &str) -> (r: String)
    ensures
        r@ == unicode_lowercase(s@),
        all_ascii(s@) ==> r@ == s@.map_values(|c: char| ascii_lower(c)),
{
    s.to_lowercase()
}

/// std `char::to_uppercase`, collected into a `String`. The contract names
/// the result; the Unicode case mapping is not restated, except for ASCII,
/// where the result is the one uppercased character.
#[verifier::external_body]
pub fn char_to_uppercase(c: char) -> (r: String)
    ensures
        r@ == unicode_uppercase(c),
        (c as u32) < 128 ==> r@ == seq![ascii_upper(c)],
{
    c.to_uppercase().collect::<String>()
}

// ── Searching ────────────────────────────────────────────────────────────────

/// `pat` occurs in `s` at position `i`.
pub open spec fn occurs_at(s: Seq<char>, pat: Seq<char>, i: int) -> bool {
    0 <= i && i + pat.len() <= s.len() && s.subrange(i, i + pat.len()) == pat
}

/// `pat` occurs somewhere in `s` (as std `str::contains` with a `&str` pattern).
pub open spec fn has_substring(s: Seq<char>, pat: Seq<char>) -> bool {
    exists|i: int| occurs_at(s, pat, i)
}

/// `s` begins with `pat`.
pub open spec fn has_prefix(s: Seq<char>, pat: Seq<char>) -> bool {
    occurs_at(s, pat, 0)
}

fn matches_at(s: &Vec<char>, pat: &Vec<char>, i: usize) -> (r: bool)
    requires
        i + pat@.len() <= s@.len(),
    ensures
        r == occurs_at(s@, pat@, i as int),
{
    let plen = pat.len();
    let slen = s.len();
    let mut j: usize = 0;
    while j < plen
        invariant
            plen == pat@.len(),
            slen == s@.len(),
            i + pat@.len() <= s@.len(),
            j <= pat@.len(),
            forall|k: int| 0 <= k < j ==> s@[i + k] == pat@[k],
        decreases pat.len() - j,
    {
        if s[i + j] != pat[j] {
            assert(s@.subrange(i as int, i + pat@.len())[j as int] != pat@[j as int]);
            return false;
        }
        j = j + 1;
    }
    assert(s@.subrange(i as int, i + pat@.len()) =~= pat@);
    true
}

/// Whether `pat` occurs in `s`.
pub fn contains_str(s: &str, pat: &str) -> (r: bool)
    ensures
        r == has_substring(s@, pat@),
{
    let sc = chars_of(s);
    let pc = chars_of(pat);
    if pc.len() > sc.len() {
        return false;
    }
    if pc.len() == 0 {
        assert(s@.subrange(0, 0) =~= pat@);
        assert(occurs_at(s@, pat@, 0));
        return true;
    }
    let slen = sc.len();
    let last = slen - pc.len();
    let mut i: usize = 0;
    while i <= last
        invariant
            slen == sc@.len(),
            sc@ == s@,
            pc@ == pat@,
            last == sc@.len() - pc@.len(),
            pc@.len() > 0,
            i <= last + 1,
            forall|k: int| 0 <= k < i ==> !occurs_at(s@, pat@, k),
        decreases last + 1 - i,
    {
        if matches_at(&sc, &pc, i) {
            return true;
        }
        i = i + 1;
    }
    assert forall|k: int| !occurs_at(s@, pat@, k) by {
        if 0 <= k && k < i {
        }
    }
    false
}

/// Whether `s` begins with `pat`.
pub fn starts_with_str(s: &str, pat: &str) -> (r: bool)
    ensures
        r == has_prefix(s@, pat@),
{
    let sc = chars_of(s);
    let pc = chars_of(pat);
    if pc.len() > sc.len() {
        return false;
    }
    matches_at(&sc, &pc, 0)
}

/// Equality of two string slices.
pub fn str_eq(a: &str, b: &str) -> (r: bool)
    ensures
        r == (a@ == b@),
{
    let ac = chars_of(a);
    let bc = chars_of(b);
    if ac.len() != bc.len() {
        return false;
    }
    let r = matches_at(&ac, &bc, 0);
    assert(ac@.subrange(0, bc@.len() as int) =~= ac@);
    r
}

// ── Rewriting ────────────────────────────────────────────────────────────────

/// `s` with every occurrence of character `c` replaced by the text `by`
/// (std `str::replace` with a `char` pattern).
pub open spec fn replace_char_spec(s: Seq<char>, c: char, by: Seq<char>) -> Seq<char>
    decreases s.len(),
{
    if s.len() == 0 {
        Seq::empty()
    } else {
        replace_char_spec(s.drop_last(), c, by) + (if s.last() == c {
            by
        } else {
            seq![s.last()]
        })
    }
}

/// Replaces every occurrence of `c` in `s` by `by`.
pub fn replace_char(s: &str, c: char, by: &str) -> (r: String)
    ensures
        r@ == replace_char_spec(s@, c, by@),
{
    let sc = chars_of(s);
    let mut r = String::new();
    let mut i: usize = 0;
    while i < sc.len()
        invariant
            sc@ == s@,
            i <= sc@.len(),
            r@ == replace_char_spec(s@.subrange(0, i as int), c, by@),
        decreases sc.len() - i,
    {
        let ch = sc[i];
        if ch == c {
            push_str(&mut r, by);
        } else {
            push_char(&mut r, ch);
        }
        proof {
            assert(s@.subrange(0, i + 1).drop_last() =~= s@.subrange(0, i as int));
        }
        i = i + 1;
    }
    assert(s@.subrange(0, sc@.len() as int) =~= s@);
    r
}

/// A character removed by the crate-name trimmer: always `-`, and `_` when
/// `underscore` is set.
pub open spec fn is_trim_char(c: char, underscore: bool) -> bool {
    c == '-' || (underscore && c == '_')
}

/// `s` without its leading trim characters.
pub open spec fn trim_front(s: Seq<char>, underscore: bool) -> Seq<char>
    decreases s.len(),
{
    if s.len() > 0 && is_trim_char(s[0], underscore) {
        trim_front(s.drop_first(), underscore)
    } else {
        s
    }
}

/// `s` without its trailing trim characters.
pub open spec fn trim_back(s: Seq<char>, underscore: bool) -> Seq<char>
    decreases s.len(),
{
    if s.len() > 0 && is_trim_char(s.last(), underscore) {
        trim_back(s.drop_last(), underscore)
    } else {
        s
    }
}

/// `s` without leading and trailing trim characters (std `str::trim_matches`).
pub open spec fn trim_spec(s: Seq<char>, underscore: bool) -> Seq<char> {
    trim_back(trim_front(s, underscore), underscore)
}

proof fn lemma_trim_front_skip(s: Seq<char>, underscore: bool, i: int)
    requires
        0 <= i <= s.len(),
        forall|k: int| 0 <= k < i ==> is_trim_char(s[k], underscore),
    ensures
        trim_front(s, underscore) == trim_front(s.subrange(i, s.len() as int), underscore),
    decreases i,
{
    if i > 0 {
        lemma_trim_front_skip(s.drop_first(), underscore, i - 1);
        assert(s.drop_first().subrange(i - 1, s.drop_first().len() as int) =~= s.subrange(
            i,
            s.len() as int,
        ));
    } else {
        assert(s.subrange(0, s.len() as int) =~= s);
    }
}

proof fn lemma_trim_back_skip(s: Seq<char>, underscore: bool, j: int)
    requires
        0 <= j <= s.len(),
        forall|k: int| j <= k < s.len() ==> is_trim_char(s[k], underscore),
    ensures
        trim_back(s, underscore) == trim_back(s.subrange(0, j), underscore),
    decreases s.len() - j,
{
    if j < s.len() {
        lemma_trim_back_skip(s.drop_last(), underscore, j);
        assert(s.drop_last().subrange(0, j) =~= s.subrange(0, j));
    } else {
        assert(s.subrange(0, j) =~= s);
    }
}

/// Removes leading and trailing `-` (and `_` when `underscore` is set).
pub fn trim_dashes(s: &str, underscore: bool) -> (r: String)
    ensures
        r@ == trim_spec(s@, underscore),
{
    let sc = chars_of(s);
    let n = sc.len();
    let mut start: usize = 0;
    while start < n && (sc[start] == '-' || (underscore && sc[start] == '_'))
        invariant
            sc@ == s@,
            n == sc@.len(),
            start <= n,
            forall|k: int| 0 <= k < start ==> is_trim_char(s@[k], underscore),
        decreases n - start,
    {
        start = start + 1;
    }
    proof {
        lemma_trim_front_skip(s@, underscore, start as int);
    }
    let ghost front = s@.subrange(start as int, n as int);
    assert(trim_front(s@, underscore) == front) by {
        if front.len() > 0 {
            assert(front[0] == s@[start as int]);
        }
    }
    let mut end: usize = n;
    while end > start && (sc[end - 1] == '-' || (underscore && sc[end - 1] == '_'))
        invariant
            sc@ == s@,
            n == sc@.len(),
            start <= end <= n,
            front == s@.subrange(start as int, n as int),
            forall|k: int| end - start <= k < front.len() ==> is_trim_char(front[k], underscore),
        decreases end - start,
    {
        end = end - 1;
    }
    proof {
        lemma_trim_back_skip(front, underscore, end - start);
        let kept = front.subrange(0, end - start);
        if kept.len() > 0 {
            assert(kept.last() == s@[end - 1]);
        }
        assert(trim_back(kept, underscore) == kept);
    }
    let mut r = String::new();
    let mut i: usize = start;
    while i < end
        invariant
            sc@ == s@,
            start <= i <= end <= n,
            n == sc@.len(),
            r@ == s@.subrange(start as int, i as int),
        decreases end - i,
    {
        push_char(&mut r, sc[i]);
        i = i + 1;
        assert(r@ =~= s@.subrange(start as int, i as int));
    }
    assert(r@ =~= front.subrange(0, end - start));
    r
}

// ── Joining ──────────────────────────────────────────────────────────────────

/// The texts of `parts` joined by `sep` (std `[String]::join`).
pub open spec fn join_spec(parts: Seq<Seq<char>>, sep: Seq<char>) -> Seq<char>
    decreases parts.len(),
{
    if parts.len() == 0 {
        Seq::empty()
    } else if parts.len() == 1 {
        parts[0]
    } else {
        join_spec(parts.drop_last(), sep) + sep + parts.last()
    }
}

/// The views of a vector of strings.
pub open spec fn views(v: Seq<String>) -> Seq<Seq<char>> {
    v.map_values(|s: String| s@)
}

/// Joins strings with a separator.
pub fn join(parts: &Vec<String>, sep: &str) -> (r: String)
    ensures
        r@ == join_spec(views(parts@), sep@),
{
    let mut r = String::new();
    let mut i: usize = 0;
    while i < parts.len()
        invariant
            i <= parts@.len(),
            r@ == join_spec(views(parts@.subrange(0, i as int)), sep@),
        decreases parts.len() - i,
    {
        if i > 0 {
            push_str(&mut r, sep);
        }
        push_str(&mut r, parts[i].as_str());
        proof {
            assert(views(parts@.subrange(0, i + 1)).drop_last() =~= views(
                parts@.subrange(0, i as int),
            ));
            if i == 0 {
                assert(r@ =~= views(parts@.subrange(0, 1))[0]);
            }
        }
        i = i + 1;
    }
    assert(parts@.subrange(0, parts@.len() as int) =~= parts@);
    r
}

// ── Decimal numbers ──────────────────────────────────────────────────────────

/// The character of a decimal digit.
pub open spec fn digit_char(d: nat) -> char {
    if d == 0 {
        '0'
    } else if d == 1 {
        '1'
    } else if d == 2 {
        '2'
    } else if d == 3 {
        '3'
    } else if d == 4 {
        '4'
    } else if d == 5 {
        '5'
    } else if d == 6 {
        '6'
    } else if d == 7 {
        '7'
    } else if d == 8 {
        '8'
    } else {
        '9'
    }
}

/// The decimal text of a natural number, without leading zeros (as std's
/// `Display` for unsigned integers writes it).
pub open spec fn decimal(n: nat) -> Seq<char>
    decreases n,
{
    if n < 10 {
        seq![digit_char(n)]
    } else {
        decimal(n / 10).push(digit_char(n % 10))
    }
}

fn digit(d: u128) -> (c: char)
    requires
        d < 10,
    ensures
        c == digit_char(d as nat),
{
    if d == 0 {
        '0'
    } else if d == 1 {
        '1'
    } else if d == 2 {
        '2'
    } else if d == 3 {
        '3'
    } else if d == 4 {
        '4'
    } else if d == 5 {
        '5'
    } else if d == 6 {
        '6'
    } else if d == 7 {
        '7'
    } else if d == 8 {
        '8'
    } else {
        '9'
    }
}

/// Appends the decimal text of `n`.
pub fn push_decimal(s: &mut String, n: u128)
    ensures
        final(s)@ == old(s)@ + decimal(n as nat),
    decreases n,
{
    if n < 10 {
        push_char(s, digit(n));
        assert(seq![digit_char(n as nat)] =~= decimal(n as nat));
    } else {
        push_decimal(s, n / 10);
        push_char(s, digit(n % 10));
        assert(final(s)@ =~= old(s)@ + decimal(n as nat));
    }
}

/// The decimal text of `n` (std `to_string` on an unsigned integer).
pub fn decimal_string(n: u128) -> (r: String)
    ensures
        r@ == decimal(n as nat),
{
    let mut r = String::new();
    push_decimal(&mut r, n);
    assert(r@ =~= decimal(n as nat));
    r
}

/// `n` zeros.
pub open spec fn zeros(n: nat) -> Seq<char> {
    Seq::new(n, |i: int| '0')
}

/// `s` padded on the left with zeros to at least `width` characters
/// (std's `{:0>width$}` format).
pub open spec fn zero_pad(s: Seq<char>, width: nat) -> Seq<char> {
    if s.len() >= width {
        s
    } else {
        zeros((width - s.len()) as nat) + s
    }
}

/// Appends `n` in decimal, padded on the left with zeros to `width` characters.
pub fn push_padded_decimal(s: &mut String, n: u128, width: usize)
    ensures
        final(s)@ == old(s)@ + zero_pad(decimal(n as nat), width as nat),
{
    let digits = decimal_string(n);
    let len = digits.as_str().unicode_len();
    let ghost start = s@;
    if len < width {
        let mut k: usize = 0;
        while k < width - len
            invariant
                len < width,
                k <= width - len,
                s@ == start + zeros(k as nat),
            decreases width - len - k,
        {
            push_char(s, '0');
            k = k + 1;
            assert(s@ =~= start + zeros(k as nat));
        }
    }
    push_str(s, digits.as_str());
    assert(s@ =~= start + zero_pad(decimal(n as nat), width as nat));
}

} // verus!

verus! {

// ── Fixed-point amounts ──────────────────────────────────────────────────────

/// Ten to the power `d`.
pub open spec fn pow10(d: nat) -> nat
    decreases d,
{
    if d == 0 {
        1
    } else {
        10 * pow10((d - 1) as nat)
    }
}

/// `pow10` grows with its exponent.
pub proof fn lemma_pow10_monotone(a: nat, b: nat)
    requires
        a <= b,
    ensures
        1 <= pow10(a) <= pow10(b),
    decreases b,
{
    if b > a {
        lemma_pow10_monotone(a, (b - 1) as nat);
    } else if a > 0 {
        lemma_pow10_monotone((a - 1) as nat, (a - 1) as nat);
    }
}

/// `10^d` for `d <= 38` (the largest power of ten a `u128` holds).
pub fn pow10_u128(d: u8) -> (r: u128)
    requires
        d <= 38,
    ensures
        r as nat == pow10(d as nat),
{
    assert(pow10(38) == 100000000000000000000000000000000000000nat) by {
        reveal_with_fuel(pow10, 39);
    }
    let mut r: u128 = 1;
    let mut k: u8 = 0;
    while k < d
        invariant
            k <= d <= 38,
            r as nat == pow10(k as nat),
            pow10(38) == 100000000000000000000000000000000000000nat,
        decreases d - k,
    {
        proof {
            lemma_pow10_monotone((k + 1) as nat, 38);
        }
        r = r * 10;
        k = k + 1;
    }
    r
}

/// `raw` written with `d` decimal places: the whole part, a point, and the
/// fraction padded with zeros to `d` digits (`format!("{}.{:0>d$}", ..)`).
pub open spec fn fixed_point(raw: nat, d: nat) -> Seq<char> {
    decimal(raw / pow10(d)) + seq!['.'] + zero_pad(decimal(raw % pow10(d)), d)
}

/// Appends `raw` with `d` decimal places.
pub fn push_fixed_point(s: &mut String, raw: u128, d: u8)
    requires
        d <= 38,
    ensures
        final(s)@ == old(s)@ + fixed_point(raw as nat, d as nat),
{
    let divisor = pow10_u128(d);
    proof {
        lemma_pow10_monotone(0, d as nat);
    }
    let whole = raw / divisor;
    let frac = raw % divisor;
    push_decimal(s, whole);
    push_char(s, '.');
    push_padded_decimal(s, frac, d as usize);
    assert(final(s)@ =~= old(s)@ + fixed_point(raw as nat, d as nat));
}

} // verus!

verus! {

// ── Parsing unsigned integers ────────────────────────────────────────────────

/// An ASCII decimal digit.
pub open spec fn is_digit(c: char) -> bool {
    '0' <= c && c <= '9'
}

/// The value of a string of decimal digits.
pub open spec fn digits_value(s: Seq<char>) -> nat
    decreases s.len(),
{
    if s.len() == 0 {
        0
    } else {
        digits_value(s.drop_last()) * 10 + (s.last() as nat - '0' as nat) as nat
    }
}

/// The text after an optional leading `+`.
pub open spec fn sign_stripped(s: Seq<char>) -> Seq<char> {
    if s.len() > 0 && s[0] == '+' {
        s.drop_first()
    } else {
        s
    }
}

/// What std's `str::parse::<u128>` gives: an optional `+` sign, then one or
/// more decimal digits whose value fits a `u128`; otherwise an error.
pub open spec fn parse_u128_spec(s: Seq<char>) -> Option<u128> {
    let body = sign_stripped(s);
    if body.len() == 0 || !(forall|i: int| 0 <= i < body.len() ==> is_digit(#[trigger] body[i])) {
        None
    } else if digits_value(body) > u128::MAX {
        None
    } else {
        Some(digits_value(body) as u128)
    }
}

/// A string of digits whose prefix already exceeds a bound still does.
proof fn lemma_digits_value_grows(s: Seq<char>, k: int)
    requires
        0 <= k <= s.len(),
        forall|i: int| 0 <= i < s.len() ==> is_digit(#[trigger] s[i]),
    ensures
        digits_value(s) >= digits_value(s.subrange(0, k)),
    decreases s.len() - k,
{
    if k < s.len() {
        lemma_digits_value_grows(s.drop_last(), if k < s.len() - 1 { k } else { s.len() - 1 });
        assert(s.drop_last().subrange(0, if k < s.len() - 1 { k } else { s.len() - 1 }) =~= s.subrange(
            0,
            if k < s.len() - 1 { k } else { s.len() - 1 },
        ));
        if k == s.len() - 1 {
            assert(s.subrange(0, k) =~= s.drop_last());
        } else {
            lemma_digits_value_grows(s.drop_last(), k);
        }
    } else {
        assert(s.subrange(0, k) =~= s);
    }
}

/// Parses a decimal `u128` as std's `str::parse::<u128>` does; `None` for an error.
pub fn parse_u128(s: &str) -> (r: Option<u128>)
    ensures
        r == parse_u128_spec(s@),
{
    let cs = chars_of(s);
    let mut start: usize = 0;
    if cs.len() > 0 && cs[0] == '+' {
        start = 1;
    }
    let ghost body = sign_stripped(s@);
    assert(body =~= s@.subrange(start as int, s@.len() as int));
    if start == cs.len() {
        return None;
    }
    let mut value: u128 = 0;
    let mut i: usize = start;
    while i < cs.len()
        invariant
            cs@ == s@,
            start <= i <= cs@.len(),
            body == s@.subrange(start as int, s@.len() as int),
            body == sign_stripped(s@),
            body.len() > 0,
            forall|j: int| start <= j < i ==> is_digit(#[trigger] s@[j]),
            value as nat == digits_value(s@.subrange(start as int, i as int)),
        decreases cs.len() - i,
    {
        let c = cs[i];
        if !('0' <= c && c <= '9') {
            assert(!is_digit(body[i - start]));
            assert(parse_u128_spec(s@) is None);
            return None;
        }
        let d: u128 = ((c as u32) - ('0' as u32)) as u128;
        let ghost prefix = s@.subrange(start as int, i + 1);
        assert(prefix.drop_last() =~= s@.subrange(start as int, i as int));
        assert(digits_value(prefix) == value * 10 + d);
        assert(is_digit(s@[i as int]));
        match value.checked_mul(10) {
            Some(v10) => match v10.checked_add(d) {
                Some(v) => {
                    value = v;
                },
                None => {
                    proof {
                        lemma_overflow_stays(s@, start as int, i as int, body);
                    }
                    assert(parse_u128_spec(s@) is None);
                    return None;
                },
            },
            None => {
                proof {
                    lemma_overflow_stays(s@, start as int, i as int, body);
                }
                return None;
            },
        }
        i = i + 1;
    }
    assert(s@.subrange(start as int, cs@.len() as int) =~= body);
    Some(value)
}

/// Once the digits up to `i` exceed `u128::MAX`, the whole string either
/// fails to parse or exceeds it too.
proof fn lemma_overflow_stays(s: Seq<char>, start: int, i: int, body: Seq<char>)
    requires
        0 <= start <= i < s.len(),
        body == s.subrange(start, s.len() as int),
        is_digit(s[i]),
        digits_value(s.subrange(start, i + 1)) > u128::MAX,
    ensures
        body.len() == 0 || !(forall|j: int| 0 <= j < body.len() ==> is_digit(#[trigger] body[j]))
            || digits_value(body) > u128::MAX,
{
    if forall|j: int| 0 <= j < body.len() ==> is_digit(#[trigger] body[j]) {
        lemma_digits_value_grows(body, i + 1 - start);
        assert(body.subrange(0, i + 1 - start) =~= s.subrange(start, i + 1));
    }
}

} // verus!

verus! {

/// Whether a vector of strings holds `s`.
pub fn contains_string(v: &Vec<String>, s: &str) -> (r: bool)
    ensures
        r == v.deep_view().contains(s@),
{
    let ghost dv = v.deep_view();
    let mut i: usize = 0;
    while i < v.len()
        invariant
            dv == v.deep_view(),
            dv.len() == v@.len(),
            i <= v@.len(),
            forall|j: int| 0 <= j < i ==> dv[j] != s@,
        decreases v.len() - i,
    {
        assert(dv[i as int] == v@[i as int]@);
        if str_eq(v[i].as_str(), s) {
            assert(dv[i as int] == s@);
            return true;
        }
        i = i + 1;
    }
    false
}

} // verus!

verus! {

/// The decimal text of a number is a string of digits worth that number.
pub proof fn lemma_decimal_digits(n: nat)
    ensures
        decimal(n).len() > 0,
        forall|i: int| 0 <= i < decimal(n).len() ==> is_digit(#[trigger] decimal(n)[i]),
        digits_value(decimal(n)) == n,
    decreases n,
{
    if n < 10 {
        let s = decimal(n);
        assert(s.drop_last() =~= Seq::<char>::empty());
        assert(s.last() == digit_char(n));
        assert(digit_char(n) as nat - '0' as nat == n);
        assert(digits_value(s.drop_last()) == 0);
        assert(digits_value(s) == n);
    } else {
        lemma_decimal_digits(n / 10);
        let s = decimal(n);
        assert(s.drop_last() =~= decimal(n / 10));
        assert(s.last() == digit_char(n % 10));
        assert(digit_char(n % 10) as nat - '0' as nat == n % 10);
        assert(is_digit(digit_char(n % 10)));
        assert(n == (n / 10) * 10 + n % 10);
        assert(digits_value(s) == digits_value(decimal(n / 10)) * 10 + n % 10);
    }
}

/// Parsing the decimal text of a `u128` gives it back.
pub proof fn lemma_parse_decimal(n: u128)
    ensures
        parse_u128_spec(decimal(n as nat)) == Some(n),
{
    lemma_decimal_digits(n as nat);
    let s = decimal(n as nat);
    assert(is_digit(s[0]));
    assert(sign_stripped(s) == s);
}

} // verus!

verus! {

// ── Crate names and type names ───────────────────────────────────────────────

/// The character a crate name keeps for `c`: letters, digits, `-` and `_`
/// stay, anything else becomes `-`.
pub open spec fn crate_char(c: char) -> char {
    if unicode_alphanumeric(c) || c == '-' || c == '_' {
        c
    } else {
        '-'
    }
}

/// A crate name made of `name`: leading and trailing `-` (and `_` when
/// `underscore` is set) removed, other characters mapped by [`crate_char`],
/// then lowercased.
pub open spec fn sanitize_spec(name: Seq<char>, underscore: bool) -> Seq<char> {
    unicode_lowercase(trim_spec(name, underscore).map_values(|c: char| crate_char(c)))
}

/// [`crate_char`] on ASCII: letters, digits, `-` and `_` are kept, any
/// other character becomes `-`.
pub open spec fn ascii_crate_char(c: char) -> char {
    if ascii_alphanumeric(c) || c == '-' || c == '_' {
        c
    } else {
        '-'
    }
}

/// [`sanitize_spec`] of an ASCII name: trimmed, mapped by
/// [`ascii_crate_char`], and lowercased character by character.
pub open spec fn ascii_sanitize_spec(name: Seq<char>, underscore: bool) -> Seq<char> {
    trim_spec(name, underscore).map_values(|c: char| ascii_lower(ascii_crate_char(c)))
}

proof fn lemma_trim_front_ascii(s: Seq<char>, underscore: bool)
    requires
        all_ascii(s),
    ensures
        all_ascii(trim_front(s, underscore)),
    decreases s.len(),
{
    if s.len() > 0 && is_trim_char(s[0], underscore) {
        assert forall|i: int| 0 <= i < s.drop_first().len() implies (#[trigger] s.drop_first()[i] as u32) < 128 by {
            assert(s.drop_first()[i] == s[i + 1]);
        }
        lemma_trim_front_ascii(s.drop_first(), underscore);
    }
}

proof fn lemma_trim_back_ascii(s: Seq<char>, underscore: bool)
    requires
        all_ascii(s),
    ensures
        all_ascii(trim_back(s, underscore)),
    decreases s.len(),
{
    if s.len() > 0 && is_trim_char(s.last(), underscore) {
        assert forall|i: int| 0 <= i < s.drop_last().len() implies (#[trigger] s.drop_last()[i] as u32) < 128 by {
            assert(s.drop_last()[i] == s[i]);
        }
        lemma_trim_back_ascii(s.drop_last(), underscore);
    }
}

/// Makes a crate name of `name` (see [`sanitize_spec`]); for an ASCII name
/// the result is [`ascii_sanitize_spec`].
pub fn sanitize_name(name: &str, underscore: bool) -> (r: String)
    ensures
        r@ == sanitize_spec(name@, underscore),
        all_ascii(name@) ==> r@ == ascii_sanitize_spec(name@, underscore),
{
    let trimmed = trim_dashes(name, underscore);
    let cs = chars_of(trimmed.as_str());
    proof {
        if all_ascii(name@) {
            lemma_trim_front_ascii(name@, underscore);
            lemma_trim_back_ascii(trim_front(name@, underscore), underscore);
        }
    }
    let mut out: Vec<char> = Vec::new();
    let mut i: usize = 0;
    while i < cs.len()
        invariant
            i <= cs@.len(),
            out@ == cs@.subrange(0, i as int).map_values(|c: char| crate_char(c)),
            all_ascii(cs@) ==> out@ == cs@.subrange(0, i as int).map_values(|c: char| ascii_crate_char(c)),
        decreases cs.len() - i,
    {
        let c = cs[i];
        let kept = if is_alphanumeric(c) || c == '-' || c == '_' {
            c
        } else {
            '-'
        };
        proof {
            if all_ascii(cs@) {
                assert((cs@[i as int] as u32) < 128);
            }
        }
        out.push(kept);
        i = i + 1;
        assert(out@ =~= cs@.subrange(0, i as int).map_values(|c: char| crate_char(c)));
        assert(all_ascii(cs@) ==> out@ =~= cs@.subrange(0, i as int).map_values(|c: char| ascii_crate_char(c)));
    }
    assert(cs@.subrange(0, cs@.len() as int) =~= cs@);
    let mapped = string_from_chars(&out);
    proof {
        if all_ascii(cs@) {
            assert forall|k: int| 0 <= k < mapped@.len() implies (#[trigger] mapped@[k] as u32) < 128 by {
                assert(mapped@[k] == ascii_crate_char(cs@[k]));
            }
        }
    }
    let r = to_lowercase(mapped.as_str());
    proof {
        if all_ascii(name@) {
            assert(r@ =~= ascii_sanitize_spec(name@, underscore));
        }
    }
    r
}

/// A word separator in a crate name.
pub open spec fn is_word_sep(c: char) -> bool {
    c == '-' || c == '_'
}

/// The PascalCase form of `s`, where `start` says a word begins at its
/// first character: separators dropped, each word's first character uppercased.
pub open spec fn pascal_from(s: Seq<char>, start: bool) -> Seq<char>
    decreases s.len(),
{
    if s.len() == 0 {
        Seq::empty()
    } else if is_word_sep(s[0]) {
        pascal_from(s.drop_first(), true)
    } else {
        (if start {
            unicode_uppercase(s[0])
        } else {
            seq![s[0]]
        }) + pascal_from(s.drop_first(), false)
    }
}

/// The PascalCase form of a kebab- or snake-case name.
pub open spec fn pascal_spec(s: Seq<char>) -> Seq<char> {
    pascal_from(s, true)
}

/// The characters of a string, quoted and joined into an array literal.
pub open spec fn string_list_spec(items: Seq<Seq<char>>) -> Seq<char> {
    "["@ + join_spec(items.map_values(|s: Seq<char>| "\""@ + s + "\""@), ", "@) + "]"@
}

/// `s` without its trailing `c` characters (std `str::trim_end_matches`).
pub open spec fn trim_end_char(s: Seq<char>, c: char) -> Seq<char>
    decreases s.len(),
{
    if s.len() > 0 && s.last() == c {
        trim_end_char(s.drop_last(), c)
    } else {
        s
    }
}

/// Removes the trailing `c` characters.
pub fn trim_end(s: &str, c: char) -> (r: String)
    ensures
        r@ == trim_end_char(s@, c),
{
    let cs = chars_of(s);
    let mut end: usize = cs.len();
    assert(s@.subrange(0, end as int) =~= s@);
    while end > 0 && cs[end - 1] == c
        invariant
            cs@ == s@,
            end <= cs@.len(),
            trim_end_char(s@, c) == trim_end_char(s@.subrange(0, end as int), c),
        decreases end,
    {
        assert(s@.subrange(0, end as int).drop_last() =~= s@.subrange(0, end - 1));
        end = end - 1;
    }
    let ghost kept = s@.subrange(0, end as int);
    if end > 0 {
        assert(kept.last() == s@[end - 1]);
    }
    assert(trim_end_char(kept, c) == kept);
    let mut r = String::new();
    let mut i: usize = 0;
    while i < end
        invariant
            cs@ == s@,
            i <= end <= cs@.len(),
            r@ == s@.subrange(0, i as int),
        decreases end - i,
    {
        push_char(&mut r, cs[i]);
        i = i + 1;
        assert(r@ =~= s@.subrange(0, i as int));
    }
    r
}

} // verus!
