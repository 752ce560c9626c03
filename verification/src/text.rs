//! Text primitives: whitespace, splitting, joining, case and decimal numbers.
//!
//! A text is modelled by the sequence of its characters (`Seq<char>`), a list
//! of texts by a sequence of those.

use vstd::prelude::*;
use vstd::utf8::encode_utf8;

verus! {

/// `String::push` appends one character to the end of the string.
pub assume_specification[ String::push ](s: &mut String, ch: char)
    ensures
        final(s)@ == old(s)@.push(ch),
;

// ---------------------------------------------------------------------------
// Views of lists and options of texts
// ---------------------------------------------------------------------------

/// The texts held by a sequence of strings.
pub open spec fn texts(v: Seq<String>) -> Seq<Seq<char>> {
    v.map_values(|s: String| s@)
}

/// The text held by an optional string.
pub open spec fn opt_text(o: Option<String>) -> Option<Seq<char>> {
    match o {
        Some(s) => Some(s@),
        None => None,
    }
}

// ---------------------------------------------------------------------------
// Characters of a text
// ---------------------------------------------------------------------------

/// The characters of a text, in order.
pub fn chars_of(s: &str) -> (out: Vec<char>)
    ensures
        out@ == s@,
{
    let mut out: Vec<char> = Vec::new();
    for c in it: s.chars()
        invariant
            it.seq() == s@,
            out@ == s@.take(it.index()),
    {
        out.push(c);
        assert(s@.take(it.index() + 1) =~= s@.take(it.index()).push(c));
    }
    assert(s@.take(s@.len() as int) =~= s@);
    out
}

/// The text made of the characters `chars[from..to]`.
pub fn string_of(chars: &Vec<char>, from: usize, to: usize) -> (out: String)
    requires
        from <= to <= chars@.len(),
    ensures
        out@ == chars@.subrange(from as int, to as int),
{
    let mut out = String::new();
    let mut i: usize = from;
    assert(chars@.subrange(from as int, from as int) =~= Seq::<char>::empty());
    while i < to
        invariant
            from <= i <= to <= chars@.len(),
            out@ == chars@.subrange(from as int, i as int),
        decreases to - i,
    {
        out.push(chars[i]);
        assert(chars@.subrange(from as int, i + 1) =~= chars@.subrange(from as int, i as int).push(
            chars@[i as int],
        ));
        i = i + 1;
    }
    out
}

/// `a` followed by `b`.
pub fn concat(a: &str, b: &str) -> (out: String)
    ensures
        out@ == a@ + b@,
{
    let mut out = a.to_string();
    out.append(b);
    out
}

/// `a`, `b` and `c` one after the other.
pub fn concat3(a: &str, b: &str, c: &str) -> (out: String)
    ensures
        out@ == a@ + b@ + c@,
{
    let mut out = a.to_string();
    out.append(b);
    out.append(c);
    out
}

// ---------------------------------------------------------------------------
// Prefixes
// ---------------------------------------------------------------------------

/// Whether `s` begins with `prefix`.
pub open spec fn begins_with(s: Seq<char>, prefix: Seq<char>) -> bool {
    &&& prefix.len() <= s.len()
    &&& s.take(prefix.len() as int) == prefix
}

/// Whether `chars[from..to]` begins with `prefix`.
pub fn starts_with(chars: &Vec<char>, from: usize, to: usize, prefix: &Vec<char>) -> (yes: bool)
    requires
        from <= to <= chars@.len(),
    ensures
        yes == begins_with(chars@.subrange(from as int, to as int), prefix@),
{
    let ghost s = chars@.subrange(from as int, to as int);
    if to - from < prefix.len() {
        return false;
    }
    let mut i: usize = 0;
    while i < prefix.len()
        invariant
            from <= to <= chars@.len(),
            s == chars@.subrange(from as int, to as int),
            prefix@.len() <= to - from,
            i <= prefix@.len(),
            forall|k: int| 0 <= k < i ==> s[k] == prefix@[k],
        decreases prefix@.len() - i,
    {
        if chars[from + i] != prefix[i] {
            assert(s.take(prefix@.len() as int)[i as int] != prefix@[i as int]);
            return false;
        }
        i = i + 1;
    }
    assert(s.take(prefix@.len() as int) =~= prefix@);
    true
}

// ---------------------------------------------------------------------------
// Whitespace
// ---------------------------------------------------------------------------

/// The characters with Unicode's `White_Space` property.
pub open spec fn white(c: char) -> bool {
    ||| '\u{0009}' <= c <= '\u{000D}'
    ||| c == ' '
    ||| c == '\u{0085}'
    ||| c == '\u{00A0}'
    ||| c == '\u{1680}'
    ||| '\u{2000}' <= c <= '\u{200A}'
    ||| c == '\u{2028}'
    ||| c == '\u{2029}'
    ||| c == '\u{202F}'
    ||| c == '\u{205F}'
    ||| c == '\u{3000}'
}

/// Whether a character is whitespace.
pub fn is_white(c: char) -> (yes: bool)
    ensures
        yes == white(c),
{
    ('\u{0009}' <= c && c <= '\u{000D}') || c == ' ' || c == '\u{0085}' || c == '\u{00A0}' || c
        == '\u{1680}' || ('\u{2000}' <= c && c <= '\u{200A}') || c == '\u{2028}' || c == '\u{2029}'
        || c == '\u{202F}' || c == '\u{205F}' || c == '\u{3000}'
}

/// `s` without its leading whitespace.
pub open spec fn trimmed_start(s: Seq<char>) -> Seq<char>
    decreases s.len(),
{
    if s.len() > 0 && white(s[0]) {
        trimmed_start(s.drop_first())
    } else {
        s
    }
}

/// `s` without its trailing whitespace.
pub open spec fn trimmed_end(s: Seq<char>) -> Seq<char>
    decreases s.len(),
{
    if s.len() > 0 && white(s.last()) {
        trimmed_end(s.drop_last())
    } else {
        s
    }
}

/// `s` without its leading and trailing whitespace.
pub open spec fn trimmed(s: Seq<char>) -> Seq<char> {
    trimmed_end(trimmed_start(s))
}

/// The bounds of `chars[from..to]` without its surrounding whitespace.
pub fn trim_bounds(chars: &Vec<char>, from: usize, to: usize) -> (bounds: (usize, usize))
    requires
        from <= to <= chars@.len(),
    ensures
        from <= bounds.0 <= bounds.1 <= to,
        chars@.subrange(bounds.0 as int, bounds.1 as int) == trimmed(
            chars@.subrange(from as int, to as int),
        ),
{
    let mut a: usize = from;
    while a < to && is_white(chars[a])
        invariant
            from <= a <= to <= chars@.len(),
            trimmed_start(chars@.subrange(a as int, to as int)) == trimmed_start(
                chars@.subrange(from as int, to as int),
            ),
        decreases to - a,
    {
        assert(chars@.subrange(a as int, to as int).drop_first() =~= chars@.subrange(
            a + 1,
            to as int,
        ));
        a = a + 1;
    }
    let ghost start = chars@.subrange(a as int, to as int);
    assert(trimmed_start(start) == start);
    let mut b: usize = to;
    while a < b && is_white(chars[b - 1])
        invariant
            from <= a <= b <= to <= chars@.len(),
            trimmed_end(chars@.subrange(a as int, b as int)) == trimmed_end(start),
        decreases b - a,
    {
        assert(chars@.subrange(a as int, b as int).drop_last() =~= chars@.subrange(
            a as int,
            b - 1,
        ));
        b = b - 1;
    }
    (a, b)
}

/// Whether a text holds nothing but whitespace.
pub fn is_blank(s: &str) -> (yes: bool)
    ensures
        yes == (trimmed(s@).len() == 0),
{
    let chars = chars_of(s);
    let n: usize = chars.len();
    let (a, b) = trim_bounds(&chars, 0, n);
    assert(chars@.subrange(0, n as int) =~= s@);
    a == b
}

// ---------------------------------------------------------------------------
// Splitting and joining
// ---------------------------------------------------------------------------

/// The pieces of `s` between the occurrences of `sep`; one more than there are
/// occurrences.
pub open spec fn pieces(s: Seq<char>, sep: char) -> Seq<Seq<char>>
    decreases s.len(),
{
    if s.len() == 0 {
        seq![Seq::<char>::empty()]
    } else {
        let before = pieces(s.drop_last(), sep);
        if s.last() == sep {
            before.push(Seq::<char>::empty())
        } else {
            before.drop_last().push(before.last().push(s.last()))
        }
    }
}

/// There is always a last piece.
pub proof fn lemma_pieces_nonempty(s: Seq<char>, sep: char)
    ensures
        pieces(s, sep).len() >= 1,
    decreases s.len(),
{
    if s.len() > 0 {
        lemma_pieces_nonempty(s.drop_last(), sep);
    }
}

/// The words of `s` that whitespace has ended, and the word still open at its
/// end.
pub open spec fn open_words(s: Seq<char>) -> (Seq<Seq<char>>, Seq<char>)
    decreases s.len(),
{
    if s.len() == 0 {
        (Seq::empty(), Seq::empty())
    } else {
        let (done, current) = open_words(s.drop_last());
        if !white(s.last()) {
            (done, current.push(s.last()))
        } else if current.len() > 0 {
            (done.push(current), Seq::empty())
        } else {
            (done, Seq::empty())
        }
    }
}

/// The maximal runs of non-whitespace characters of `s`, in order.
pub open spec fn words(s: Seq<char>) -> Seq<Seq<char>> {
    let (done, current) = open_words(s);
    if current.len() > 0 {
        done.push(current)
    } else {
        done
    }
}

/// The words of a text given by its characters.
pub fn words_of(chars: &Vec<char>) -> (out: Vec<String>)
    ensures
        texts(out@) == words(chars@),
{
    let mut out: Vec<String> = Vec::new();
    let mut current = String::new();
    let mut i: usize = 0;
    let mut open: bool = false;
    assert(texts(out@) =~= open_words(chars@.take(0)).0);
    while i < chars.len()
        invariant
            i <= chars@.len(),
            open_words(chars@.take(i as int)) == (texts(out@), current@),
            open == (current@.len() > 0),
        decreases chars@.len() - i,
    {
        let c = chars[i];
        assert(chars@.take(i + 1).drop_last() =~= chars@.take(i as int));
        assert(chars@.take(i + 1).last() == c);
        if !is_white(c) {
            current.push(c);
            open = true;
        } else if open {
            let ghost before = out@;
            let ghost word = current@;
            out.push(current);
            assert(texts(out@) =~= texts(before).push(word));
            current = String::new();
            open = false;
        } else {
            assert(current@ =~= Seq::<char>::empty());
        }
        i = i + 1;
    }
    assert(chars@.take(chars@.len() as int) =~= chars@);
    if open {
        let ghost before = out@;
        let ghost word = current@;
        out.push(current);
        assert(texts(out@) =~= texts(before).push(word));
    }
    out
}

/// The texts of `parts`, with `sep` between each and the next.
pub open spec fn joined(parts: Seq<Seq<char>>, sep: Seq<char>) -> Seq<char>
    decreases parts.len(),
{
    if parts.len() == 0 {
        Seq::empty()
    } else if parts.len() == 1 {
        parts[0]
    } else {
        joined(parts.drop_last(), sep) + sep + parts.last()
    }
}

/// Joins texts with a separator between them.
pub fn join(parts: &Vec<String>, sep: &str) -> (out: String)
    ensures
        out@ == joined(texts(parts@), sep@),
{
    let mut out = String::new();
    let mut i: usize = 0;
    while i < parts.len()
        invariant
            i <= parts@.len(),
            out@ == joined(texts(parts@).take(i as int), sep@),
        decreases parts@.len() - i,
    {
        let ghost now = texts(parts@).take(i + 1);
        assert(now.drop_last() =~= texts(parts@).take(i as int));
        if i > 0 {
            out.append(sep);
        } else {
            assert(out@ + parts@[0]@ =~= parts@[0]@);
        }
        out.append(parts[i].as_str());
        i = i + 1;
    }
    assert(texts(parts@).take(parts@.len() as int) =~= texts(parts@));
    out
}

// ---------------------------------------------------------------------------
// Case and character classes
// ---------------------------------------------------------------------------

/// `c`, in lower case when it is one of `A` to `Z`.
pub open spec fn ascii_lower(c: char) -> char {
    if 'A' <= c <= 'Z' {
        (c as u32 + 32) as char
    } else {
        c
    }
}

/// Lower case for the letters `A` to `Z`, every other character unchanged.
pub fn to_ascii_lower(c: char) -> (out: char)
    ensures
        out == ascii_lower(c),
{
    if 'A' <= c && c <= 'Z' {
        let code: u8 = c as u8 + 32;
        code as char
    } else {
        c
    }
}

/// `c`, in upper case when it is one of `a` to `z`.
pub open spec fn ascii_upper(c: char) -> char {
    if 'a' <= c <= 'z' {
        (c as u32 - 32) as char
    } else {
        c
    }
}

/// Whether every character of `s` is ASCII.
pub open spec fn all_ascii(s: Seq<char>) -> bool {
    forall|i: int| 0 <= i < s.len() ==> #[trigger] s[i] <= '\u{007F}'
}

/// What `char::is_alphanumeric` says of a character beyond ASCII.
pub uninterp spec fn unicode_alphanumeric(c: char) -> bool;

/// `char::is_alphanumeric`: whether a character is a letter or a number by
/// Unicode's tables. Only the dependence on the character is stated.
#[verifier::external_body]
fn unicode_is_alphanumeric(c: char) -> (yes: bool)
    ensures
        yes == unicode_alphanumeric(c),
{
    c.is_alphanumeric()
}

/// A letter or a number: an ASCII letter or digit, or what Unicode's tables
/// say beyond ASCII.
pub open spec fn alphanumeric(c: char) -> bool {
    if c <= '\u{007F}' {
        '0' <= c <= '9' || 'A' <= c <= 'Z' || 'a' <= c <= 'z'
    } else {
        unicode_alphanumeric(c)
    }
}

/// Whether a character is a letter or a number.
pub fn is_alphanumeric(c: char) -> (yes: bool)
    ensures
        yes == alphanumeric(c),
{
    if c <= '\u{007F}' {
        ('0' <= c && c <= '9') || ('A' <= c && c <= 'Z') || ('a' <= c && c <= 'z')
    } else {
        unicode_is_alphanumeric(c)
    }
}

/// What `str::to_lowercase` makes of a text.
pub uninterp spec fn unicode_lowercase(s: Seq<char>) -> Seq<char>;

/// `str::to_lowercase`: the lower case of a text by Unicode's tables. Only the
/// dependence on the text is stated.
#[verifier::external_body]
fn unicode_to_lowercase(s: &str) -> (out: String)
    ensures
        out@ == unicode_lowercase(s@),
{
    s.to_lowercase()
}

/// The lower case of a text: letter by letter for an ASCII text, by Unicode's
/// tables otherwise.
pub open spec fn lowercase(s: Seq<char>) -> Seq<char> {
    if all_ascii(s) {
        s.map_values(|c: char| ascii_lower(c))
    } else {
        unicode_lowercase(s)
    }
}

/// The lower case of a text.
pub fn to_lowercase(s: &str) -> (out: String)
    ensures
        out@ == lowercase(s@),
{
    let chars = chars_of(s);
    let mut out = String::new();
    let mut i: usize = 0;
    while i < chars.len()
        invariant
            i <= chars@.len(),
            chars@ == s@,
            forall|k: int| 0 <= k < i ==> #[trigger] s@[k] <= '\u{007F}',
            out@ == s@.take(i as int).map_values(|c: char| ascii_lower(c)),
        decreases chars@.len() - i,
    {
        let c = chars[i];
        if c > '\u{007F}' {
            assert(!all_ascii(s@));
            return unicode_to_lowercase(s);
        }
        let ghost before = s@.take(i as int).map_values(|c: char| ascii_lower(c));
        out.push(to_ascii_lower(c));
        assert(s@.take(i + 1).map_values(|c: char| ascii_lower(c)) =~= before.push(ascii_lower(c)));
        i = i + 1;
    }
    assert(s@.take(s@.len() as int) =~= s@);
    out
}

/// What `char::to_uppercase` makes of a character beyond ASCII, as text.
pub uninterp spec fn unicode_uppercase(c: char) -> Seq<char>;

/// `char::to_uppercase`: the upper case of a character by Unicode's tables,
/// which may be more than one character. Only the dependence on the character
/// is stated.
#[verifier::external_body]
fn unicode_to_uppercase(c: char) -> (out: String)
    ensures
        out@ == unicode_uppercase(c),
{
    c.to_uppercase().to_string()
}

/// The upper case of a character, as text.
pub open spec fn uppercase(c: char) -> Seq<char> {
    if c <= '\u{007F}' {
        seq![ascii_upper(c)]
    } else {
        unicode_uppercase(c)
    }
}

/// The upper case of a character, as text.
pub fn to_uppercase(c: char) -> (out: String)
    ensures
        out@ == uppercase(c),
{
    if c <= '\u{007F}' {
        let mut out = String::new();
        if 'a' <= c && c <= 'z' {
            let code: u8 = c as u8 - 32;
            out.push(code as char);
        } else {
            out.push(c);
        }
        assert(out@ =~= seq![ascii_upper(c)]);
        out
    } else {
        unicode_to_uppercase(c)
    }
}

// ---------------------------------------------------------------------------
// Lengths in bytes
// ---------------------------------------------------------------------------

/// The number of bytes that a text takes in UTF-8.
pub open spec fn byte_len(s: Seq<char>) -> nat {
    encode_utf8(s).len()
}

/// The number of bytes that a text takes in UTF-8.
pub fn utf8_len(s: &str) -> (n: usize)
    ensures
        n == byte_len(s@),
{
    s.as_bytes().len()
}

/// The number of bytes that a character takes in UTF-8.
pub open spec fn char_bytes(c: char) -> nat {
    if c <= '\u{007F}' {
        1
    } else if c <= '\u{07FF}' {
        2
    } else if c <= '\u{FFFF}' {
        3
    } else {
        4
    }
}

/// The beginning of `s` that takes exactly `n` bytes in UTF-8, if some number
/// of whole characters takes exactly that many.
pub open spec fn byte_prefix(s: Seq<char>, n: nat) -> Option<Seq<char>>
    decreases s.len(),
{
    if n == 0 {
        Some(Seq::empty())
    } else if s.len() == 0 || char_bytes(s[0]) > n {
        None
    } else {
        match byte_prefix(s.drop_first(), (n - char_bytes(s[0])) as nat) {
            Some(rest) => Some(seq![s[0]] + rest),
            None => None,
        }
    }
}

/// The beginning of a text that takes exactly `n` bytes in UTF-8.
pub fn prefix_of_bytes(s: &str, n: u32) -> (out: Option<String>)
    ensures
        opt_text(out) == byte_prefix(s@, n as nat),
{
    let chars = chars_of(s);
    let mut out = String::new();
    let mut left: u32 = n;
    let mut i: usize = 0;
    assert(s@.skip(0) =~= s@);
    proof {
        if let Some(rest) = byte_prefix(s@, n as nat) {
            assert(Seq::<char>::empty() + rest =~= rest);
        }
    }
    while left > 0
        invariant
            i <= chars@.len(),
            chars@ == s@,
            byte_prefix(s@, n as nat) == (match byte_prefix(s@.skip(i as int), left as nat) {
                Some(rest) => Some(out@ + rest),
                None => None,
            }),
        decreases chars@.len() - i,
    {
        if i >= chars.len() {
            return None;
        }
        let c = chars[i];
        let width: u32 = if c <= '\u{007F}' {
            1
        } else if c <= '\u{07FF}' {
            2
        } else if c <= '\u{FFFF}' {
            3
        } else {
            4
        };
        if width > left {
            return None;
        }
        let ghost before = out@;
        out.push(c);
        assert(s@.skip(i as int).drop_first() =~= s@.skip(i + 1));
        proof {
            if let Some(rest) = byte_prefix(s@.skip(i + 1), (left - width) as nat) {
                assert(before + (seq![c] + rest) =~= out@ + rest);
            }
        }
        left = left - width;
        i = i + 1;
    }
    assert(out@ + Seq::<char>::empty() =~= out@);
    Some(out)
}

// ---------------------------------------------------------------------------
// Decimal numbers
// ---------------------------------------------------------------------------

/// The character of a decimal digit.
pub open spec fn digit_char(d: nat) -> char {
    ('0' as u32 + d) as char
}

/// `n` in decimal, without leading zeros.
pub open spec fn decimal(n: nat) -> Seq<char>
    decreases n,
{
    if n < 10 {
        seq![digit_char(n)]
    } else {
        decimal(n / 10).push(digit_char(n % 10))
    }
}

/// A possibly negative integer in decimal.
pub open spec fn signed_decimal(n: int) -> Seq<char> {
    if n < 0 {
        seq!['-'] + decimal((-n) as nat)
    } else {
        decimal(n as nat)
    }
}

/// `n` in decimal.
pub fn to_decimal(n: u64) -> (out: String)
    ensures
        out@ == decimal(n as nat),
    decreases n,
{
    let d: u8 = (n % 10) as u8 + 48;
    let mut out = if n < 10 {
        String::new()
    } else {
        to_decimal(n / 10)
    };
    out.push(d as char);
    assert(n < 10 ==> out@ =~= seq![digit_char(n as nat)]);
    out
}

/// A possibly negative integer in decimal.
pub fn to_signed_decimal(n: i64) -> (out: String)
    ensures
        out@ == signed_decimal(n as int),
{
    if n < 0 {
        let magnitude: u64 = (-(n as i128)) as u64;
        let mut out = String::new();
        out.push('-');
        out.append(to_decimal(magnitude).as_str());
        assert(out@ =~= seq!['-'] + decimal(magnitude as nat));
        out
    } else {
        to_decimal(n as u64)
    }
}

/// Whether a character is one of `0` to `9`.
pub open spec fn is_digit(c: char) -> bool {
    '0' <= c <= '9'
}

/// The number that a sequence of digits stands for.
pub open spec fn digits_value(s: Seq<char>) -> nat
    decreases s.len(),
{
    if s.len() == 0 {
        0
    } else {
        digits_value(s.drop_last()) * 10 + (s.last() as u32 - '0' as u32) as nat
    }
}

/// The digits of an unsigned number: all of `s` but one leading `+`.
pub open spec fn after_plus(s: Seq<char>) -> Seq<char> {
    if s.len() > 0 && s[0] == '+' {
        s.drop_first()
    } else {
        s
    }
}

/// The number that `s` denotes: an optional `+` and at least one digit, with a
/// value of at most `max`.
pub open spec fn parsed_unsigned(s: Seq<char>, max: nat) -> Option<nat> {
    let digits = after_plus(s);
    if digits.len() > 0 && (forall|i: int| 0 <= i < digits.len() ==> is_digit(#[trigger] digits[i]))
        && digits_value(digits) <= max {
        Some(digits_value(digits))
    } else {
        None
    }
}

/// A shorter run of digits stands for no larger number.
proof fn lemma_digits_prefix(s: Seq<char>, k: int)
    requires
        0 <= k <= s.len(),
    ensures
        digits_value(s.take(k)) <= digits_value(s),
    decreases s.len() - k,
{
    if k == s.len() {
        assert(s.take(k) =~= s);
    } else {
        assert(s.take(k + 1).drop_last() =~= s.take(k));
        lemma_digits_prefix(s, k + 1);
    }
}

/// Reads the unsigned number that `chars[from..to]` denotes.
pub fn parse_unsigned(chars: &Vec<char>, from: usize, to: usize, max: u64) -> (out: Option<u64>)
    requires
        from <= to <= chars@.len(),
    ensures
        out == (match parsed_unsigned(chars@.subrange(from as int, to as int), max as nat) {
            Some(n) => Some(n as u64),
            None => None,
        }),
{
    let ghost s = chars@.subrange(from as int, to as int);
    let mut start: usize = from;
    if from < to && chars[from] == '+' {
        start = from + 1;
    }
    let ghost digits = after_plus(s);
    assert(digits =~= chars@.subrange(start as int, to as int));
    if start == to {
        return None;
    }
    let mut value: u64 = 0;
    let mut i: usize = start;
    assert(digits.take(0) =~= Seq::<char>::empty());
    while i < to
        invariant
            from <= start <= i <= to <= chars@.len(),
            start < to,
            s == chars@.subrange(from as int, to as int),
            digits == after_plus(s),
            digits == chars@.subrange(start as int, to as int),
            forall|k: int| 0 <= k < i - start ==> is_digit(#[trigger] digits[k]),
            value == digits_value(digits.take(i - start)),
            value <= max,
        decreases to - i,
    {
        let c = chars[i];
        assert(c == digits[i - start]);
        if c < '0' || c > '9' {
            assert(!is_digit(digits[i - start]));
            return None;
        }
        let d: u64 = c as u64 - 48;
        assert(digits.take(i - start + 1).drop_last() =~= digits.take(i - start));
        assert(digits_value(digits.take(i - start + 1)) == value * 10 + d);
        let next: u128 = value as u128 * 10 + d as u128;
        if next > max as u128 {
            proof {
                lemma_digits_prefix(digits, i - start + 1);
            }
            return None;
        }
        value = next as u64;
        i = i + 1;
    }
    assert(digits.take(to - start) =~= digits);
    Some(value)
}

// ---------------------------------------------------------------------------
// Laws
// ---------------------------------------------------------------------------

/// A decimal number is made of digits, and reading it gives the number back.
pub proof fn law_decimal_round_trip(n: nat)
    ensures
        decimal(n).len() > 0,
        forall|i: int| 0 <= i < decimal(n).len() ==> is_digit(#[trigger] decimal(n)[i]),
        digits_value(decimal(n)) == n,
        forall|max: nat| n <= max ==> #[trigger] parsed_unsigned(decimal(n), max) == Some(n),
    decreases n,
{
    reveal_with_fuel(digits_value, 2);
    if n < 10 {
        assert(decimal(n).drop_last() =~= Seq::<char>::empty());
    } else {
        law_decimal_round_trip(n / 10);
        assert(decimal(n).drop_last() =~= decimal(n / 10));
    }
    assert(is_digit(decimal(n)[0]));
}

/// Different numbers have different decimal texts.
pub proof fn law_decimal_injective(a: nat, b: nat)
    requires
        decimal(a) == decimal(b),
    ensures
        a == b,
{
    law_decimal_round_trip(a);
    law_decimal_round_trip(b);
}

/// Whether a text is a word: non-empty and free of whitespace.
pub open spec fn is_word(w: Seq<char>) -> bool {
    &&& w.len() > 0
    &&& forall|k: int| 0 <= k < w.len() ==> !white(#[trigger] w[k])
}

/// The ended words are words, and the open one is free of whitespace.
proof fn lemma_open_words(s: Seq<char>)
    ensures
        forall|i: int| 0 <= i < open_words(s).0.len() ==> is_word(#[trigger] open_words(s).0[i]),
        forall|k: int| 0 <= k < open_words(s).1.len() ==> !white(#[trigger] open_words(s).1[k]),
    decreases s.len(),
{
    if s.len() > 0 {
        lemma_open_words(s.drop_last());
        let before = open_words(s.drop_last());
        let after = open_words(s);
        assert forall|i: int| 0 <= i < after.0.len() implies is_word(#[trigger] after.0[i]) by {
            if i < before.0.len() {
                assert(after.0[i] == before.0[i]);
            }
        }
        assert forall|k: int| 0 <= k < after.1.len() implies !white(#[trigger] after.1[k]) by {
            if k < before.1.len() {
                assert(after.1[k] == before.1[k]);
            }
        }
    }
}

/// Every word of a text is non-empty and free of whitespace.
pub proof fn law_words_are_words(s: Seq<char>)
    ensures
        forall|i: int| 0 <= i < words(s).len() ==> is_word(#[trigger] words(s)[i]),
{
    lemma_open_words(s);
}

/// After a word, scanning goes on with that word open.
proof fn lemma_open_words_append(s: Seq<char>, w: Seq<char>)
    requires
        forall|k: int| 0 <= k < w.len() ==> !white(#[trigger] w[k]),
    ensures
        open_words(s + w) == (open_words(s).0, open_words(s).1 + w),
    decreases w.len(),
{
    if w.len() == 0 {
        assert(s + w =~= s);
        assert(open_words(s).1 + w =~= open_words(s).1);
    } else {
        let shorter = w.drop_last();
        lemma_open_words_append(s, shorter);
        assert((s + w).drop_last() =~= s + shorter);
        assert((s + w).last() == w.last());
        assert((open_words(s).1 + shorter).push(w.last()) =~= open_words(s).1 + w);
    }
}

/// Words joined by single spaces, scanned: all but the last are ended.
proof fn lemma_open_words_joined(parts: Seq<Seq<char>>)
    requires
        forall|i: int| 0 <= i < parts.len() ==> is_word(#[trigger] parts[i]),
    ensures
        parts.len() == 0 ==> open_words(joined(parts, seq![' '])) == (
            Seq::<Seq<char>>::empty(),
            Seq::<char>::empty(),
        ),
        parts.len() > 0 ==> open_words(joined(parts, seq![' '])) == (
            parts.drop_last(),
            parts.last(),
        ),
    decreases parts.len(),
{
    let sep = seq![' '];
    if parts.len() == 0 {
    } else if parts.len() == 1 {
        lemma_open_words_append(Seq::empty(), parts[0]);
        assert(Seq::<char>::empty() + parts[0] =~= parts[0]);
        assert(parts.drop_last() =~= Seq::<Seq<char>>::empty());
    } else {
        let before = parts.drop_last();
        lemma_open_words_joined(before);
        let head = joined(before, sep) + sep;
        assert(head.drop_last() =~= joined(before, sep));
        assert(head.last() == ' ');
        assert(is_word(parts[parts.len() - 2]));
        assert(open_words(head) == (before.drop_last().push(before.last()), Seq::<char>::empty()));
        assert(before.drop_last().push(before.last()) =~= before);
        lemma_open_words_append(head, parts.last());
        assert(Seq::<char>::empty() + parts.last() =~= parts.last());
    }
}

/// Splitting words that were joined by single spaces gives the words back.
pub proof fn law_words_of_joined(parts: Seq<Seq<char>>)
    requires
        forall|i: int| 0 <= i < parts.len() ==> is_word(#[trigger] parts[i]),
    ensures
        words(joined(parts, seq![' '])) == parts,
{
    lemma_open_words_joined(parts);
    if parts.len() > 0 {
        assert(is_word(parts.last()));
        assert(parts.drop_last().push(parts.last()) =~= parts);
    }
}

/// A text without leading or trailing whitespace is left alone by trimming.
pub proof fn law_trimmed_unchanged(s: Seq<char>)
    requires
        s.len() > 0 ==> !white(s[0]) && !white(s.last()),
    ensures
        trimmed(s) == s,
{
}

/// The texts of a list of strings are theirs, one for one, and the text of an
/// optional string is its own.
pub proof fn law_texts_one_for_one(v: Seq<String>, o: Option<String>)
    ensures
        texts(v).len() == v.len(),
        forall|i: int| 0 <= i < v.len() ==> #[trigger] texts(v)[i] == v[i]@,
        o matches Some(s) ==> opt_text(o) == Some(s@),
        o is None ==> opt_text(o) is None,
{
}

/// Lowering the case of an ASCII text moves each of its letters `A` to `Z` by 32
/// and leaves the rest; beyond ASCII Unicode's tables decide.
pub proof fn law_lower_case(s: &str, out: String)
    requires
        call_ensures(to_lowercase, (s,), out),
    ensures
        (forall|i: int| 0 <= i < s@.len() ==> #[trigger] s@[i] <= '\u{007F}') ==> {
            &&& out@.len() == s@.len()
            &&& forall|i: int|
                0 <= i < s@.len() ==> if 'A' <= s@[i] <= 'Z' {
                    #[trigger] out@[i] as u32 == s@[i] as u32 + 32
                } else {
                    out@[i] == s@[i]
                }
        },
        (exists|i: int| 0 <= i < s@.len() && #[trigger] s@[i] > '\u{007F}') ==> out@
            == unicode_lowercase(s@),
{
    if all_ascii(s@) {
        assert(out@.len() == s@.len());
        assert forall|i: int| 0 <= i < s@.len() implies if 'A' <= s@[i] <= 'Z' {
            #[trigger] out@[i] as u32 == s@[i] as u32 + 32
        } else {
            out@[i] == s@[i]
        } by {
            assert(out@[i] == ascii_lower(s@[i]));
        }
    }
}

/// Two ASCII texts that differ in case only have the same lower case.
pub proof fn law_lower_case_merges_cases(a: &str, b: &str, lower_a: String, lower_b: String)
    requires
        call_ensures(to_lowercase, (a,), lower_a),
        call_ensures(to_lowercase, (b,), lower_b),
        a@.len() == b@.len(),
        forall|i: int|
            0 <= i < a@.len() ==> #[trigger] a@[i] <= '\u{007F}' && b@[i] <= '\u{007F}' && (a@[i]
                == b@[i] || ('A' <= a@[i] <= 'Z' && b@[i] as u32 == a@[i] as u32 + 32)),
    ensures
        lower_a@ == lower_b@,
{
    assert forall|i: int| 0 <= i < b@.len() implies #[trigger] b@[i] <= '\u{007F}' by {
        assert(a@[i] <= '\u{007F}');
    }
    assert(all_ascii(a@) && all_ascii(b@));
    assert forall|i: int| 0 <= i < a@.len() implies lower_a@[i] == lower_b@[i] by {
        assert(lower_a@[i] == ascii_lower(a@[i]));
        assert(lower_b@[i] == ascii_lower(b@[i]));
        assert(a@[i] <= '\u{007F}');
    }
    assert(lower_a@ =~= lower_b@);
}

/// Raising the case of a letter `a` to `z` moves it by 32, and leaves every other
/// ASCII character alone; beyond ASCII Unicode's tables decide.
pub proof fn law_upper_case(c: char, out: String)
    requires
        call_ensures(to_uppercase, (c,), out),
    ensures
        c <= '\u{007F}' ==> out@.len() == 1 && if 'a' <= c <= 'z' {
            out@[0] as u32 == c as u32 - 32
        } else {
            out@[0] == c
        },
        c > '\u{007F}' ==> out@ == unicode_uppercase(c),
{
}

/// Of the ASCII characters the 26 letters in both cases and the ten digits are
/// letters or numbers, and no others.
pub proof fn law_letters_and_numbers(c: char, yes: bool)
    requires
        call_ensures(is_alphanumeric, (c,), yes),
    ensures
        c as u32 <= 127 ==> (yes <==> (48 <= c as u32 <= 57 || 65 <= c as u32 <= 90 || 97
            <= c as u32 <= 122)),
        c as u32 > 127 ==> yes == unicode_alphanumeric(c),
        yes == alphanumeric(c),
{
}

/// Whitespace: the code points with Unicode's property, of which six are ASCII.
pub proof fn law_whitespace(c: char, yes: bool)
    requires
        call_ensures(is_white, (c,), yes),
    ensures
        c as u32 <= 127 ==> (yes <==> (9 <= c as u32 <= 13 || c as u32 == 32)),
        c as u32 > 127 ==> (yes <==> (c as u32 == 0x85 || c as u32 == 0xA0 || c as u32 == 0x1680
            || 0x2000 <= c as u32 <= 0x200A || c as u32 == 0x2028 || c as u32 == 0x2029 || c as u32
            == 0x202F || c as u32 == 0x205F || c as u32 == 0x3000)),
        yes == white(c),
{
}

/// Trimming cuts off whitespace alone, from both ends, and all of it.
pub proof fn law_trim_cuts_whitespace(
    chars: Vec<char>,
    from: usize,
    to: usize,
    bounds: (usize, usize),
)
    requires
        from <= to <= chars@.len(),
        call_ensures(trim_bounds, (&chars, from, to), bounds),
    ensures
        from <= bounds.0 <= bounds.1 <= to,
        bounds.0 == bounds.1 ==> forall|i: int| from <= i < to ==> white(#[trigger] chars@[i]),
        bounds.0 < bounds.1 ==> {
            let kept = chars@.subrange(bounds.0 as int, bounds.1 as int);
            &&& kept == trimmed(chars@.subrange(from as int, to as int))
            &&& !white(kept[0])
            &&& !white(kept.last())
        },
{
    let s = chars@.subrange(from as int, to as int);
    law_trimmed_keeps_the_rest(s);
    let (a, b) = choose|a: int, b: int| #[trigger] trims_to(s, a, b);
    if bounds.0 == bounds.1 {
        assert(trimmed(s).len() == 0);
        assert forall|i: int| from <= i < to implies white(#[trigger] chars@[i]) by {
            assert(s[i - from] == chars@[i]);
        }
    }
}

/// Whether `s` is whitespace but for `s[a..b]`, which begins and ends with
/// something else.
pub open spec fn trims_to(s: Seq<char>, a: int, b: int) -> bool {
    &&& 0 <= a <= b <= s.len()
    &&& forall|i: int| 0 <= i < a ==> white(#[trigger] s[i])
    &&& forall|i: int| b <= i < s.len() ==> white(#[trigger] s[i])
    &&& a < b ==> !white(s[a]) && !white(s[b - 1])
}

/// Leading whitespace is cut off, and nothing else.
proof fn lemma_trimmed_start(s: Seq<char>) -> (a: int)
    ensures
        0 <= a <= s.len(),
        trimmed_start(s) == s.skip(a),
        forall|i: int| 0 <= i < a ==> white(#[trigger] s[i]),
        a < s.len() ==> !white(s[a]),
    decreases s.len(),
{
    if s.len() > 0 && white(s[0]) {
        let rest = s.drop_first();
        let a = lemma_trimmed_start(rest);
        assert(rest.skip(a) =~= s.skip(a + 1));
        assert forall|i: int| 0 <= i < a + 1 implies white(#[trigger] s[i]) by {
            if i > 0 {
                assert(rest[i - 1] == s[i]);
            }
        }
        a + 1
    } else {
        assert(s.skip(0) =~= s);
        0
    }
}

/// Trailing whitespace is cut off, and nothing else.
proof fn lemma_trimmed_end(s: Seq<char>) -> (b: int)
    ensures
        0 <= b <= s.len(),
        trimmed_end(s) == s.take(b),
        forall|i: int| b <= i < s.len() ==> white(#[trigger] s[i]),
        b > 0 ==> !white(s[b - 1]),
    decreases s.len(),
{
    if s.len() > 0 && white(s.last()) {
        let rest = s.drop_last();
        let b = lemma_trimmed_end(rest);
        assert(rest.take(b) =~= s.take(b));
        assert forall|i: int| b <= i < s.len() implies white(#[trigger] s[i]) by {
            if i < rest.len() {
                assert(rest[i] == s[i]);
            }
        }
        b
    } else {
        assert(s.take(s.len() as int) =~= s);
        s.len() as int
    }
}

/// What trimming leaves is the text between its outermost characters that are not
/// whitespace.
pub proof fn law_trimmed_keeps_the_rest(s: Seq<char>)
    ensures
        exists|a: int, b: int| #[trigger] trims_to(s, a, b) && trimmed(s) == s.subrange(a, b),
        forall|a: int, b: int| #[trigger] trims_to(s, a, b) && a < b ==> trimmed(s) == s.subrange(a, b),
        trimmed(s).len() == 0 <==> (forall|i: int| 0 <= i < s.len() ==> white(#[trigger] s[i])),
{
    let a = lemma_trimmed_start(s);
    let rest = s.skip(a);
    let n = lemma_trimmed_end(rest);
    let b = a + n;
    assert(rest.take(n) =~= s.subrange(a, b));
    assert forall|i: int| b <= i < s.len() implies white(#[trigger] s[i]) by {
        assert(rest[i - a] == s[i]);
    }
    if a < b {
        assert(rest[n - 1] == s[b - 1]);
        assert(rest[0] == s[a]);
    }
    assert(trims_to(s, a, b));
    assert forall|c: int, d: int| #[trigger] trims_to(s, c, d) && c < d implies trimmed(s)
        == s.subrange(c, d) by {
        assert(a <= c);
        assert(!white(s[c]) && !white(s[d - 1]));
        assert(c <= a);
        assert(d <= b && b <= d);
    }
    if trimmed(s).len() == 0 {
        assert forall|i: int| 0 <= i < s.len() implies white(#[trigger] s[i]) by {
            assert(a == b);
        }
    } else {
        assert(!white(s[a]));
    }
}

/// A text is blank exactly when it is whitespace throughout.
pub proof fn law_blank(s: &str, yes: bool)
    requires
        call_ensures(is_blank, (s,), yes),
    ensures
        yes <==> (forall|i: int| 0 <= i < s@.len() ==> white(#[trigger] s@[i])),
{
    law_trimmed_keeps_the_rest(s@);
}

/// Whether a text begins with another is decided character by character.
pub proof fn law_begins_with(s: Seq<char>, prefix: Seq<char>)
    ensures
        begins_with(s, prefix) <==> (prefix.len() <= s.len() && forall|i: int|
            0 <= i < prefix.len() ==> #[trigger] s[i] == prefix[i]),
        begins_with(prefix + s, prefix),
{
    if begins_with(s, prefix) {
        assert forall|i: int| 0 <= i < prefix.len() implies #[trigger] s[i] == prefix[i] by {
            assert(s.take(prefix.len() as int)[i] == s[i]);
        }
    } else if prefix.len() <= s.len() && forall|i: int|
        0 <= i < prefix.len() ==> #[trigger] s[i] == prefix[i] {
        assert(s.take(prefix.len() as int) =~= prefix);
    }
    assert((prefix + s).take(prefix.len() as int) =~= prefix);
}

/// The pieces of a text hold no separator, and with separators between them they
/// are the text.
pub proof fn law_pieces_make_the_text(s: Seq<char>, sep: char)
    ensures
        pieces(s, sep).len() >= 1,
        forall|i: int| 0 <= i < pieces(s, sep).len() ==> !(#[trigger] pieces(s, sep)[i]).contains(sep),
        joined(pieces(s, sep), seq![sep]) == s,
    decreases s.len(),
{
    let all = pieces(s, sep);
    if s.len() == 0 {
        assert(s =~= Seq::<char>::empty());
    } else {
        let shorter = s.drop_last();
        let before = pieces(shorter, sep);
        law_pieces_make_the_text(shorter, sep);
        assert(s =~= shorter.push(s.last()));
        if s.last() == sep {
            assert(all.drop_last() =~= before);
            assert(joined(all, seq![sep]) =~= shorter + seq![sep]);
            assert forall|i: int| 0 <= i < all.len() implies !(#[trigger] all[i]).contains(sep) by {
                if i < before.len() {
                    assert(all[i] == before[i]);
                }
            }
        } else {
            assert(all.drop_last() =~= before.drop_last());
            assert(all.last() == before.last().push(s.last()));
            if before.len() > 1 {
                assert(joined(all, seq![sep]) =~= joined(before, seq![sep]).push(s.last()));
            } else {
                assert(joined(all, seq![sep]) =~= joined(before, seq![sep]).push(s.last()));
            }
            assert forall|i: int| 0 <= i < all.len() implies !(#[trigger] all[i]).contains(sep) by {
                if i < before.len() - 1 {
                    assert(all[i] == before[i]);
                } else {
                    let last = before.last();
                    assert(!before[before.len() - 1].contains(sep));
                    assert forall|k: int| 0 <= k < all[i].len() implies all[i][k] != sep by {
                        if k < last.len() {
                            assert(last.contains(last[k]));
                        }
                    }
                }
            }
        }
    }
}

/// A text without whitespace is one word, and nothing is none.
pub proof fn law_one_word(w: Seq<char>)
    requires
        forall|k: int| 0 <= k < w.len() ==> !white(#[trigger] w[k]),
    ensures
        words(w) == if w.len() == 0 {
            Seq::empty()
        } else {
            seq![w]
        },
{
    lemma_open_words_append(Seq::empty(), w);
    assert(Seq::<char>::empty() + w =~= w);
    if w.len() > 0 {
        assert(words(w) =~= seq![w]);
    }
}

/// Scanning behind whitespace begins anew.
proof fn lemma_open_words_split(a: Seq<char>, c: char, b: Seq<char>)
    requires
        white(c),
    ensures
        open_words(a.push(c) + b) == (words(a) + open_words(b).0, open_words(b).1),
    decreases b.len(),
{
    if b.len() == 0 {
        assert(a.push(c) + b =~= a.push(c));
        assert(a.push(c).drop_last() =~= a);
        assert(words(a) + open_words(b).0 =~= words(a));
    } else {
        let shorter = b.drop_last();
        lemma_open_words_split(a, c, shorter);
        assert((a.push(c) + b).drop_last() =~= a.push(c) + shorter);
        assert((a.push(c) + b).last() == b.last());
        let (done, current) = open_words(shorter);
        assert((words(a) + done).push(current) =~= words(a) + done.push(current));
    }
}

/// Whitespace separates words: those of a text are the ones before any of its
/// whitespace, and then the ones behind it.
pub proof fn law_words_split_at_whitespace(a: Seq<char>, c: char, b: Seq<char>)
    requires
        white(c),
    ensures
        words(a.push(c) + b) == words(a) + words(b),
{
    lemma_open_words_split(a, c, b);
    let (done, current) = open_words(b);
    assert((words(a) + done).push(current) =~= words(a) + done.push(current));
}

/// Splitting into words gives the words of the text.
pub proof fn law_words_of(chars: Vec<char>, out: Vec<String>)
    requires
        call_ensures(words_of, (&chars,), out),
    ensures
        out@.len() == words(chars@).len(),
        forall|i: int| 0 <= i < out@.len() ==> (#[trigger] out@[i])@ == words(chars@)[i],
{
    assert forall|i: int| 0 <= i < out@.len() implies (#[trigger] out@[i])@ == words(chars@)[i] by {
        assert(texts(out@)[i] == out@[i]@);
    }
}

/// Joined texts, in two parts: the separator stands between them and nowhere else.
pub proof fn law_joined_in_parts(a: Seq<Seq<char>>, b: Seq<Seq<char>>, sep: Seq<char>)
    ensures
        joined(Seq::empty(), sep) == Seq::<char>::empty(),
        forall|s: Seq<char>| #[trigger] joined(seq![s], sep) == s,
        a.len() > 0 && b.len() > 0 ==> joined(a + b, sep) == joined(a, sep) + sep + joined(b, sep),
    decreases b.len(),
{
    if a.len() > 0 && b.len() > 0 {
        let shorter = b.drop_last();
        assert((a + b).drop_last() =~= a + shorter);
        assert((a + b).last() == b.last());
        if b.len() == 1 {
            assert(a + shorter =~= a);
        } else {
            law_joined_in_parts(a, shorter, sep);
            assert(joined(a + b, sep) =~= joined(a, sep) + sep + joined(b, sep));
        }
    }
}

/// Joining strings gives their texts joined.
pub proof fn law_join(parts: Vec<String>, sep: &str, out: String)
    requires
        call_ensures(join, (&parts, sep), out),
    ensures
        out@ == joined(Seq::new(parts@.len(), |i: int| parts@[i]@), sep@),
{
    assert(texts(parts@) =~= Seq::new(parts@.len(), |i: int| parts@[i]@));
}

/// The number that digits stand for: each further digit counts ten times less
/// than the one before it.
pub proof fn law_value_of_digits(s: Seq<char>, c: char)
    requires
        '0' <= c <= '9',
    ensures
        digits_value(Seq::empty()) == 0,
        digits_value(s.push(c)) == 10 * digits_value(s) + (c as u32 - 48),
{
    assert(s.push(c).drop_last() =~= s);
}

/// Four digits stand for their thousands, hundreds, tens and ones.
pub proof fn law_value_of_four_digits(s: Seq<char>)
    requires
        s.len() == 4,
        forall|i: int| 0 <= i < 4 ==> '0' <= #[trigger] s[i] <= '9',
    ensures
        digits_value(s) == 1000 * (s[0] as u32 - 48) + 100 * (s[1] as u32 - 48) + 10 * (s[2] as u32
            - 48) + (s[3] as u32 - 48),
        digits_value(s) < 10000,
{
    assert('0' <= s[0] <= '9' && '0' <= s[1] <= '9' && '0' <= s[2] <= '9' && '0' <= s[3] <= '9');
    let none = Seq::<char>::empty();
    law_value_of_digits(none, s[0]);
    law_value_of_digits(none.push(s[0]), s[1]);
    law_value_of_digits(none.push(s[0]).push(s[1]), s[2]);
    law_value_of_digits(none.push(s[0]).push(s[1]).push(s[2]), s[3]);
    assert(s =~= none.push(s[0]).push(s[1]).push(s[2]).push(s[3]));
}

/// A number is written in decimal without leading zeros, and the text stands for
/// the number.
pub proof fn law_decimal_text(n: u64, out: String)
    requires
        call_ensures(to_decimal, (n,), out),
    ensures
        out@.len() > 0,
        forall|i: int| 0 <= i < out@.len() ==> '0' <= #[trigger] out@[i] <= '9',
        digits_value(out@) == n,
        out@.len() > 1 ==> out@[0] != '0',
{
    law_decimal_round_trip(n as nat);
    lemma_no_leading_zero(n as nat);
    assert forall|i: int| 0 <= i < out@.len() implies '0' <= #[trigger] out@[i] <= '9' by {
        assert(is_digit(decimal(n as nat)[i]));
    }
}

/// Only zero begins with a zero.
proof fn lemma_no_leading_zero(n: nat)
    ensures
        decimal(n).len() > 0,
        n > 0 ==> decimal(n)[0] != '0',
        n < 10 ==> decimal(n).len() == 1,
    decreases n,
{
    if n >= 10 {
        lemma_no_leading_zero(n / 10);
    }
}

/// A negative number is written as a minus sign and the number that it is short
/// of zero.
pub proof fn law_signed_decimal_text(n: i64, out: String)
    requires
        call_ensures(to_signed_decimal, (n,), out),
    ensures
        n >= 0 ==> '0' <= out@[0] <= '9' && digits_value(out@) == n,
        n < 0 ==> out@[0] == '-' && digits_value(out@.drop_first()) == -n,
{
    if n >= 0 {
        law_decimal_round_trip(n as nat);
        assert(is_digit(decimal(n as nat)[0]));
    } else {
        law_decimal_round_trip((-n) as nat);
        assert(out@.drop_first() =~= decimal((-n) as nat));
    }
}

/// Digits, with or without a plus sign before them, are read as the number that
/// they stand for if it is not too large; anything else is no number.
pub proof fn law_parse_unsigned(
    chars: Vec<char>,
    from: usize,
    to: usize,
    max: u64,
    out: Option<u64>,
    digits: Seq<char>,
)
    requires
        from <= to <= chars@.len(),
        call_ensures(parse_unsigned, (&chars, from, to, max), out),
        digits == if from < to && chars@[from as int] == '+' {
            chars@.subrange(from + 1, to as int)
        } else {
            chars@.subrange(from as int, to as int)
        },
    ensures
        digits.len() > 0 && (forall|i: int| 0 <= i < digits.len() ==> '0' <= #[trigger] digits[i]
            <= '9') && digits_value(digits) <= max ==> out is Some && out->0 == digits_value(digits),
        digits.len() == 0 || digits_value(digits) > max ==> out is None,
        (exists|i: int| 0 <= i < digits.len() && !('0' <= #[trigger] digits[i] <= '9'))
            ==> out is None,
{
    let s = chars@.subrange(from as int, to as int);
    assert(digits =~= after_plus(s));
    if digits.len() > 0 && (forall|i: int| 0 <= i < digits.len() ==> '0' <= #[trigger] digits[i]
        <= '9') && digits_value(digits) <= max {
        assert forall|i: int| 0 <= i < digits.len() implies is_digit(#[trigger] digits[i]) by {
            assert('0' <= digits[i] <= '9');
        }
        assert(parsed_unsigned(s, max as nat) == Some(digits_value(digits)));
    }
    if exists|i: int| 0 <= i < digits.len() && !('0' <= #[trigger] digits[i] <= '9') {
        let i = choose|i: int| 0 <= i < digits.len() && !('0' <= #[trigger] digits[i] <= '9');
        assert(!is_digit(digits[i]));
    }
}

/// The number of a character.
proof fn lemma_code_point(c: char)
    ensures
        0 <= c as int <= 0x10FFFF,
        c as u32 as int == c as int,
        !(0xD800 <= c as int <= 0xDFFF),
{
}

/// The length of a text in bytes is its length where it is ASCII.
pub proof fn law_byte_length(s: &str, n: usize)
    requires
        call_ensures(utf8_len, (s,), n),
    ensures
        n == encode_utf8(s@).len(),
        (forall|i: int| 0 <= i < s@.len() ==> #[trigger] s@[i] <= '\u{007F}') ==> n == s@.len(),
{
    if forall|i: int| 0 <= i < s@.len() ==> #[trigger] s@[i] <= '\u{007F}' {
        assert forall|i: int| 0 <= i < s@.len() implies '\0' <= #[trigger] s@[i] <= '\u{7f}' by {
            lemma_code_point(s@[i]);
        }
        vstd::utf8::is_ascii_chars_encode_utf8(s@);
    }
}

/// Whole characters that take so many bytes are a beginning of the text that
/// takes so many bytes.
proof fn lemma_byte_prefix(s: Seq<char>, n: nat)
    ensures
        match byte_prefix(s, n) {
            Some(p) => p.len() <= s.len() && p == s.take(p.len() as int) && encode_utf8(p).len()
                == n,
            None => forall|k: int| 0 <= k <= s.len() ==> encode_utf8(#[trigger] s.take(k)).len() != n,
        },
    decreases s.len(),
{
    if n == 0 {
    } else if s.len() == 0 {
        assert(s.take(0) =~= Seq::<char>::empty());
    } else {
        let rest = s.drop_first();
        let w = char_bytes(s[0]);
        lemma_code_point(s[0]);
        assert(vstd::utf8::encode_scalar(s[0] as u32).len() == w);
        if w > n {
            assert forall|k: int| 0 <= k <= s.len() implies encode_utf8(#[trigger] s.take(k)).len()
                != n by {
                if k > 0 {
                    assert(s.take(k)[0] == s[0]);
                }
            }
        } else {
            lemma_byte_prefix(rest, (n - w) as nat);
            match byte_prefix(rest, (n - w) as nat) {
                Some(p) => {
                    let all = seq![s[0]] + p;
                    assert(all =~= s.take(all.len() as int));
                    assert(all.drop_first() =~= p);
                },
                None => {
                    assert forall|k: int| 0 <= k <= s.len() implies encode_utf8(
                        #[trigger] s.take(k),
                    ).len() != n by {
                        if k > 0 {
                            assert(s.take(k).drop_first() =~= rest.take(k - 1));
                        }
                    }
                },
            }
        }
    }
}

/// The beginning of a text that takes so many bytes in UTF-8 is just that, and
/// there is none only where the bytes end inside a character or behind the text.
pub proof fn law_prefix_of_bytes(s: &str, n: u32, out: Option<String>)
    requires
        call_ensures(prefix_of_bytes, (s, n), out),
    ensures
        match out {
            Some(p) => p@.len() <= s@.len() && p@ == s@.take(p@.len() as int) && encode_utf8(
                p@,
            ).len() == n,
            None => forall|k: int|
                0 <= k <= s@.len() ==> encode_utf8(#[trigger] s@.take(k)).len() != n,
        },
{
    lemma_byte_prefix(s@, n as nat);
}

/// Whether a stretch of characters begins with others is decided one by one.
pub proof fn law_starts_with(
    chars: Vec<char>,
    from: usize,
    to: usize,
    prefix: Vec<char>,
    yes: bool,
)
    requires
        from <= to <= chars@.len(),
        call_ensures(starts_with, (&chars, from, to, &prefix), yes),
    ensures
        yes <==> (prefix@.len() <= to - from && forall|i: int|
            0 <= i < prefix@.len() ==> chars@[from + i] == #[trigger] prefix@[i]),
{
    let s = chars@.subrange(from as int, to as int);
    law_begins_with(s, prefix@);
    if yes {
        assert forall|i: int| 0 <= i < prefix@.len() implies chars@[from + i]
            == #[trigger] prefix@[i] by {
            assert(s[i] == prefix@[i]);
        }
    }
    if prefix@.len() <= to - from && forall|i: int|
        0 <= i < prefix@.len() ==> chars@[from + i] == #[trigger] prefix@[i] {
        assert forall|i: int| 0 <= i < prefix@.len() implies #[trigger] s[i] == prefix@[i] by {
            assert(chars@[from + i] == prefix@[i]);
        }
    }
}

/// The letters `A` to `Z` become those 32 places on, and nothing else changes.
pub proof fn law_lower_case_letters(c: char, out: char)
    requires
        call_ensures(to_ascii_lower, (c,), out),
    ensures
        65 <= c as u32 <= 90 ==> out as u32 == c as u32 + 32,
        !(65 <= c as u32 <= 90) ==> out == c,
{
}

} // verus!
