//! Reading one string field out of flat JSON, such as the output of
//! `flutter --version --machine`, without a JSON dependency.

use vstd::prelude::*;
use crate::text::{char_from_code, chars_of, push_char};

verus! {

/// `c` has the Unicode `White_Space` property, which is what
/// `char::is_whitespace` and `str::trim_start` go by.
pub open spec fn is_white_space(c: char) -> bool {
    let u = c as u32;
    ||| 0x09 <= u <= 0x0d
    ||| u == 0x20
    ||| u == 0x85
    ||| u == 0xa0
    ||| u == 0x1680
    ||| 0x2000 <= u <= 0x200a
    ||| u == 0x2028
    ||| u == 0x2029
    ||| u == 0x202f
    ||| u == 0x205f
    ||| u == 0x3000
}

/// `s` without its leading white space.
pub open spec fn trim_start(s: Seq<char>) -> Seq<char>
    decreases s.len(),
{
    if s.len() > 0 && is_white_space(s[0]) {
        trim_start(s.drop_first())
    } else {
        s
    }
}

/// `pat` occurs in `text` starting at index `i`.
pub open spec fn occurs_at(text: Seq<char>, pat: Seq<char>, i: int) -> bool {
    0 <= i && i + pat.len() <= text.len() && text.subrange(i, i + pat.len()) == pat
}

/// The first index at or after `from` where `pat` occurs in `text`.
pub open spec fn find_from(text: Seq<char>, pat: Seq<char>, from: int) -> Option<int>
    decreases text.len() + 1 - from,
{
    if from < 0 || from + pat.len() > text.len() {
        None
    } else if occurs_at(text, pat, from) {
        Some(from)
    } else {
        find_from(text, pat, from + 1)
    }
}

/// `p` put in front of a decoded value, where there is one.
pub open spec fn prefixed(p: Seq<char>, o: Option<Seq<char>>) -> Option<Seq<char>> {
    match o {
        Some(v) => Some(p + v),
        None => None,
    }
}

/// The value of a hexadecimal digit.
pub open spec fn hex_digit(c: char) -> Option<int> {
    let u = c as u32;
    if 0x30 <= u <= 0x39 {
        Some(u - 0x30)
    } else if 0x61 <= u <= 0x66 {
        Some(u - 0x61 + 10)
    } else if 0x41 <= u <= 0x46 {
        Some(u - 0x41 + 10)
    } else {
        None
    }
}

/// The number that the four hexadecimal digits of `s` from index `i` spell.
pub open spec fn hex4(s: Seq<char>, i: int) -> Option<int> {
    if 0 <= i && i + 4 <= s.len() && hex_digit(s[i]) is Some && hex_digit(s[i + 1]) is Some
        && hex_digit(s[i + 2]) is Some && hex_digit(s[i + 3]) is Some {
        Some(
            4096 * hex_digit(s[i])->0 + 256 * hex_digit(s[i + 1])->0 + 16 * hex_digit(s[i + 2])->0
                + hex_digit(s[i + 3])->0,
        )
    } else {
        None
    }
}

/// A UTF-16 unit that starts a surrogate pair.
pub open spec fn is_high_surrogate(u: int) -> bool {
    0xD800 <= u <= 0xDBFF
}

/// A UTF-16 unit that ends a surrogate pair.
pub open spec fn is_low_surrogate(u: int) -> bool {
    0xDC00 <= u <= 0xDFFF
}

/// The code point that the surrogate pair `high`, `low` encodes.
pub open spec fn pair_code(high: int, low: int) -> int {
    0x10000 + (high - 0xD800) * 0x400 + (low - 0xDC00)
}

/// The character that a backslash and `c` stand for, for every escape but
/// `\u`: JSON's `\b`, `\f`, `\n`, `\r` and `\t` their control characters, and
/// any other character itself, so `\"`, `\\` and `\/` are a quote, a
/// backslash and a slash, and a backslash before a character that starts no
/// JSON escape is dropped.
pub open spec fn unescape(c: char) -> char {
    if c == 'b' {
        '\x08'
    } else if c == 'f' {
        '\x0c'
    } else if c == 'n' {
        '\n'
    } else if c == 'r' {
        '\r'
    } else if c == 't' {
        '\t'
    } else {
        c
    }
}

/// `s` starts with a `\u` escape of one UTF-16 unit that is not a surrogate.
pub open spec fn is_unit_escape(s: Seq<char>) -> bool {
    &&& s.len() >= 2
    &&& s[0] == '\\'
    &&& s[1] == 'u'
    &&& hex4(s, 2) is Some
    &&& !is_high_surrogate(hex4(s, 2)->0)
    &&& !is_low_surrogate(hex4(s, 2)->0)
}

/// `s` starts with two `\u` escapes that form a surrogate pair.
pub open spec fn is_pair_escape(s: Seq<char>) -> bool {
    &&& s.len() >= 8
    &&& s[0] == '\\'
    &&& s[1] == 'u'
    &&& hex4(s, 2) is Some
    &&& is_high_surrogate(hex4(s, 2)->0)
    &&& s[6] == '\\'
    &&& s[7] == 'u'
    &&& hex4(s, 8) is Some
    &&& is_low_surrogate(hex4(s, 8)->0)
}

/// The contents of a JSON string whose opening quote has been read, decoded
/// up to the closing quote. JSON's escapes are decoded: `\"`, `\\`, `\/`,
/// `\b`, `\f`, `\n`, `\r`, `\t`, and `\uXXXX`, where two `\u` escapes that
/// form a surrogate pair stand for one character. Text that is not JSON is
/// read leniently: a backslash before any other character keeps that
/// character (a `\u` that is not a complete escape of a character keeps the
/// `u`), and every other character, a control character too, stands for
/// itself. `None` only where the text ends before the closing quote,
/// a backslash at its very end included.
pub open spec fn string_body(s: Seq<char>) -> Option<Seq<char>>
    decreases s.len(),
{
    if s.len() == 0 {
        None
    } else if s[0] == '"' {
        Some(Seq::empty())
    } else if s[0] == '\\' {
        if s.len() < 2 {
            None
        } else if is_unit_escape(s) {
            prefixed(seq![hex4(s, 2)->0 as char], string_body(s.skip(6)))
        } else if is_pair_escape(s) {
            prefixed(
                seq![pair_code(hex4(s, 2)->0, hex4(s, 8)->0) as char],
                string_body(s.skip(12)),
            )
        } else {
            prefixed(seq![unescape(s[1])], string_body(s.skip(2)))
        }
    } else {
        prefixed(seq![s[0]], string_body(s.skip(1)))
    }
}

/// `key` in double quotes.
pub open spec fn quoted(key: Seq<char>) -> Seq<char> {
    seq!['"'] + key + seq!['"']
}

/// The value of the string field `key` in `text`: after the first occurrence
/// of the quoted key, optional white space, a colon, optional white space and
/// a quoted string.
pub open spec fn json_string_value(text: Seq<char>, key: Seq<char>) -> Option<Seq<char>> {
    match find_from(text, quoted(key), 0) {
        None => None,
        Some(i) => {
            let after_key = trim_start(text.skip(i + quoted(key).len()));
            if after_key.len() > 0 && after_key[0] == ':' {
                let after_colon = trim_start(after_key.drop_first());
                if after_colon.len() > 0 && after_colon[0] == '"' {
                    string_body(after_colon.drop_first())
                } else {
                    None
                }
            } else {
                None
            }
        },
    }
}

/// Whether `c` is white space.
fn white_space(c: char) -> (yes: bool)
    ensures
        yes == is_white_space(c),
{
    let u = c as u32;
    (0x09 <= u && u <= 0x0d) || u == 0x20 || u == 0x85 || u == 0xa0 || u == 0x1680 || (0x2000
        <= u && u <= 0x200a) || u == 0x2028 || u == 0x2029 || u == 0x202f || u == 0x205f || u
        == 0x3000
}

/// The first index at or after which `t` holds no white space, from `from`.
fn skip_white_space(t: &Vec<char>, from: usize) -> (to: usize)
    requires
        from <= t.len(),
    ensures
        from <= to <= t.len(),
        trim_start(t@.skip(from as int)) == t@.skip(to as int),
{
    let mut j = from;
    while j < t.len() && white_space(t[j])
        invariant
            from <= j <= t.len(),
            trim_start(t@.skip(from as int)) == trim_start(t@.skip(j as int)),
        decreases t.len() - j,
    {
        assert(t@.skip(j as int).drop_first() =~= t@.skip(j + 1));
        j = j + 1;
    }
    j
}

/// Whether `q` occurs in `t` at index `i`.
fn matches_at(t: &Vec<char>, q: &Vec<char>, i: usize) -> (yes: bool)
    requires
        i + q.len() <= t.len(),
    ensures
        yes == occurs_at(t@, q@, i as int),
{
    let mut k: usize = 0;
    while k < q.len()
        invariant
            i + q.len() <= t.len(),
            k <= q.len(),
            forall|m: int| 0 <= m < k ==> t@[i + m] == q@[m],
        decreases q.len() - k,
    {
        if t[i + k] != q[k] {
            assert(t@.subrange(i as int, i + q.len())[k as int] != q@[k as int]);
            return false;
        }
        k = k + 1;
    }
    assert(t@.subrange(i as int, i + q.len()) =~= q@);
    true
}

/// The first index where `q` occurs in `t`.
fn find(t: &Vec<char>, q: &Vec<char>) -> (at: Option<usize>)
    ensures
        match at {
            Some(i) => find_from(t@, q@, 0) == Some(i as int) && i + q.len() <= t.len(),
            None => find_from(t@, q@, 0) is None,
        },
{
    if q.len() > t.len() {
        return None;
    }
    let last = t.len() - q.len();
    let mut i: usize = 0;
    loop
        invariant
            last + q.len() == t.len(),
            i <= last,
            find_from(t@, q@, 0) == find_from(t@, q@, i as int),
        decreases last - i,
    {
        if matches_at(t, q, i) {
            return Some(i);
        }
        if i == last {
            assert(find_from(t@, q@, i + 1) is None);
            return None;
        }
        i = i + 1;
    }
}

/// The value of the hexadecimal digit `c`.
fn hex_digit_value(c: char) -> (d: Option<u32>)
    ensures
        match d {
            Some(v) => hex_digit(c) == Some(v as int) && v < 16,
            None => hex_digit(c) is None,
        },
{
    let u = c as u32;
    if 0x30 <= u && u <= 0x39 {
        Some(u - 0x30)
    } else if 0x61 <= u && u <= 0x66 {
        Some(u - 0x61 + 10)
    } else if 0x41 <= u && u <= 0x46 {
        Some(u - 0x41 + 10)
    } else {
        None
    }
}

/// The number that the four hexadecimal digits of `t` from index `i` spell.
fn hex4_at(t: &Vec<char>, i: usize) -> (h: Option<u32>)
    ensures
        match h {
            Some(v) => hex4(t@, i as int) == Some(v as int) && v <= 0xFFFF,
            None => hex4(t@, i as int) is None,
        },
{
    if i > t.len() || t.len() - i < 4 {
        return None;
    }
    match (
        hex_digit_value(t[i]),
        hex_digit_value(t[i + 1]),
        hex_digit_value(t[i + 2]),
        hex_digit_value(t[i + 3]),
    ) {
        (Some(a), Some(b), Some(c), Some(d)) => Some(4096 * a + 256 * b + 16 * c + d),
        _ => None,
    }
}

/// The character that a backslash and `c` stand for, for every escape but
/// `\u`.
fn unescape_char(c: char) -> (e: char)
    ensures
        e == unescape(c),
{
    if c == 'b' {
        '\x08'
    } else if c == 'f' {
        '\x0c'
    } else if c == 'n' {
        '\n'
    } else if c == 'r' {
        '\r'
    } else if c == 't' {
        '\t'
    } else {
        c
    }
}

proof fn lemma_prefixed_push(before: Seq<char>, c: char, o: Option<Seq<char>>)
    ensures
        prefixed(before, prefixed(seq![c], o)) == prefixed(before.push(c), o),
{
    if let Some(v) = o {
        assert(before + (seq![c] + v) =~= before.push(c) + v);
    }
}

/// The character that the `\u` escape at index `k` of `t` stands for, and how
/// many characters the escape takes; `None` where it is not a complete escape
/// of a character.
fn decode_unicode_escape(t: &Vec<char>, k: usize) -> (r: Option<(char, usize)>)
    requires
        k + 1 < t.len(),
        t@[k as int] == '\\',
        t@[k + 1] == 'u',
    ensures
        match r {
            Some((ch, n)) => {
                &&& k + n <= t.len()
                &&& n > 0
                &&& string_body(t@.skip(k as int)) == prefixed(
                    seq![ch],
                    string_body(t@.skip(k + n)),
                )
            },
            None => !is_unit_escape(t@.skip(k as int)) && !is_pair_escape(t@.skip(k as int)),
        },
{
    let ghost rest = t@.skip(k as int);
    assert(rest[0] == '\\' && rest[1] == 'u');
    assert(hex4(rest, 2) == hex4(t@, k + 2));
    let h = match hex4_at(t, k + 2) {
        Some(h) => h,
        None => return None,
    };
    if 0xDC00 <= h && h <= 0xDFFF {
        return None;
    }
    if h < 0xD800 || h > 0xDBFF {
        let ch = match char_from_code(h) {
            Some(ch) => ch,
            None => return None,
        };
        proof {
            vstd::utf8::char_u32_cast(ch, h);
            assert(rest.skip(6) =~= t@.skip(k + 6));
        }
        Some((ch, 6))
    } else {
        if t.len() - k < 8 || t[k + 6] != '\\' || t[k + 7] != 'u' {
            return None;
        }
        assert(rest[6] == t@[k + 6] && rest[7] == t@[k + 7]);
        assert(hex4(rest, 8) == hex4(t@, k + 8));
        let l = match hex4_at(t, k + 8) {
            Some(l) => l,
            None => return None,
        };
        if l < 0xDC00 || l > 0xDFFF {
            return None;
        }
        let code = 0x10000 + (h - 0xD800) * 0x400 + (l - 0xDC00);
        let ch = match char_from_code(code) {
            Some(ch) => ch,
            None => return None,
        };
        proof {
            vstd::utf8::char_u32_cast(ch, code);
            assert(code as int == pair_code(h as int, l as int));
            assert(rest.skip(12) =~= t@.skip(k + 12));
        }
        Some((ch, 12))
    }
}

/// The next character of a JSON string's contents at index `k` of `t`, where
/// `t[k]` is not the closing quote, and how many characters it takes; `None`
/// where the text ends right after a backslash.
fn decode_one(t: &Vec<char>, k: usize) -> (r: Option<(char, usize)>)
    requires
        k < t.len(),
        t@[k as int] != '"',
    ensures
        match r {
            Some((ch, n)) => {
                &&& k + n <= t.len()
                &&& n > 0
                &&& string_body(t@.skip(k as int)) == prefixed(
                    seq![ch],
                    string_body(t@.skip(k + n)),
                )
            },
            None => string_body(t@.skip(k as int)) is None,
        },
{
    let c = t[k];
    let ghost rest = t@.skip(k as int);
    assert(rest[0] == c);
    if c == '\\' {
        if k + 1 >= t.len() {
            return None;
        }
        let d = t[k + 1];
        assert(rest[1] == d);
        if d == 'u' {
            if let Some(step) = decode_unicode_escape(t, k) {
                return Some(step);
            }
        }
        assert(rest.skip(2) =~= t@.skip(k + 2));
        Some((unescape_char(d), 2))
    } else {
        assert(rest.skip(1) =~= t@.skip(k + 1));
        Some((c, 1))
    }
}

/// The contents of the JSON string that starts at `from`, just after its
/// opening quote, decoded.
fn read_string_body(t: &Vec<char>, from: usize) -> (value: Option<String>)
    requires
        from <= t.len(),
    ensures
        match value {
            Some(v) => string_body(t@.skip(from as int)) == Some(v@),
            None => string_body(t@.skip(from as int)) is None,
        },
{
    let mut value = String::new();
    let mut k = from;
    while k < t.len()
        invariant
            from <= k <= t.len(),
            string_body(t@.skip(from as int)) == prefixed(value@, string_body(t@.skip(k as int))),
        decreases t.len() - k,
    {
        if t[k] == '"' {
            assert(t@.skip(k as int)[0] == '"');
            assert(value@ + Seq::<char>::empty() =~= value@);
            return Some(value);
        }
        let (ch, n) = match decode_one(t, k) {
            Some(step) => step,
            None => return None,
        };
        proof {
            lemma_prefixed_push(value@, ch, string_body(t@.skip(k + n)));
        }
        push_char(&mut value, ch);
        k = k + n;
    }
    None
}

/// A string field out of flat JSON: the value of `key`, read after the first
/// occurrence of `"key"`, a colon and an opening quote, up to the closing
/// quote, with JSON's escapes decoded and other text read leniently (see
/// `string_body`). `None` where any of these is missing, or the text ends
/// before the closing quote.
pub fn json_string_field(text: &str, key: &str) -> (value: Option<String>)
    ensures
        match value {
            Some(v) => json_string_value(text@, key@) == Some(v@),
            None => json_string_value(text@, key@) is None,
        },
{
    let t = chars_of(text);
    let mut q: Vec<char> = Vec::new();
    q.push('"');
    let k = chars_of(key);
    let mut m: usize = 0;
    while m < k.len()
        invariant
            m <= k.len(),
            k@ == key@,
            q@ == seq!['"'] + key@.take(m as int),
        decreases k.len() - m,
    {
        q.push(k[m]);
        m = m + 1;
        assert(seq!['"'] + key@.take(m as int) =~= (seq!['"'] + key@.take(m - 1)).push(k@[m - 1]));
    }
    q.push('"');
    assert(q@ =~= quoted(key@));
    let at = match find(&t, &q) {
        Some(i) => i,
        None => return None,
    };
    let j = skip_white_space(&t, at + q.len());
    if j >= t.len() || t[j] != ':' {
        return None;
    }
    assert(t@.skip(j as int).drop_first() =~= t@.skip(j + 1));
    let j = skip_white_space(&t, j + 1);
    if j >= t.len() || t[j] != '"' {
        return None;
    }
    assert(t@.skip(j as int).drop_first() =~= t@.skip(j + 1));
    read_string_body(&t, j + 1)
}

/// The lower-case hexadecimal digit for `n`.
pub open spec fn hex_char(n: int) -> char {
    "0123456789abcdef"@[n]
}

/// How JSON writes `c` inside a string: a quote and a backslash behind a
/// backslash, the control characters that have a short escape with it, the
/// other control characters as `\u00XX`, and every other character as it is.
pub open spec fn escape_char(c: char) -> Seq<char> {
    if c == '"' {
        seq!['\\', '"']
    } else if c == '\\' {
        seq!['\\', '\\']
    } else if c == '\x08' {
        seq!['\\', 'b']
    } else if c == '\x0c' {
        seq!['\\', 'f']
    } else if c == '\n' {
        seq!['\\', 'n']
    } else if c == '\r' {
        seq!['\\', 'r']
    } else if c == '\t' {
        seq!['\\', 't']
    } else if (c as u32) < 0x20 {
        seq!['\\', 'u', '0', '0', hex_char((c as u32) as int / 16), hex_char((c as u32) as int % 16)]
    } else {
        seq![c]
    }
}

/// `value` written as the contents of a JSON string.
pub open spec fn escape_json(value: Seq<char>) -> Seq<char>
    decreases value.len(),
{
    if value.len() == 0 {
        Seq::empty()
    } else {
        escape_char(value[0]) + escape_json(value.drop_first())
    }
}

/// Every character of `s` is white space.
pub open spec fn all_white_space(s: Seq<char>) -> bool {
    forall|i: int| 0 <= i < s.len() ==> is_white_space(#[trigger] s[i])
}

/// `value` written with only its quotes and backslashes escaped, each behind a
/// backslash.
pub open spec fn escape_quotes(value: Seq<char>) -> Seq<char>
    decreases value.len(),
{
    if value.len() == 0 {
        Seq::empty()
    } else if value[0] == '"' || value[0] == '\\' {
        seq!['\\', value[0]] + escape_quotes(value.drop_first())
    } else {
        seq![value[0]] + escape_quotes(value.drop_first())
    }
}

/// The text of a field `key` whose string is written as `written`, after
/// `before` and followed by `after`, with the white space `gap1` before the
/// colon and `gap2` after it.
pub open spec fn json_field_text(
    before: Seq<char>,
    key: Seq<char>,
    gap1: Seq<char>,
    gap2: Seq<char>,
    written: Seq<char>,
    after: Seq<char>,
) -> Seq<char> {
    before + quoted(key) + gap1 + seq![':'] + gap2 + seq!['"'] + written + seq!['"'] + after
}

proof fn lemma_find_first(text: Seq<char>, pat: Seq<char>, from: int, at: int)
    requires
        0 <= from <= at,
        occurs_at(text, pat, at),
        forall|i: int| from <= i < at ==> !occurs_at(text, pat, i),
    ensures
        find_from(text, pat, from) == Some(at),
    decreases at - from,
{
    if from < at {
        assert(!occurs_at(text, pat, from));
        lemma_find_first(text, pat, from + 1, at);
    }
}

proof fn lemma_trim_white_space(gap: Seq<char>, s: Seq<char>)
    requires
        all_white_space(gap),
    ensures
        trim_start(gap + s) == trim_start(s),
    decreases gap.len(),
{
    if gap.len() > 0 {
        assert(is_white_space(gap[0]));
        assert((gap + s).drop_first() =~= gap.drop_first() + s);
        lemma_trim_white_space(gap.drop_first(), s);
    } else {
        assert(gap + s =~= s);
    }
}

proof fn lemma_hex_char(n: int)
    requires
        0 <= n < 16,
    ensures
        hex_digit(hex_char(n)) == Some(n),
{
    reveal_strlit("0123456789abcdef");
    if n == 0 {} else if n == 1 {} else if n == 2 {} else if n == 3 {} else if n == 4 {}
    else if n == 5 {} else if n == 6 {} else if n == 7 {} else if n == 8 {} else if n == 9 {}
    else if n == 10 {} else if n == 11 {} else if n == 12 {} else if n == 13 {}
    else if n == 14 {} else {}
}

proof fn lemma_string_body_escaped_char(c: char, tail: Seq<char>)
    ensures
        string_body(escape_char(c) + tail) == prefixed(seq![c], string_body(tail)),
{
    let e = escape_char(c);
    let s = e + tail;
    let u = c as u32;
    if c == '"' || c == '\\' || c == '\x08' || c == '\x0c' || c == '\n' || c == '\r' || c
        == '\t' {
        assert(s[0] == '\\' && s[1] == e[1]);
        assert(s.skip(2) =~= tail);
    } else if u < 0x20 {
        let hi = u as int / 16;
        let lo = u as int % 16;
        assert(u as int == 16 * hi + lo);
        lemma_hex_char(hi);
        lemma_hex_char(lo);
        assert(s[0] == '\\' && s[1] == 'u' && s[2] == '0' && s[3] == '0');
        assert(s[4] == hex_char(hi) && s[5] == hex_char(lo));
        assert(hex4(s, 2) == Some(u as int));
        vstd::utf8::char_u32_cast(c, u);
        assert(s.skip(6) =~= tail);
    } else {
        assert(s[0] == c);
        assert(s.skip(1) =~= tail);
    }
}

proof fn lemma_string_body_escaped(value: Seq<char>, rest: Seq<char>)
    ensures
        string_body(escape_json(value) + seq!['"'] + rest) == Some(value),
    decreases value.len(),
{
    let s = escape_json(value) + seq!['"'] + rest;
    if value.len() == 0 {
        assert(s =~= seq!['"'] + rest);
    } else {
        lemma_string_body_escaped(value.drop_first(), rest);
        let tail = escape_json(value.drop_first()) + seq!['"'] + rest;
        assert(s =~= escape_char(value[0]) + tail);
        lemma_string_body_escaped_char(value[0], tail);
        assert(seq![value[0]] + value.drop_first() =~= value);
    }
}

proof fn lemma_string_body_quotes_escaped(value: Seq<char>, rest: Seq<char>)
    ensures
        string_body(escape_quotes(value) + seq!['"'] + rest) == Some(value),
    decreases value.len(),
{
    let s = escape_quotes(value) + seq!['"'] + rest;
    if value.len() == 0 {
        assert(s =~= seq!['"'] + rest);
    } else {
        lemma_string_body_quotes_escaped(value.drop_first(), rest);
        let tail = escape_quotes(value.drop_first()) + seq!['"'] + rest;
        let c = value[0];
        if c == '"' || c == '\\' {
            assert(s =~= seq!['\\', c] + tail);
            assert(s[1] == c);
            assert(s.skip(2) =~= tail);
        } else {
            assert(s =~= seq![c] + tail);
            assert(s.skip(1) =~= tail);
        }
        assert(seq![c] + value.drop_first() =~= value);
    }
}

/// A field is read as its string: where `"key"` does not occur before the
/// field and the text around the colon is white space, the field reads as
/// the string written after the colon, decoded.
pub proof fn lemma_json_field_reads_string(
    before: Seq<char>,
    key: Seq<char>,
    gap1: Seq<char>,
    gap2: Seq<char>,
    written: Seq<char>,
    after: Seq<char>,
)
    requires
        all_white_space(gap1),
        all_white_space(gap2),
        forall|i: int|
            0 <= i < before.len() ==> !occurs_at(
                #[trigger] json_field_text(before, key, gap1, gap2, written, after),
                quoted(key),
                i,
            ),
    ensures
        json_string_value(json_field_text(before, key, gap1, gap2, written, after), key)
            == string_body(written + seq!['"'] + after),
{
    let text = json_field_text(before, key, gap1, gap2, written, after);
    let q = quoted(key);
    let b = before.len() as int;
    let body = written + seq!['"'] + after;
    let tail2 = seq!['"'] + body;
    let tail1 = seq![':'] + (gap2 + tail2);
    assert(text =~= before + q + (gap1 + tail1));
    assert(text.subrange(b, b + q.len()) =~= q);
    lemma_find_first(text, q, 0, b);
    assert(text.skip(b + q.len()) =~= gap1 + tail1);
    lemma_trim_white_space(gap1, tail1);
    assert(!is_white_space(':'));
    assert(trim_start(tail1) == tail1);
    assert(tail1.drop_first() =~= gap2 + tail2);
    lemma_trim_white_space(gap2, tail2);
    assert(!is_white_space('"'));
    assert(trim_start(tail2) == tail2);
    assert(tail2.drop_first() =~= body);
}

/// A field read back is the value written: where `"key"` does not occur
/// before the field, the text around the colon is white space, and the value
/// is written as JSON writes a string, the field reads as the value, whatever
/// characters it holds.
pub proof fn lemma_json_field_roundtrip(
    before: Seq<char>,
    key: Seq<char>,
    gap1: Seq<char>,
    gap2: Seq<char>,
    value: Seq<char>,
    after: Seq<char>,
)
    requires
        all_white_space(gap1),
        all_white_space(gap2),
        forall|i: int|
            0 <= i < before.len() ==> !occurs_at(
                #[trigger] json_field_text(before, key, gap1, gap2, escape_json(value), after),
                quoted(key),
                i,
            ),
    ensures
        json_string_value(
            json_field_text(before, key, gap1, gap2, escape_json(value), after),
            key,
        ) == Some(value),
{
    lemma_json_field_reads_string(before, key, gap1, gap2, escape_json(value), after);
    lemma_string_body_escaped(value, after);
}

/// A value written with only its quotes and backslashes escaped also reads
/// back unchanged, whatever characters it holds, control characters and
/// included.
pub proof fn lemma_json_field_roundtrip_quotes(
    before: Seq<char>,
    key: Seq<char>,
    gap1: Seq<char>,
    gap2: Seq<char>,
    value: Seq<char>,
    after: Seq<char>,
)
    requires
        all_white_space(gap1),
        all_white_space(gap2),
        forall|i: int|
            0 <= i < before.len() ==> !occurs_at(
                #[trigger] json_field_text(before, key, gap1, gap2, escape_quotes(value), after),
                quoted(key),
                i,
            ),
    ensures
        json_string_value(
            json_field_text(before, key, gap1, gap2, escape_quotes(value), after),
            key,
        ) == Some(value),
{
    lemma_json_field_reads_string(before, key, gap1, gap2, escape_quotes(value), after);
    lemma_string_body_quotes_escaped(value, after);
}

/// JSON's short escapes: a backslash before a quote, a backslash, a slash,
/// `b`, `f`, `n`, `r` or `t` stands for a quote, a backslash, a slash, a
/// backspace, a form feed, a line feed, a carriage return or a tab; before
/// any other character but `u` it keeps that character.
pub proof fn lemma_short_escapes(c: char, rest: Seq<char>)
    ensures
        c != 'u' ==> string_body(seq!['\\', c] + rest) == prefixed(
            seq![
                if c == 'b' {
                    '\x08'
                } else if c == 'f' {
                    '\x0c'
                } else if c == 'n' {
                    '\n'
                } else if c == 'r' {
                    '\r'
                } else if c == 't' {
                    '\t'
                } else {
                    c
                },
            ],
            string_body(rest),
        ),
{
    let s = seq!['\\', c] + rest;
    assert(s[0] == '\\' && s[1] == c);
    assert(s.skip(2) =~= rest);
}

/// A `\u` escape of four hexadecimal digits that spell a code point outside
/// the surrogates stands for the character with that code point.
pub proof fn lemma_unicode_escape(h: int, rest: Seq<char>)
    requires
        0 <= h < 0x10000,
        !(0xD800 <= h <= 0xDFFF),
    ensures
        string_body(
            seq![
                '\\',
                'u',
                hex_char(h / 4096),
                hex_char(h / 256 % 16),
                hex_char(h / 16 % 16),
                hex_char(h % 16),
            ] + rest,
        ) == prefixed(seq![h as char], string_body(rest)),
{
    let d0 = h / 4096;
    let d1 = h / 256 % 16;
    let d2 = h / 16 % 16;
    let d3 = h % 16;
    assert(0 <= d0 < 16 && 0 <= d1 < 16 && 0 <= d2 < 16 && 0 <= d3 < 16);
    assert(4096 * d0 + 256 * d1 + 16 * d2 + d3 == h);
    lemma_hex_char(d0);
    lemma_hex_char(d1);
    lemma_hex_char(d2);
    lemma_hex_char(d3);
    let s = seq!['\\', 'u', hex_char(d0), hex_char(d1), hex_char(d2), hex_char(d3)] + rest;
    assert(s[0] == '\\' && s[1] == 'u');
    assert(s[2] == hex_char(d0) && s[3] == hex_char(d1) && s[4] == hex_char(d2) && s[5]
        == hex_char(d3));
    assert(hex4(s, 2) == Some(h));
    assert(s.skip(6) =~= rest);
}

} // verus!
