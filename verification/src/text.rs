//! Text utilities on character sequences, each proved against a small
//! specification of the standard-library behaviour it reproduces.

use vstd::prelude::*;
use vstd::string::*;

verus! {

/// Unicode `White_Space` property, as tested by `char::is_whitespace`.
pub open spec fn is_white_space(c: char) -> bool {
    let u = c as u32;
    ||| 0x9 <= u <= 0xd
    ||| u == 0x20
    ||| u == 0x85
    ||| u == 0xa0
    ||| u == 0x1680
    ||| 0x2000 <= u <= 0x200a
    ||| u == 0x2028
    ||| u == 0x2029
    ||| u == 0x202f
    ||| u == 0x205f
    ||| u == 0x3000
}

/// `s` with every leading character that satisfies `p` removed.
pub open spec fn strip_start(s: Seq<char>, p: spec_fn(char) -> bool) -> Seq<char>
    decreases s.len(),
{
    if s.len() > 0 && p(s[0]) {
        strip_start(s.drop_first(), p)
    } else {
        s
    }
}

/// `s` with every trailing character that satisfies `p` removed.
pub open spec fn strip_end(s: Seq<char>, p: spec_fn(char) -> bool) -> Seq<char>
    decreases s.len(),
{
    if s.len() > 0 && p(s.last()) {
        strip_end(s.drop_last(), p)
    } else {
        s
    }
}

/// `str::trim_matches` with predicate `p`: both ends stripped.
pub open spec fn strip_both(s: Seq<char>, p: spec_fn(char) -> bool) -> Seq<char> {
    strip_end(strip_start(s, p), p)
}

/// `str::trim`.
pub open spec fn trim_ws(s: Seq<char>) -> Seq<char> {
    strip_both(s, white_space())
}

/// The predicate `char::is_whitespace`.
pub open spec fn white_space() -> spec_fn(char) -> bool {
    |c: char| is_white_space(c)
}

/// The predicate "equals `x`".
pub open spec fn is_char(x: char) -> spec_fn(char) -> bool {
    |c: char| c == x
}

proof fn lemma_strip_start_skip(s: Seq<char>, p: spec_fn(char) -> bool, i: int)
    requires
        0 <= i < s.len(),
        p(s[i]),
    ensures
        strip_start(s.skip(i), p) == strip_start(s.skip(i + 1), p),
{
    assert(s.skip(i).drop_first() =~= s.skip(i + 1));
}

proof fn lemma_strip_end_sub(s: Seq<char>, p: spec_fn(char) -> bool, i: int, j: int)
    requires
        0 <= i < j <= s.len(),
        p(s[j - 1]),
    ensures
        strip_end(s.subrange(i, j), p) == strip_end(s.subrange(i, j - 1), p),
{
    assert(s.subrange(i, j).drop_last() =~= s.subrange(i, j - 1));
}

/// Stripping a start removes exactly the longest prefix of characters that
/// satisfy `p`: the result is `s` from some index on, every character before
/// that index satisfies `p`, and the first character kept does not.
pub proof fn lemma_strip_start_shape(s: Seq<char>, p: spec_fn(char) -> bool) -> (i: int)
    ensures
        0 <= i <= s.len(),
        strip_start(s, p) == s.skip(i),
        forall|k: int| 0 <= k < i ==> p(#[trigger] s[k]),
        i < s.len() ==> !p(s[i]),
    decreases s.len(),
{
    if s.len() > 0 && p(s[0]) {
        let j = lemma_strip_start_shape(s.drop_first(), p);
        assert(s.drop_first().skip(j) =~= s.skip(j + 1));
        assert forall|k: int| 0 <= k < j + 1 implies p(#[trigger] s[k]) by {
            if k > 0 {
                assert(s[k] == s.drop_first()[k - 1]);
            }
        }
        j + 1
    } else {
        assert(s.skip(0) =~= s);
        0
    }
}

/// Stripping an end removes exactly the longest suffix of characters that
/// satisfy `p`: the result is `s` up to some index, every character from that
/// index on satisfies `p`, and the last character kept does not.
pub proof fn lemma_strip_end_shape(s: Seq<char>, p: spec_fn(char) -> bool) -> (j: int)
    ensures
        0 <= j <= s.len(),
        strip_end(s, p) == s.take(j),
        forall|k: int| j <= k < s.len() ==> p(#[trigger] s[k]),
        j > 0 ==> !p(s[j - 1]),
    decreases s.len(),
{
    if s.len() > 0 && p(s.last()) {
        let j = lemma_strip_end_shape(s.drop_last(), p);
        assert(s.drop_last().take(j) =~= s.take(j));
        assert forall|k: int| j <= k < s.len() implies p(#[trigger] s[k]) by {
            if k < s.len() - 1 {
                assert(s[k] == s.drop_last()[k]);
            }
        }
        j
    } else {
        assert(s.take(s.len() as int) =~= s);
        s.len() as int
    }
}

/// `str::trim` keeps one contiguous run of the text: it removes the white
/// space before the first and after the last other character, and nothing
/// else (white space inside is kept).
pub proof fn lemma_trim_shape(s: Seq<char>) -> (r: (int, int))
    ensures
        0 <= r.0 <= r.1 <= s.len(),
        trim_ws(s) == s.subrange(r.0, r.1),
        forall|k: int| 0 <= k < r.0 ==> is_white_space(#[trigger] s[k]),
        forall|k: int| r.1 <= k < s.len() ==> is_white_space(#[trigger] s[k]),
        r.0 < r.1 ==> !is_white_space(s[r.0]) && !is_white_space(s[r.1 - 1]),
        r.0 == r.1 ==> forall|k: int| 0 <= k < s.len() ==> is_white_space(#[trigger] s[k]),
{
    let p = white_space();
    let i = lemma_strip_start_shape(s, p);
    let t = s.skip(i);
    let j = lemma_strip_end_shape(t, p);
    assert(t.take(j) =~= s.subrange(i, i + j));
    assert forall|k: int| i + j <= k < s.len() implies is_white_space(#[trigger] s[k]) by {
        assert(s[k] == t[k - i]);
        assert(p(t[k - i]));
    }
    assert forall|k: int| 0 <= k < i implies is_white_space(#[trigger] s[k]) by {
        assert(p(s[k]));
    }
    if j > 0 {
        assert(s[i + j - 1] == t[j - 1]);
        assert(!p(t[j - 1]));
        assert(t[0] == s[i]);
    }
    (i, i + j)
}

/// A class of characters that a trim removes.
#[derive(Debug)]
pub enum CharClass {
    /// Characters with the Unicode `White_Space` property.
    WhiteSpace,
    /// One given character.
    Exactly(char),
}

impl CharClass {
    /// The predicate that this class stands for.
    pub open spec fn pred(self) -> spec_fn(char) -> bool {
        match self {
            CharClass::WhiteSpace => white_space(),
            CharClass::Exactly(x) => is_char(x),
        }
    }

    /// Whether `c` belongs to the class.
    pub fn holds(&self, c: char) -> (r: bool)
        ensures
            r == (self.pred())(c),
    {
        match self {
            CharClass::WhiteSpace => is_whitespace_char(c),
            CharClass::Exactly(x) => c == *x,
        }
    }
}

/// Index of the first character of `s` that is not in `cls`.
fn skip_leading(s: &str, n: usize, cls: &CharClass) -> (i: usize)
    requires
        n == s@.len(),
    ensures
        i <= n,
        strip_start(s@, cls.pred()) == s@.skip(i as int),
{
    let ghost p = cls.pred();
    assert(s@.skip(0) =~= s@);
    let mut i: usize = 0;
    while i < n && cls.holds(s.get_char(i))
        invariant
            i <= n,
            n == s@.len(),
            p == cls.pred(),
            strip_start(s@, p) == strip_start(s@.skip(i as int), p),
        decreases n - i,
    {
        proof {
            lemma_strip_start_skip(s@, p, i as int);
        }
        i = i + 1;
    }
    proof {
        if i < n {
            assert(!p(s@.skip(i as int)[0]));
        } else {
            assert(s@.skip(i as int).len() == 0);
        }
    }
    i
}

/// Index just past the last character of `s[from..]` that is not in `cls`.
fn skip_trailing(s: &str, from: usize, n: usize, cls: &CharClass) -> (j: usize)
    requires
        n == s@.len(),
        from <= n,
    ensures
        from <= j <= n,
        strip_end(s@.subrange(from as int, n as int), cls.pred()) == s@.subrange(
            from as int,
            j as int,
        ),
{
    let ghost p = cls.pred();
    let mut j: usize = n;
    while j > from && cls.holds(s.get_char(j - 1))
        invariant
            from <= j <= n,
            n == s@.len(),
            p == cls.pred(),
            strip_end(s@.subrange(from as int, n as int), p) == strip_end(
                s@.subrange(from as int, j as int),
                p,
            ),
        decreases j,
    {
        proof {
            lemma_strip_end_sub(s@, p, from as int, j as int);
        }
        j = j - 1;
    }
    proof {
        let t = s@.subrange(from as int, j as int);
        if j > from {
            assert(t.last() == s@[j - 1]);
            assert(!p(t.last()));
        } else {
            assert(t.len() == 0);
        }
    }
    j
}

/// `str::trim_start_matches` for a class of characters.
pub fn trim_start_class<'a>(s: &'a str, cls: &CharClass) -> (r: &'a str)
    ensures
        r@ == strip_start(s@, cls.pred()),
{
    let n = s.unicode_len();
    let i = skip_leading(s, n, cls);
    s.substring_char(i, n)
}

/// `str::trim_matches` for a class of characters: both ends are stripped.
pub fn trim_class<'a>(s: &'a str, cls: &CharClass) -> (r: &'a str)
    ensures
        r@ == strip_both(s@, cls.pred()),
{
    let n = s.unicode_len();
    let i = skip_leading(s, n, cls);
    let j = skip_trailing(s, i, n, cls);
    proof {
        assert(s@.skip(i as int) =~= s@.subrange(i as int, n as int));
    }
    s.substring_char(i, j)
}

/// `str::trim`: leading and trailing white space removed.
pub fn trim<'a>(s: &'a str) -> (r: &'a str)
    ensures
        r@ == trim_ws(s@),
{
    trim_class(s, &CharClass::WhiteSpace)
}

/// `char::is_whitespace`.
pub fn is_whitespace_char(c: char) -> (r: bool)
    ensures
        r == is_white_space(c),
{
    let u = c as u32;
    (0x9 <= u && u <= 0xd) || u == 0x20 || u == 0x85 || u == 0xa0 || u == 0x1680 || (0x2000
        <= u && u <= 0x200a) || u == 0x2028 || u == 0x2029 || u == 0x202f || u == 0x205f || u
        == 0x3000
}

/// The ASCII digit for `d`, a value below ten.
pub open spec fn digit_char(d: nat) -> char {
    if d == 0 {
        '0'
    } else if d == 1 {
        '1'
    } else if d == 2 {
        '2'
    } else if d == 3 {
        '3'
    } else if d == 4 {
        '4'
    } else if d == 5 {
        '5'
    } else if d == 6 {
        '6'
    } else if d == 7 {
        '7'
    } else if d == 8 {
        '8'
    } else {
        '9'
    }
}

/// The decimal representation of `n`, as `Display` writes an unsigned integer.
pub open spec fn decimal(n: nat) -> Seq<char>
    decreases n,
{
    if n < 10 {
        seq![digit_char(n)]
    } else {
        decimal(n / 10).push(digit_char(n % 10))
    }
}

fn digit_str(d: u64) -> (r: &'static str)
    requires
        d < 10,
    ensures
        r@ == seq![digit_char(d as nat)],
{
    if d == 0 {
        proof {
            reveal_strlit("0");
        }
        "0"
    } else if d == 1 {
        proof {
            reveal_strlit("1");
        }
        "1"
    } else if d == 2 {
        proof {
            reveal_strlit("2");
        }
        "2"
    } else if d == 3 {
        proof {
            reveal_strlit("3");
        }
        "3"
    } else if d == 4 {
        proof {
            reveal_strlit("4");
        }
        "4"
    } else if d == 5 {
        proof {
            reveal_strlit("5");
        }
        "5"
    } else if d == 6 {
        proof {
            reveal_strlit("6");
        }
        "6"
    } else if d == 7 {
        proof {
            reveal_strlit("7");
        }
        "7"
    } else if d == 8 {
        proof {
            reveal_strlit("8");
        }
        "8"
    } else {
        proof {
            reveal_strlit("9");
        }
        "9"
    }
}

/// The decimal text of `n` (what `n.to_string()` gives).
pub fn decimal_string(n: u64) -> (r: String)
    ensures
        r@ == decimal(n as nat),
    decreases n,
{
    if n < 10 {
        String::from_str(digit_str(n))
    } else {
        let mut head = decimal_string(n / 10);
        head.append(digit_str(n % 10));
        head
    }
}

/// Whether `c` is one of `0`..`9`.
pub open spec fn is_digit(c: char) -> bool {
    48 <= (c as u32) <= 57
}

/// The value of the ASCII digit `c`.
pub open spec fn digit_value(c: char) -> nat {
    ((c as u32) - 48) as nat
}

/// The value of a run of decimal digits, most significant first.
pub open spec fn digits_value(s: Seq<char>) -> nat
    decreases s.len(),
{
    if s.len() == 0 {
        0
    } else {
        digits_value(s.drop_last()) * 10 + digit_value(s.last())
    }
}

/// Whether every character of `s` is a decimal digit.
pub open spec fn all_digits(s: Seq<char>) -> bool {
    forall|i: int| 0 <= i < s.len() ==> is_digit(#[trigger] s[i])
}

/// The digits of an unsigned number: `s` without one leading `+`.
pub open spec fn unsigned_body(s: Seq<char>) -> Seq<char> {
    if s.len() > 0 && s[0] == '+' {
        s.drop_first()
    } else {
        s
    }
}

/// What `u16::from_str` accepts: an optional `+`, then one or more decimal
/// digits whose value fits in 16 bits.
pub open spec fn parse_u16(s: Seq<char>) -> Option<u16> {
    let body = unsigned_body(s);
    if body.len() > 0 && all_digits(body) && digits_value(body) <= 65535 {
        Some(digits_value(body) as u16)
    } else {
        None
    }
}

proof fn lemma_digits_value_prefix(s: Seq<char>, k: int)
    requires
        0 <= k <= s.len(),
    ensures
        digits_value(s.take(k)) <= digits_value(s),
    decreases s.len(),
{
    if k < s.len() {
        lemma_digits_value_prefix(s.drop_last(), k);
        assert(s.drop_last().take(k) =~= s.take(k));
    } else {
        assert(s.take(k) =~= s);
    }
}

/// `s.parse::<u16>().ok()`.
pub fn parse_u16_text(s: &str) -> (r: Option<u16>)
    ensures
        r == parse_u16(s@),
{
    let n = s.unicode_len();
    let start: usize = if n > 0 && s.get_char(0) == '+' {
        1
    } else {
        0
    };
    let ghost body = s@.skip(start as int);
    proof {
        if start == 1 {
            assert(body =~= s@.drop_first());
        } else {
            assert(body =~= s@);
        }
    }
    if start >= n {
        return None;
    }
    let mut acc: u32 = 0;
    let mut i: usize = start;
    while i < n
        invariant
            start <= i <= n,
            n == s@.len(),
            body == s@.skip(start as int),
            body == unsigned_body(s@),
            acc <= 65535,
            forall|k: int| 0 <= k < i - start ==> is_digit(#[trigger] body[k]),
            acc == digits_value(body.take(i - start)),
        decreases n - i,
    {
        let c = s.get_char(i);
        let u = c as u32;
        if u < 48 || u > 57 {
            assert(body[i - start] == c);
            assert(!is_digit(body[i - start]));
            return None;
        }
        proof {
            assert(body.take(i - start + 1).drop_last() =~= body.take(i - start));
        }
        acc = acc * 10 + (u - 48);
        i = i + 1;
        assert(body[i - start - 1] == c);
        assert(acc == digits_value(body.take(i - start)));
        if acc > 65535 {
            proof {
                lemma_digits_value_prefix(body, i - start);
            }
            return None;
        }
    }
    proof {
        assert(body.take(n - start) =~= body);
    }
    Some(acc as u16)
}

/// Position of the first `\n` in `s`, or `s.len()` when there is none.
pub open spec fn newline_at(s: Seq<char>) -> nat
    decreases s.len(),
{
    if s.len() == 0 || s[0] == '\n' {
        0
    } else {
        1 + newline_at(s.drop_first())
    }
}

pub proof fn lemma_newline_at(s: Seq<char>)
    ensures
        newline_at(s) <= s.len(),
        newline_at(s) < s.len() ==> s[newline_at(s) as int] == '\n',
        forall|k: int| 0 <= k < newline_at(s) ==> s[k] != '\n',
    decreases s.len(),
{
    if s.len() > 0 && s[0] != '\n' {
        lemma_newline_at(s.drop_first());
        assert forall|k: int| 0 <= k < newline_at(s) implies s[k] != '\n' by {
            if k > 0 {
                assert(s[k] == s.drop_first()[k - 1]);
            }
        }
    }
}

/// A line that ended at a `\n`, without a `\r` just before that `\n`.
pub open spec fn drop_cr(line: Seq<char>) -> Seq<char> {
    if line.len() > 0 && line.last() == '\r' {
        line.drop_last()
    } else {
        line
    }
}

/// `str::lines`: the text split at each `\n`, a `\r` before the `\n` removed,
/// and no empty line after a final `\n`.
pub open spec fn text_lines(s: Seq<char>) -> Seq<Seq<char>>
    decreases s.len(),
{
    if s.len() == 0 {
        seq![]
    } else {
        let k = newline_at(s);
        if k >= s.len() {
            seq![s]
        } else {
            proof {
                lemma_newline_at(s);
            }
            seq![drop_cr(s.take(k as int))] + text_lines(s.skip((k + 1) as int))
        }
    }
}

/// The views of a sequence of string slices.
pub open spec fn views_of(v: Seq<&str>) -> Seq<Seq<char>> {
    v.map_values(|t: &str| t@)
}

proof fn lemma_newline_at_shift(s: Seq<char>, start: int, i: int)
    requires
        0 <= start <= i <= s.len(),
        forall|k: int| start <= k < i ==> s[k] != '\n',
        i < s.len() ==> s[i] == '\n',
    ensures
        newline_at(s.skip(start)) == i - start,
    decreases i - start,
{
    if start < i {
        lemma_newline_at_shift(s, start + 1, i);
        assert(s.skip(start).drop_first() =~= s.skip(start + 1));
    }
}

/// `s.lines()`, collected.
pub fn lines<'a>(s: &'a str) -> (r: Vec<&'a str>)
    ensures
        views_of(r@) == text_lines(s@),
{
    let n = s.unicode_len();
    let mut out: Vec<&'a str> = Vec::new();
    let mut start: usize = 0;
    let mut i: usize = 0;
    assert(s@.skip(0) =~= s@);
    while i < n
        invariant
            start <= i <= n,
            n == s@.len(),
            forall|k: int| start <= k < i ==> s@[k] != '\n',
            text_lines(s@) == views_of(out@) + text_lines(s@.skip(start as int)),
        decreases n - i,
    {
        if s.get_char(i) == '\n' {
            let ghost rest = s@.skip(start as int);
            proof {
                lemma_newline_at_shift(s@, start as int, i as int);
                assert(rest.take(i - start) =~= s@.subrange(start as int, i as int));
                assert(rest.skip(i - start + 1) =~= s@.skip(i + 1));
            }
            let end: usize = if i > start && s.get_char(i - 1) == '\r' {
                i - 1
            } else {
                i
            };
            let line = s.substring_char(start, end);
            proof {
                let whole = s@.subrange(start as int, i as int);
                if end < i {
                    assert(whole.drop_last() =~= line@);
                } else {
                    assert(whole =~= line@);
                }
                assert(views_of(out@.push(line)) =~= views_of(out@) + seq![line@]);
            }
            out.push(line);
            start = i + 1;
        }
        i = i + 1;
    }
    if start < n {
        let line = s.substring_char(start, n);
        proof {
            lemma_newline_at_shift(s@, start as int, n as int);
            assert(s@.skip(start as int) =~= line@);
            assert(views_of(out@.push(line)) =~= views_of(out@) + seq![line@]);
        }
        out.push(line);
    } else {
        assert(views_of(out@) + text_lines(s@.skip(start as int)) =~= views_of(out@));
    }
    out
}

/// Whether the text of `a` equals the text of `b`.
pub fn same_text(a: &str, b: &str) -> (r: bool)
    ensures
        r == (a@ == b@),
{
    a.to_owned() == b.to_owned()
}

/// Whether `needle` occurs at position `i` of `hay`.
pub open spec fn occurs_at(hay: Seq<u8>, needle: Seq<u8>, i: int) -> bool {
    0 <= i && i + needle.len() <= hay.len() && hay.subrange(i, i + needle.len()) == needle
}

/// Whether `needle` occurs anywhere in `hay`.
pub open spec fn bytes_contain(hay: Seq<u8>, needle: Seq<u8>) -> bool {
    exists|i: int| occurs_at(hay, needle, i)
}

fn matches_at(hay: &[u8], needle: &[u8], i: usize) -> (r: bool)
    requires
        i + needle@.len() <= hay@.len(),
    ensures
        r == occurs_at(hay@, needle@, i as int),
{
    let m = needle.len();
    let hl = hay.len();
    let mut k: usize = 0;
    while k < m
        invariant
            m == needle@.len(),
            hl == hay@.len(),
            i + m <= hay@.len(),
            k <= m,
            forall|j: int| 0 <= j < k ==> hay@[i + j] == needle@[j],
        decreases m - k,
    {
        if hay[i + k] != needle[k] {
            proof {
                assert(hay@.subrange(i as int, i + m)[k as int] != needle@[k as int]);
            }
            return false;
        }
        k = k + 1;
    }
    assert(hay@.subrange(i as int, i + m) =~= needle@);
    true
}

/// Whether the byte string `needle` occurs in `hay`.
pub fn contains_bytes(hay: &[u8], needle: &[u8]) -> (r: bool)
    ensures
        r == bytes_contain(hay@, needle@),
{
    let n = hay.len();
    let m = needle.len();
    if m > n {
        return false;
    }
    let mut i: usize = 0;
    while i <= n - m
        invariant
            n == hay@.len(),
            m == needle@.len(),
            m <= n,
            i <= n - m,
            forall|j: int| 0 <= j < i ==> !occurs_at(hay@, needle@, j),
        decreases n - m - i,
    {
        if matches_at(hay, needle, i) {
            return true;
        }
        if i == n - m {
            assert forall|j: int| !occurs_at(hay@, needle@, j) by {
                if 0 <= j <= i {
                }
            }
            return false;
        }
        i = i + 1;
    }
    false
}

/// `parts` joined with `sep` between neighbours (`[..].join(sep)`).
pub open spec fn join_with(parts: Seq<Seq<char>>, sep: Seq<char>) -> Seq<char>
    decreases parts.len(),
{
    if parts.len() == 0 {
        seq![]
    } else if parts.len() == 1 {
        parts[0]
    } else {
        join_with(parts.drop_last(), sep) + sep + parts.last()
    }
}

/// `parts.join(sep)` for owned strings.
pub fn join_strings(parts: &Vec<String>, sep: &str) -> (r: String)
    ensures
        r@ == join_with(parts.deep_view(), sep@),
{
    let ghost v = parts.deep_view();
    let mut out = String::new();
    let n = parts.len();
    let mut i: usize = 0;
    while i < n
        invariant
            n == parts@.len(),
            v == parts.deep_view(),
            i <= n,
            out@ == join_with(v.take(i as int), sep@),
        decreases n - i,
    {
        proof {
            assert(v.take(i + 1).drop_last() =~= v.take(i as int));
        }
        if i > 0 {
            out.append(sep);
        }
        out.append(parts[i].as_str());
        i = i + 1;
    }
    assert(v.take(n as int) =~= v);
    out
}

/// `parts.join(sep)` for string slices.
pub fn join_strs(parts: &[&str], sep: &str) -> (r: String)
    ensures
        r@ == join_with(views_of(parts@), sep@),
{
    let ghost v = views_of(parts@);
    let mut out = String::new();
    let n = parts.len();
    let mut i: usize = 0;
    while i < n
        invariant
            n == parts@.len(),
            v == views_of(parts@),
            i <= n,
            out@ == join_with(v.take(i as int), sep@),
        decreases n - i,
    {
        proof {
            assert(v.take(i + 1).drop_last() =~= v.take(i as int));
        }
        if i > 0 {
            out.append(sep);
        }
        out.append(parts[i]);
        i = i + 1;
    }
    assert(v.take(n as int) =~= v);
    out
}

proof fn lemma_digit_char(d: nat)
    requires
        d < 10,
    ensures
        is_digit(digit_char(d)),
        digit_value(digit_char(d)) == d,
{
}

/// The decimal text of `n` is a run of digits worth `n`, without a leading
/// zero unless `n` is zero.
pub proof fn lemma_decimal_value(n: nat)
    ensures
        decimal(n).len() > 0,
        all_digits(decimal(n)),
        digits_value(decimal(n)) == n,
        decimal(n).len() > 1 ==> decimal(n)[0] != '0',
    decreases n,
{
    if n < 10 {
        lemma_digit_char(n);
        assert(decimal(n).drop_last() =~= Seq::<char>::empty());
        assert(digits_value(Seq::<char>::empty()) == 0);
        assert(digits_value(decimal(n)) == digit_value(decimal(n).last()));
    } else {
        lemma_decimal_value(n / 10);
        lemma_digit_char(n % 10);
        let d = decimal(n);
        assert(d.drop_last() =~= decimal(n / 10));
        assert forall|i: int| 0 <= i < d.len() implies is_digit(#[trigger] d[i]) by {
            if i < d.len() - 1 {
                assert(d[i] == decimal(n / 10)[i]);
            }
        }
        assert(d[0] == decimal(n / 10)[0]);
        assert(d.last() == digit_char(n % 10));
        assert(digits_value(d) == digits_value(decimal(n / 10)) * 10 + digit_value(d.last()));
        assert((n / 10) * 10 + n % 10 == n);
        if n / 10 < 10 {
            assert(decimal(n / 10)[0] == digit_char(n / 10));
            assert(n / 10 >= 1);
        } else {
            lemma_decimal_value(n / 100);
            assert(decimal(n / 10).len() > 1);
        }
    }
}

/// A port number written in decimal reads back as itself, also with a `+` in front.
pub proof fn lemma_u16_reads_back(n: u16)
    ensures
        parse_u16(decimal(n as nat)) == Some(n),
        parse_u16(seq!['+'] + decimal(n as nat)) == Some(n),
{
    lemma_decimal_value(n as nat);
    let d = decimal(n as nat);
    assert(is_digit(d[0]));
    assert(unsigned_body(d) == d);
    assert((seq!['+'] + d).drop_first() =~= d);
    assert(unsigned_body(seq!['+'] + d) == d);
}

proof fn lemma_join_front(a: Seq<char>, rest: Seq<Seq<char>>, sep: Seq<char>)
    ensures
        join_with(seq![a] + rest, sep) == (if rest.len() == 0 {
            a
        } else {
            a + sep + join_with(rest, sep)
        }),
    decreases rest.len(),
{
    let x = seq![a] + rest;
    if rest.len() == 0 {
        assert(x =~= seq![a]);
    } else {
        assert(x.drop_last() =~= seq![a] + rest.drop_last());
        assert(x.last() == rest.last());
        lemma_join_front(a, rest.drop_last(), sep);
        if rest.len() == 1 {
            assert(rest.drop_last() =~= Seq::<Seq<char>>::empty());
            assert(join_with(rest, sep) == rest[0]);
        } else {
            assert(a + sep + join_with(rest.drop_last(), sep) + sep + rest.last() =~= a + sep + (
            join_with(rest.drop_last(), sep) + sep + rest.last()));
        }
    }
}

/// No line holds a `\n`.
pub proof fn lemma_lines_hold_no_newline(s: Seq<char>)
    ensures
        forall|i: int, k: int|
            0 <= i < text_lines(s).len() && 0 <= k < text_lines(s)[i].len() ==> #[trigger] text_lines(
                s,
            )[i][k] != '\n',
    decreases s.len(),
{
    if s.len() > 0 {
        lemma_newline_at(s);
        let k = newline_at(s);
        if k < s.len() {
            let rest = s.skip((k + 1) as int);
            lemma_lines_hold_no_newline(rest);
            let first = drop_cr(s.take(k as int));
            assert forall|i: int, m: int|
                0 <= i < text_lines(s).len() && 0 <= m < text_lines(s)[i].len() implies #[trigger] text_lines(
                s,
            )[i][m] != '\n' by {
                if i == 0 {
                    assert(text_lines(s)[0] == first);
                    assert(first[m] == s[m]);
                } else {
                    assert(text_lines(s)[i] == text_lines(rest)[i - 1]);
                }
            }
        }
    }
}

/// Text without carriage returns is its lines joined by `\n`, plus the final
/// `\n` if it ends with one: splitting into lines loses nothing else.
pub proof fn lemma_lines_rejoin(s: Seq<char>)
    requires
        forall|k: int| 0 <= k < s.len() ==> s[k] != '\r',
    ensures
        join_with(text_lines(s), seq!['\n']) + (if s.len() > 0 && s.last() == '\n' {
            seq!['\n']
        } else {
            Seq::<char>::empty()
        }) == s,
    decreases s.len(),
{
    if s.len() == 0 {
        assert(join_with(text_lines(s), seq!['\n']) =~= Seq::<char>::empty());
        assert(Seq::<char>::empty() + Seq::<char>::empty() =~= s);
    } else {
        lemma_newline_at(s);
        let k = newline_at(s);
        if k >= s.len() {
            assert(text_lines(s) =~= seq![s]);
            assert(s.last() == s[s.len() - 1]);
            assert(s + Seq::<char>::empty() =~= s);
        } else {
            let rest = s.skip((k + 1) as int);
            let head = s.take(k as int);
            if k > 0 {
                assert(head.last() == s[k - 1]);
            }
            assert(drop_cr(head) == head);
            assert(text_lines(s) == seq![head] + text_lines(rest));
            lemma_join_front(head, text_lines(rest), seq!['\n']);
            if rest.len() == 0 {
                assert(text_lines(rest) =~= Seq::<Seq<char>>::empty());
                assert(s.last() == s[k as int]);
                assert(head + seq!['\n'] =~= s);
            } else {
                lemma_lines_rejoin(rest);
                assert(text_lines(rest).len() > 0);
                assert(rest.last() == s.last());
                let tail = if s.last() == '\n' {
                    seq!['\n']
                } else {
                    Seq::<char>::empty()
                };
                assert(head + seq!['\n'] + join_with(text_lines(rest), seq!['\n']) + tail =~= head
                    + seq!['\n'] + (join_with(text_lines(rest), seq!['\n']) + tail));
                assert(head + seq!['\n'] + rest =~= s);
            }
        }
    }
}

} // verus!
