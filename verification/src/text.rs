//! Output normalisation: turning what a command printed into a value.
//!
//! Two modes exist. The plain mode trims the whole output; the keyed mode
//! finds the first line that begins with `key=` and trims what follows the
//! prefix. Both give the empty string when nothing is found.

use vstd::prelude::*;
use vstd::string::{StrSliceExecFns, StringExecFns};

verus! {

/// Whether `c` has the Unicode property `White_Space`.
pub open spec fn is_whitespace(c: char) -> bool {
    let n = c as u32;
    ||| 0x09 <= n <= 0x0D
    ||| n == 0x20
    ||| n == 0x85
    ||| n == 0xA0
    ||| n == 0x1680
    ||| 0x2000 <= n <= 0x200A
    ||| n == 0x2028
    ||| n == 0x2029
    ||| n == 0x202F
    ||| n == 0x205F
    ||| n == 0x3000
}

/// `s` without its leading white space.
pub open spec fn trim_start(s: Seq<char>) -> Seq<char>
    decreases s.len(),
{
    if s.len() > 0 && is_whitespace(s[0]) {
        trim_start(s.skip(1))
    } else {
        s
    }
}

/// `s` without its trailing white space.
pub open spec fn trim_end(s: Seq<char>) -> Seq<char>
    decreases s.len(),
{
    if s.len() > 0 && is_whitespace(s.last()) {
        trim_end(s.drop_last())
    } else {
        s
    }
}

/// `s` without leading and trailing white space.
pub open spec fn trimmed(s: Seq<char>) -> Seq<char> {
    trim_end(trim_start(s))
}

/// The number of characters before the first line feed of `text`, or its
/// length when it holds none.
pub open spec fn first_line_len(text: Seq<char>) -> nat
    decreases text.len(),
{
    if text.len() == 0 || text[0] == '\n' {
        0
    } else {
        1 + first_line_len(text.skip(1))
    }
}

/// The value of the first line of `text` that begins with `key` followed by
/// `=`: what stands between that prefix and the end of the line, trimmed.
/// Lines are separated by line feeds. Empty when no line begins so.
pub open spec fn keyed_value(text: Seq<char>, key: Seq<char>) -> Seq<char>
    decreases text.len(),
{
    let n = first_line_len(text) as int;
    let line = text.take(n);
    let prefix = key.push('=');
    if prefix.is_prefix_of(line) {
        trimmed(line.skip(prefix.len() as int))
    } else if n >= text.len() {
        Seq::empty()
    } else {
        keyed_value(text.skip(n + 1), key)
    }
}

/// The text that an optional string holds, if it holds one.
pub open spec fn optional_text(value: Option<String>) -> Option<Seq<char>> {
    match value {
        Some(text) => Some(text@),
        None => None,
    }
}

/// The character of the decimal digit `d`.
pub open spec fn digit_char(d: nat) -> char
    recommends
        d < 10,
{
    if d == 0 {
        '0'
    } else if d == 1 {
        '1'
    } else if d == 2 {
        '2'
    } else if d == 3 {
        '3'
    } else if d == 4 {
        '4'
    } else if d == 5 {
        '5'
    } else if d == 6 {
        '6'
    } else if d == 7 {
        '7'
    } else if d == 8 {
        '8'
    } else {
        '9'
    }
}

/// `n` in decimal notation, without leading zeros.
pub open spec fn decimal(n: nat) -> Seq<char>
    decreases n,
{
    if n < 10 {
        seq![digit_char(n)]
    } else {
        decimal(n / 10).push(digit_char(n % 10))
    }
}

/// How a strategy's output is turned into a candidate value.
#[derive(Clone, Debug, PartialEq, Eq)]
pub enum Extraction {
    /// The whole output, trimmed.
    Plain,
    /// The value of the first line `key=value` with the given key.
    Keyed(String),
}

/// The mathematical content of an [`Extraction`].
pub enum ExtractionView {
    Plain,
    Keyed(Seq<char>),
}

impl View for Extraction {
    type V = ExtractionView;

    open spec fn view(&self) -> ExtractionView {
        match self {
            Extraction::Plain => ExtractionView::Plain,
            Extraction::Keyed(key) => ExtractionView::Keyed(key@),
        }
    }
}

/// The candidate value that `mode` finds in `stdout`.
pub open spec fn extracted(mode: ExtractionView, stdout: Seq<char>) -> Seq<char> {
    match mode {
        ExtractionView::Plain => trimmed(stdout),
        ExtractionView::Keyed(key) => keyed_value(stdout, key),
    }
}

/// `first_line_len` never runs past the text, stops at a line feed, and
/// passes none.
pub proof fn law_first_line_len(text: Seq<char>)
    ensures
        first_line_len(text) <= text.len(),
        first_line_len(text) < text.len() ==> text[first_line_len(text) as int] == '\n',
        forall|i: int| 0 <= i < first_line_len(text) ==> text[i] != '\n',
    decreases text.len(),
{
    if text.len() == 0 || text[0] == '\n' {
    } else {
        let rest = text.skip(1);
        law_first_line_len(rest);
        assert forall|i: int| 0 <= i < first_line_len(text) implies text[i] != '\n' by {
            if i > 0 {
                assert(rest[i - 1] == text[i]);
            }
        }
    }
}

/// Where the leading white space of `s` ends.
proof fn lemma_trim_start(s: Seq<char>) -> (a: int)
    ensures
        0 <= a <= s.len(),
        trim_start(s) == s.skip(a),
        forall|i: int| 0 <= i < a ==> is_whitespace(s[i]),
        a < s.len() ==> !is_whitespace(s[a]),
    decreases s.len(),
{
    if s.len() > 0 && is_whitespace(s[0]) {
        let rest = s.skip(1);
        let inner = lemma_trim_start(rest);
        assert(rest.skip(inner) == s.skip(inner + 1));
        assert forall|i: int| 0 <= i < inner + 1 implies is_whitespace(s[i]) by {
            if i > 0 {
                assert(rest[i - 1] == s[i]);
            }
        }
        if inner + 1 < s.len() {
            assert(rest[inner] == s[inner + 1]);
        }
        inner + 1
    } else {
        assert(s.skip(0) == s);
        0
    }
}

/// Where the trailing white space of `s` begins.
proof fn lemma_trim_end(s: Seq<char>) -> (b: int)
    ensures
        0 <= b <= s.len(),
        trim_end(s) == s.take(b),
        forall|i: int| b <= i < s.len() ==> is_whitespace(s[i]),
        b > 0 ==> !is_whitespace(s[b - 1]),
    decreases s.len(),
{
    if s.len() > 0 && is_whitespace(s.last()) {
        let rest = s.drop_last();
        let inner = lemma_trim_end(rest);
        assert(rest.take(inner) == s.take(inner));
        assert forall|i: int| inner <= i < s.len() implies is_whitespace(s[i]) by {
            if i < s.len() - 1 {
                assert(rest[i] == s[i]);
            }
        }
        if inner > 0 {
            assert(rest[inner - 1] == s[inner - 1]);
        }
        inner
    } else {
        assert(s.take(s.len() as int) == s);
        s.len() as int
    }
}

/// What trimming leaves: the part `a..b` of `s` such that everything before
/// `a` and everything from `b` on is white space, and that neither begins
/// nor ends with white space. It is empty exactly when `s` is all white
/// space.
pub proof fn law_trimmed(s: Seq<char>) -> (bounds: (int, int))
    ensures
        0 <= bounds.0 <= bounds.1 <= s.len(),
        trimmed(s) == s.subrange(bounds.0, bounds.1),
        forall|i: int| 0 <= i < bounds.0 ==> is_whitespace(s[i]),
        forall|i: int| bounds.1 <= i < s.len() ==> is_whitespace(s[i]),
        bounds.0 < bounds.1 ==> !is_whitespace(s[bounds.0]) && !is_whitespace(s[bounds.1 - 1]),
        bounds.0 == bounds.1 <==> forall|i: int| 0 <= i < s.len() ==> is_whitespace(s[i]),
{
    let a = lemma_trim_start(s);
    let tail = s.skip(a);
    let kept = lemma_trim_end(tail);
    let b = a + kept;
    assert(tail.take(kept) == s.subrange(a, b));
    assert forall|i: int| b <= i < s.len() implies is_whitespace(s[i]) by {
        assert(tail[i - a] == s[i]);
    }
    if a < s.len() {
        assert(tail[0] == s[a]);
        assert(kept > 0);
        assert(tail[kept - 1] == s[b - 1]);
    }
    (a, b)
}

/// Trimming what is trimmed changes nothing.
pub proof fn law_trimmed_idempotent(s: Seq<char>)
    ensures
        trimmed(trimmed(s)) == trimmed(s),
{
    let (a, b) = law_trimmed(s);
    let t = trimmed(s);
    if a < b {
        assert(t[0] == s[a]);
        assert(t.last() == s[b - 1]);
    }
}

/// Whether `from..to` is a line of `text`: it starts at the beginning or
/// after a line feed, ends at the end or before a line feed, and holds none.
pub open spec fn is_line(text: Seq<char>, from: int, to: int) -> bool {
    &&& 0 <= from <= to <= text.len()
    &&& from == 0 || text[from - 1] == '\n'
    &&& to == text.len() || text[to] == '\n'
    &&& forall|i: int| from <= i < to ==> text[i] != '\n'
}

/// Whether the line `from..to` of `text` begins with `key` followed by `=`.
pub open spec fn is_keyed_line(text: Seq<char>, key: Seq<char>, from: int, to: int) -> bool {
    is_line(text, from, to) && key.push('=').is_prefix_of(text.subrange(from, to))
}

/// A line of the text after the first line feed is a line of the text.
proof fn lemma_line_shift(text: Seq<char>, from: int, to: int)
    requires
        first_line_len(text) < text.len(),
        is_line(text.skip(first_line_len(text) as int + 1), from, to),
    ensures
        is_line(text, from + first_line_len(text) + 1, to + first_line_len(text) + 1),
        text.skip(first_line_len(text) as int + 1).subrange(from, to) == text.subrange(
            from + first_line_len(text) + 1,
            to + first_line_len(text) + 1,
        ),
{
    law_first_line_len(text);
    let n = first_line_len(text) as int + 1;
    let rest = text.skip(n);
    assert forall|i: int| from + n <= i < to + n implies text[i] != '\n' by {
        assert(rest[i - n] == text[i]);
    }
    if from > 0 {
        assert(rest[from - 1] == text[from + n - 1]);
    }
    if to < rest.len() {
        assert(rest[to] == text[to + n]);
    }
}

/// The keyed value comes from the first line that begins with the prefix:
/// when `from..to` is such a line and no line before it is one, the value is
/// what stands between the prefix and the end of that line, trimmed.
pub proof fn law_keyed_value_found(text: Seq<char>, key: Seq<char>, from: int, to: int)
    requires
        is_keyed_line(text, key, from, to),
        forall|f: int, t: int| f < from ==> !#[trigger] is_keyed_line(text, key, f, t),
    ensures
        keyed_value(text, key) == trimmed(text.subrange(from + key.len() + 1, to)),
    decreases text.len(),
{
    let n = first_line_len(text) as int;
    law_first_line_len(text);
    assert(text.take(n) == text.subrange(0, n));
    if from == 0 {
        if to < n {
            assert(text[to] == '\n');
        }
        if n < to {
            assert(text[n] == '\n');
        }
        assert(text.subrange(0, n).skip(key.push('=').len() as int) == text.subrange(
            key.len() as int + 1,
            n,
        ));
    } else {
        assert(text[from - 1] == '\n');
        assert(n <= from - 1);
        assert(is_line(text, 0, n));
        assert(!is_keyed_line(text, key, 0, n));
        let rest = text.skip(n + 1);
        let shifted = from - (n + 1);
        let end = to - (n + 1);
        assert(is_line(rest, shifted, end)) by {
            assert forall|i: int| shifted <= i < end implies rest[i] != '\n' by {
                assert(rest[i] == text[i + n + 1]);
            }
            if shifted > 0 {
                assert(rest[shifted - 1] == text[from - 1]);
            }
            if end < rest.len() {
                assert(rest[end] == text[to]);
            }
        }
        assert(rest.subrange(shifted, end) == text.subrange(from, to));
        assert forall|f: int, t: int| f < shifted implies !#[trigger] is_keyed_line(
            rest,
            key,
            f,
            t,
        ) by {
            if is_line(rest, f, t) {
                lemma_line_shift(text, f, t);
                assert(!is_keyed_line(text, key, f + n + 1, t + n + 1));
            }
        }
        law_keyed_value_found(rest, key, shifted, end);
        assert(rest.subrange(shifted + key.len() + 1, end) == text.subrange(
            from + key.len() + 1,
            to,
        ));
    }
}

/// Where no line begins with the prefix, the keyed value is empty.
pub proof fn law_keyed_value_absent(text: Seq<char>, key: Seq<char>)
    requires
        forall|f: int, t: int| !#[trigger] is_keyed_line(text, key, f, t),
    ensures
        keyed_value(text, key) == Seq::<char>::empty(),
    decreases text.len(),
{
    let n = first_line_len(text) as int;
    law_first_line_len(text);
    assert(text.take(n) == text.subrange(0, n));
    assert(is_line(text, 0, n));
    assert(!is_keyed_line(text, key, 0, n));
    if n < text.len() {
        let rest = text.skip(n + 1);
        assert forall|f: int, t: int| !#[trigger] is_keyed_line(rest, key, f, t) by {
            if is_line(rest, f, t) {
                lemma_line_shift(text, f, t);
                assert(!is_keyed_line(text, key, f + n + 1, t + n + 1));
            }
        }
        law_keyed_value_absent(rest, key);
    }
}

/// Decides whether `c` is white space.
pub fn char_is_whitespace(c: char) -> (b: bool)
    ensures
        b == is_whitespace(c),
{
    let n: u32 = c as u32;
    (0x09 <= n && n <= 0x0D) || n == 0x20 || n == 0x85 || n == 0xA0 || n == 0x1680 || (0x2000 <= n
        && n <= 0x200A) || n == 0x2028 || n == 0x2029 || n == 0x202F || n == 0x205F || n == 0x3000
}

/// The characters of `s`, in order.
pub fn chars_of(s: &str) -> (v: Vec<char>)
    ensures
        v@ == s@,
{
    let mut v: Vec<char> = Vec::new();
    for c in it: s.chars()
        invariant
            it.seq() == s@,
            v@ == s@.take(it.index()),
    {
        v.push(c);
        assert(s@.take(it.index() + 1) == s@.take(it.index()).push(s@[it.index()]));
    }
    assert(s@.take(s@.len() as int) == s@);
    v
}

/// Trims the part `from..to` of `v`: the bounds of what is left.
fn trim_range(v: &Vec<char>, from: usize, to: usize) -> (r: (usize, usize))
    requires
        from <= to <= v.len(),
    ensures
        from <= r.0 <= r.1 <= to,
        v@.subrange(r.0 as int, r.1 as int) == trimmed(v@.subrange(from as int, to as int)),
{
    let mut a: usize = from;
    while a < to && char_is_whitespace(v[a])
        invariant
            from <= a <= to <= v.len(),
            trim_start(v@.subrange(from as int, to as int)) == trim_start(
                v@.subrange(a as int, to as int),
            ),
        decreases to - a,
    {
        assert(v@.subrange(a as int, to as int).skip(1) == v@.subrange(a + 1, to as int));
        a = a + 1;
    }
    let mut b: usize = to;
    while b > a && char_is_whitespace(v[b - 1])
        invariant
            a <= b <= to <= v.len(),
            trim_end(v@.subrange(a as int, to as int)) == trim_end(v@.subrange(a as int, b as int)),
        decreases b - a,
    {
        assert(v@.subrange(a as int, b as int).drop_last() == v@.subrange(a as int, b - 1));
        b = b - 1;
    }
    (a, b)
}

/// Plain extraction: `stdout` without leading and trailing white space.
pub fn extract_plain(stdout: &str) -> (value: String)
    ensures
        value@ == trimmed(stdout@),
{
    let v = chars_of(stdout);
    let (a, b) = trim_range(&v, 0, v.len());
    assert(v@.subrange(0, v.len() as int) == v@);
    stdout.substring_char(a, b).to_owned()
}

/// The end of the line of `t` that starts at `start`.
fn line_end(t: &Vec<char>, start: usize) -> (end: usize)
    requires
        start <= t.len(),
    ensures
        start <= end <= t.len(),
        end - start == first_line_len(t@.skip(start as int)),
{
    let mut end: usize = start;
    while end < t.len() && t[end] != '\n'
        invariant
            start <= end <= t.len(),
            first_line_len(t@.skip(start as int)) == (end - start) + first_line_len(
                t@.skip(end as int),
            ),
        decreases t.len() - end,
    {
        assert(t@.skip(end as int).skip(1) == t@.skip(end + 1));
        end = end + 1;
    }
    end
}

/// Whether the part `start..end` of `t` begins with `key` followed by `=`.
fn begins_with_key(t: &Vec<char>, start: usize, end: usize, key: &Vec<char>) -> (b: bool)
    requires
        start <= end <= t.len(),
    ensures
        b == key@.push('=').is_prefix_of(t@.subrange(start as int, end as int)),
{
    let ghost line = t@.subrange(start as int, end as int);
    let ghost prefix = key@.push('=');
    if key.len() >= end - start {
        return false;
    }
    let mut i: usize = 0;
    while i < key.len()
        invariant
            i <= key.len() < end - start,
            start <= end <= t.len(),
            line == t@.subrange(start as int, end as int),
            prefix == key@.push('='),
            forall|j: int| 0 <= j < i ==> line[j] == prefix[j],
        decreases key.len() - i,
    {
        if t[start + i] != key[i] {
            assert(line[i as int] != prefix[i as int]);
            assert(line.subrange(0, prefix.len() as int)[i as int] != prefix[i as int]);
            return false;
        }
        i = i + 1;
    }
    if t[start + key.len()] != '=' {
        assert(line.subrange(0, prefix.len() as int)[key.len() as int] != prefix[key.len() as int]);
        return false;
    }
    assert(prefix =~= line.subrange(0, prefix.len() as int));
    true
}

/// Keyed extraction: the trimmed value of the first line of `stdout` that
/// begins with `key=`, or the empty string when there is none.
pub fn extract_keyed(stdout: &str, key: &str) -> (value: String)
    ensures
        value@ == keyed_value(stdout@, key@),
{
    let t = chars_of(stdout);
    let k = chars_of(key);
    let n = t.len();
    let mut start: usize = 0;
    assert(t@.skip(0) == t@);
    loop
        invariant
            start <= n == t.len(),
            t@ == stdout@,
            k@ == key@,
            keyed_value(t@, k@) == keyed_value(t@.skip(start as int), k@),
        decreases n - start,
    {
        let end = line_end(&t, start);
        let ghost rest = t@.skip(start as int);
        proof {
            law_first_line_len(rest);
            assert(rest.take(end - start) == t@.subrange(start as int, end as int));
        }
        if begins_with_key(&t, start, end, &k) {
            let (a, b) = trim_range(&t, start + k.len() + 1, end);
            assert(rest.take(end - start).skip(k@.push('=').len() as int) == t@.subrange(
                start + k.len() + 1,
                end as int,
            ));
            return stdout.substring_char(a, b).to_owned();
        }
        if end >= n {
            return String::new();
        }
        assert(rest.skip(end - start + 1) == t@.skip(end + 1));
        start = end + 1;
    }
}

fn digit_text(d: u16) -> (text: &'static str)
    requires
        d < 10,
    ensures
        text@ == seq![digit_char(d as nat)],
{
    proof {
        reveal_strlit("0");
        reveal_strlit("1");
        reveal_strlit("2");
        reveal_strlit("3");
        reveal_strlit("4");
        reveal_strlit("5");
        reveal_strlit("6");
        reveal_strlit("7");
        reveal_strlit("8");
        reveal_strlit("9");
    }
    let text = if d == 0 {
        "0"
    } else if d == 1 {
        "1"
    } else if d == 2 {
        "2"
    } else if d == 3 {
        "3"
    } else if d == 4 {
        "4"
    } else if d == 5 {
        "5"
    } else if d == 6 {
        "6"
    } else if d == 7 {
        "7"
    } else if d == 8 {
        "8"
    } else {
        "9"
    };
    assert(text@ =~= seq![digit_char(d as nat)]);
    text
}

/// Writes `n` in decimal notation.
pub fn to_decimal(n: u16) -> (text: String)
    ensures
        text@ == decimal(n as nat),
    decreases n,
{
    let last = digit_text(n % 10);
    if n < 10 {
        last.to_owned()
    } else {
        let mut text = to_decimal(n / 10);
        text.append(last);
        assert(text@ =~= decimal((n / 10) as nat).push(digit_char((n % 10) as nat)));
        text
    }
}

/// Applies an extraction mode to what a command printed.
pub fn extract(mode: &Extraction, stdout: &str) -> (value: String)
    ensures
        value@ == extracted(mode@, stdout@),
{
    match mode {
        Extraction::Plain => extract_plain(stdout),
        Extraction::Keyed(key) => extract_keyed(stdout, key.as_str()),
    }
}

} // verus!
