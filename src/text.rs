use vstd::prelude::*;

verus! {

/// The views of a vector of strings.
pub open spec fn strings_view(v: Seq<String>) -> Seq<Seq<char>> {
    v.map_values(|s: String| s@)
}

/// The views of an optional string.
pub open spec fn opt_view(o: Option<String>) -> Option<Seq<char>> {
    match o {
        Some(s) => Some(s@),
        None => None,
    }
}

/// The views of an optional string slice.
pub open spec fn opt_str_view(o: Option<&str>) -> Option<Seq<char>> {
    match o {
        Some(s) => Some(s@),
        None => None,
    }
}

/// White space as `char::is_whitespace` defines it (Unicode `White_Space`).
pub open spec fn is_ws(c: char) -> bool {
    c == ' ' || ('\t' <= c && c <= '\r') || c == '\u{85}' || c == '\u{a0}' || c == '\u{1680}' || (
    '\u{2000}' <= c && c <= '\u{200a}') || c == '\u{2028}' || c == '\u{2029}' || c == '\u{202f}'
        || c == '\u{205f}' || c == '\u{3000}'
}

/// `char::is_whitespace`.
pub fn is_space(c: char) -> (r: bool)
    ensures
        r == is_ws(c),
{
    c == ' ' || ('\t' <= c && c <= '\r') || c == '\u{85}' || c == '\u{a0}' || c == '\u{1680}' || (
    '\u{2000}' <= c && c <= '\u{200a}') || c == '\u{2028}' || c == '\u{2029}' || c == '\u{202f}'
        || c == '\u{205f}' || c == '\u{3000}'
}

/// Index of the first `\n` at or after `i`, or the length.
pub open spec fn newline_pos(s: Seq<char>, i: nat) -> nat
    decreases s.len() - i,
{
    if i >= s.len() || s[i as int] == '\n' {
        i
    } else {
        newline_pos(s, i + 1)
    }
}

/// A line without the `\r` of a `\r\n` ending.
pub open spec fn strip_cr(l: Seq<char>) -> Seq<char> {
    if l.len() > 0 && l.last() == '\r' {
        l.drop_last()
    } else {
        l
    }
}

/// What follows the first line of `s`.
pub open spec fn after_first_line(s: Seq<char>) -> Seq<char> {
    let e = newline_pos(s, 0);
    if e < s.len() {
        s.subrange((e + 1) as int, s.len() as int)
    } else {
        Seq::empty()
    }
}

/// The lines of `s` as `str::lines` gives them: split at `\n`, a trailing
/// `\r` dropped, and no empty line after a final `\n`.
pub open spec fn lines_of(s: Seq<char>) -> Seq<Seq<char>>
    decreases s.len(),
{
    if s.len() == 0 {
        Seq::empty()
    } else {
        seq![strip_cr(s.subrange(0, newline_pos(s, 0) as int))] + lines_of(after_first_line(s))
    }
}

/// Index of the first non-space at or after `i`, or the length.
pub open spec fn skip_ws(s: Seq<char>, i: nat) -> nat
    decreases s.len() - i,
{
    if i >= s.len() || !is_ws(s[i as int]) {
        i
    } else {
        skip_ws(s, i + 1)
    }
}

/// Index of the first space at or after `i`, or the length.
pub open spec fn token_end(s: Seq<char>, i: nat) -> nat
    decreases s.len() - i,
{
    if i >= s.len() || is_ws(s[i as int]) {
        i
    } else {
        token_end(s, i + 1)
    }
}

/// The `n`-th (from 0) whitespace-separated token of `s` at or after `i`.
pub open spec fn nth_token(s: Seq<char>, i: nat, n: nat) -> Option<Seq<char>>
    decreases n,
{
    let a = skip_ws(s, i);
    if a >= s.len() {
        None
    } else if n == 0 {
        Some(s.subrange(a as int, token_end(s, a) as int))
    } else {
        nth_token(s, token_end(s, a), (n - 1) as nat)
    }
}

/// `pat` occurs in `s`.
pub open spec fn contains(s: Seq<char>, pat: Seq<char>) -> bool {
    exists|i: int| 0 <= i && i + pat.len() <= s.len() && #[trigger] s.subrange(i, i + pat.len()) == pat
}

/// `s` starts with `pat`.
pub open spec fn starts_with(s: Seq<char>, pat: Seq<char>) -> bool {
    pat.len() <= s.len() && s.subrange(0, pat.len() as int) == pat
}

pub proof fn lemma_newline_pos(s: Seq<char>, i: nat, j: nat)
    requires
        i <= j <= s.len(),
        forall|k: int| i <= k < j ==> s[k] != '\n',
        j == s.len() || s[j as int] == '\n',
    ensures
        newline_pos(s, i) == j,
    decreases j - i,
{
    if i < j {
        lemma_newline_pos(s, i + 1, j);
    }
}

proof fn lemma_skip_ws(s: Seq<char>, i: nat, j: nat)
    requires
        i <= j <= s.len(),
        forall|k: int| i <= k < j ==> is_ws(s[k]),
        j == s.len() || !is_ws(s[j as int]),
    ensures
        skip_ws(s, i) == j,
    decreases j - i,
{
    if i < j {
        lemma_skip_ws(s, i + 1, j);
    }
}

proof fn lemma_token_end(s: Seq<char>, i: nat, j: nat)
    requires
        i <= j <= s.len(),
        forall|k: int| i <= k < j ==> !is_ws(s[k]),
        j == s.len() || is_ws(s[j as int]),
    ensures
        token_end(s, i) == j,
    decreases j - i,
{
    if i < j {
        lemma_token_end(s, i + 1, j);
    }
}

/// Index of the first `\n` in `s` at or after `from`, or its length.
pub fn find_newline(s: &str, from: usize) -> (r: usize)
    requires
        from <= s@.len(),
    ensures
        r == newline_pos(s@, from as nat),
        from <= r <= s@.len(),
        forall|k: int| from <= k < r ==> s@[k] != '\n',
        r == s@.len() || s@[r as int] == '\n',
{
    let n = s.unicode_len();
    let mut j = from;
    while j < n && s.get_char(j) != '\n'
        invariant
            n == s@.len(),
            from <= j <= n,
            forall|k: int| from <= k < j ==> s@[k] != '\n',
        decreases n - j,
    {
        j = j + 1;
    }
    proof {
        lemma_newline_pos(s@, from as nat, j as nat);
    }
    j
}

/// Index of the first non-space of `s` at or after `from`, or its length.
pub fn skip_spaces(s: &str, from: usize) -> (r: usize)
    requires
        from <= s@.len(),
    ensures
        r == skip_ws(s@, from as nat),
        from <= r <= s@.len(),
{
    let n = s.unicode_len();
    let mut j = from;
    while j < n && is_space(s.get_char(j))
        invariant
            n == s@.len(),
            from <= j <= n,
            forall|k: int| from <= k < j ==> is_ws(s@[k]),
        decreases n - j,
    {
        j = j + 1;
    }
    proof {
        lemma_skip_ws(s@, from as nat, j as nat);
    }
    j
}

/// Index of the first space of `s` at or after `from`, or its length.
pub fn find_space(s: &str, from: usize) -> (r: usize)
    requires
        from <= s@.len(),
    ensures
        r == token_end(s@, from as nat),
        from <= r <= s@.len(),
{
    let n = s.unicode_len();
    let mut j = from;
    while j < n && !is_space(s.get_char(j))
        invariant
            n == s@.len(),
            from <= j <= n,
            forall|k: int| from <= k < j ==> !is_ws(s@[k]),
        decreases n - j,
    {
        j = j + 1;
    }
    proof {
        lemma_token_end(s@, from as nat, j as nat);
    }
    j
}

/// The `n`-th (from 0) whitespace-separated token of `s`.
pub fn token(s: &str, n: usize) -> (r: Option<String>)
    ensures
        match (r, nth_token(s@, 0, n as nat)) {
            (Some(t), Some(u)) => t@ == u,
            (None, None) => true,
            _ => false,
        },
{
    let len = s.unicode_len();
    let mut i: usize = 0;
    let mut k: usize = n;
    loop
        invariant
            len == s@.len(),
            i <= len,
            k <= n,
            nth_token(s@, 0, n as nat) == nth_token(s@, i as nat, k as nat),
        decreases k,
    {
        let a = skip_spaces(s, i);
        if a >= len {
            return None;
        }
        let b = find_space(s, a);
        if k == 0 {
            return Some(s.substring_char(a, b).to_owned());
        }
        proof {
            assert(nth_token(s@, i as nat, k as nat) == nth_token(s@, b as nat, (k - 1) as nat));
        }
        i = b;
        k = k - 1;
    }
}

/// Whether `pat` occurs in `s` at index `at`.
fn matches_at(s: &str, at: usize, pat: &str) -> (r: bool)
    requires
        at + pat@.len() <= s@.len(),
    ensures
        r == (s@.subrange(at as int, at + pat@.len()) == pat@),
{
    let n = s.unicode_len();
    let m = pat.unicode_len();
    let mut i: usize = 0;
    while i < m
        invariant
            n == s@.len(),
            m == pat@.len(),
            at + m <= s@.len(),
            i <= m,
            forall|j: int| 0 <= j < i ==> s@[at + j] == pat@[j],
        decreases m - i,
    {
        if s.get_char(at + i) != pat.get_char(i) {
            assert(s@.subrange(at as int, at + m)[i as int] != pat@[i as int]);
            return false;
        }
        i = i + 1;
    }
    assert(s@.subrange(at as int, at + m) =~= pat@);
    true
}

/// Whether `pat` occurs in `s`.
pub fn str_contains(s: &str, pat: &str) -> (r: bool)
    ensures
        r == contains(s@, pat@),
{
    let n = s.unicode_len();
    let m = pat.unicode_len();
    if m > n {
        return false;
    }
    if m == 0 {
        assert(s@.subrange(0int, 0int + pat@.len()) =~= pat@);
        return true;
    }
    let mut i: usize = 0;
    while i <= n - m
        invariant
            n == s@.len(),
            m == pat@.len(),
            1 <= m <= n,
            i <= n - m + 1,
            forall|j: int| 0 <= j < i ==> #[trigger] s@.subrange(j, j + m) != pat@,
        decreases n - i,
    {
        if matches_at(s, i, pat) {
            return true;
        }
        i = i + 1;
    }
    false
}

/// Whether `s` starts with `pat`.
pub fn str_starts_with(s: &str, pat: &str) -> (r: bool)
    ensures
        r == starts_with(s@, pat@),
{
    let n = s.unicode_len();
    let m = pat.unicode_len();
    if m > n {
        return false;
    }
    let mut i: usize = 0;
    while i < m
        invariant
            n == s@.len(),
            m == pat@.len(),
            m <= n,
            i <= m,
            forall|j: int| 0 <= j < i ==> s@[j] == pat@[j],
        decreases m - i,
    {
        if s.get_char(i) != pat.get_char(i) {
            assert(s@.subrange(0, m as int)[i as int] != pat@[i as int]);
            return false;
        }
        i = i + 1;
    }
    assert(s@.subrange(0, m as int) =~= pat@);
    true
}

/// The first line of `text` from index `pos` on, and the index where the next
/// line starts.
pub fn line_at(text: &str, pos: usize) -> (r: (String, usize))
    requires
        pos < text@.len(),
    ensures
        pos < r.1 <= text@.len(),
        lines_of(text@.subrange(pos as int, text@.len() as int)) == seq![r.0@] + lines_of(
            text@.subrange(r.1 as int, text@.len() as int),
        ),
{
    let n = text.unicode_len();
    let e = find_newline(text, pos);
    let ghost rest = text@.subrange(pos as int, n as int);
    proof {
        lemma_newline_pos(rest, 0, (e - pos) as nat);
        assert(rest.subrange(0, (e - pos) as int) =~= text@.subrange(pos as int, e as int));
    }
    let raw = text.substring_char(pos, e);
    let m = e - pos;
    let line = if m > 0 && raw.get_char(m - 1) == '\r' {
        raw.substring_char(0, m - 1).to_owned()
    } else {
        raw.to_owned()
    };
    proof {
        assert(raw@.drop_last() =~= raw@.subrange(0, m - 1));
        assert(line@ == strip_cr(rest.subrange(0, newline_pos(rest, 0) as int)));
    }
    let next = if e < n {
        e + 1
    } else {
        n
    };
    proof {
        if e < n {
            assert(after_first_line(rest) =~= text@.subrange(next as int, n as int));
        } else {
            assert(after_first_line(rest) =~= text@.subrange(next as int, n as int));
        }
    }
    (line, next)
}

/// The decimal digit of `d`.
pub open spec fn digit_char(d: int) -> char {
    "0123456789"@[d]
}

/// `n` in decimal, without leading zeros.
pub open spec fn decimal(n: nat) -> Seq<char>
    decreases n,
{
    if n < 10 {
        seq![digit_char(n as int)]
    } else {
        decimal(n / 10) + seq![digit_char((n % 10) as int)]
    }
}

/// Appends `n` in decimal to `s`.
pub fn append_decimal(s: &mut String, n: u64)
    ensures
        final(s)@ == old(s)@ + decimal(n as nat),
    decreases n,
{
    let digits = "0123456789";
    proof {
        reveal_strlit("0123456789");
    }
    if n >= 10 {
        append_decimal(s, n / 10);
    }
    let d = (n % 10) as usize;
    s.append(digits.substring_char(d, d + 1));
    proof {
        assert(digits@.subrange(d as int, d + 1) =~= seq![digit_char(d as int)]);
        if n >= 10 {
            assert(final(s)@ =~= old(s)@ + decimal(n as nat));
        } else {
            assert(final(s)@ =~= old(s)@ + decimal(n as nat));
        }
    }
}

/// `s` ends with `suf`.
pub open spec fn ends_with(s: Seq<char>, suf: Seq<char>) -> bool {
    suf.len() <= s.len() && s.subrange(s.len() - suf.len(), s.len() as int) == suf
}

/// Whether `s` ends with `suf`.
pub fn str_ends_with(s: &str, suf: &str) -> (r: bool)
    ensures
        r == ends_with(s@, suf@),
{
    let n = s.unicode_len();
    let m = suf.unicode_len();
    if m > n {
        return false;
    }
    let r = matches_at(s, n - m, suf);
    r
}

/// `s` with every trailing repetition of `suf` removed, as
/// `str::trim_end_matches` does for a non-empty pattern.
pub open spec fn trim_suffix_all(s: Seq<char>, suf: Seq<char>) -> Seq<char>
    decreases s.len(),
{
    if suf.len() > 0 && ends_with(s, suf) {
        trim_suffix_all(s.subrange(0, s.len() - suf.len()), suf)
    } else {
        s
    }
}

/// Removes every trailing repetition of `suf` from `s`.
pub fn trim_end_all(s: &str, suf: &str) -> (r: String)
    ensures
        r@ == trim_suffix_all(s@, suf@),
{
    let m = suf.unicode_len();
    let mut cur = s.to_owned();
    while m > 0 && str_ends_with(cur.as_str(), suf)
        invariant
            m == suf@.len(),
            trim_suffix_all(cur@, suf@) == trim_suffix_all(s@, suf@),
        decreases cur@.len(),
    {
        let n = cur.as_str().unicode_len();
        let next = cur.as_str().substring_char(0, n - m).to_owned();
        cur = next;
    }
    cur
}

/// Index just past the last `c` in `s`, or 0 without one.
pub open spec fn after_last(s: Seq<char>, c: char, i: int) -> int
    decreases i,
{
    if i <= 0 {
        0
    } else if s[i - 1] == c {
        i
    } else {
        after_last(s, c, i - 1)
    }
}

/// What follows the last `/` of `s` (all of `s` without one).
pub open spec fn last_segment(s: Seq<char>) -> Seq<char> {
    s.subrange(after_last(s, '/', s.len() as int), s.len() as int)
}

/// The part of `s` after its last `/`.
pub fn last_path_segment(s: &str) -> (r: String)
    ensures
        r@ == last_segment(s@),
{
    let n = s.unicode_len();
    let mut i = n;
    while i > 0 && s.get_char(i - 1) != '/'
        invariant
            n == s@.len(),
            i <= n,
            after_last(s@, '/', n as int) == after_last(s@, '/', i as int),
        decreases i,
    {
        i = i - 1;
    }
    s.substring_char(i, n).to_owned()
}

} // verus!
