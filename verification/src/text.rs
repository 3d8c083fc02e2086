//! Character-level text helpers used on model output.

use vstd::prelude::*;

verus! {

/// The Unicode `White_Space` property, which is what `char::is_whitespace`
/// and `str::trim` test.
pub open spec fn is_white_space(c: char) -> bool {
    ||| ('\u{9}' <= c && c <= '\u{d}')
    ||| c == ' '
    ||| c == '\u{85}'
    ||| c == '\u{a0}'
    ||| c == '\u{1680}'
    ||| ('\u{2000}' <= c && c <= '\u{200a}')
    ||| c == '\u{2028}'
    ||| c == '\u{2029}'
    ||| c == '\u{202f}'
    ||| c == '\u{205f}'
    ||| c == '\u{3000}'
}

/// Tests the Unicode `White_Space` property of one character.
pub fn is_whitespace_char(c: char) -> (res: bool)
    ensures
        res == is_white_space(c),
{
    ('\u{9}' <= c && c <= '\u{d}') || c == ' ' || c == '\u{85}' || c == '\u{a0}' || c
        == '\u{1680}' || ('\u{2000}' <= c && c <= '\u{200a}') || c == '\u{2028}' || c
        == '\u{2029}' || c == '\u{202f}' || c == '\u{205f}' || c == '\u{3000}'
}

/// The characters of a string slice, in order.
pub fn chars_of(s: &str) -> (res: Vec<char>)
    ensures
        res@ == s@,
{
    let mut out: Vec<char> = Vec::new();
    for c in it: s.chars()
        invariant
            it.seq() == s@,
            out@ == it.seq().take(it.index() as int),
    {
        out.push(c);
    }
    out
}


/// Three backticks, the marker that opens and closes a fenced code block.
pub open spec fn fence() -> Seq<char> {
    seq!['`', '`', '`']
}

/// `s` without its leading whitespace (as `str::trim_start`).
pub open spec fn trim_start(s: Seq<char>) -> Seq<char>
    decreases s.len(),
{
    if s.len() > 0 && is_white_space(s[0]) {
        trim_start(s.drop_first())
    } else {
        s
    }
}

/// `s` without its trailing whitespace (as `str::trim_end`).
pub open spec fn trim_end(s: Seq<char>) -> Seq<char>
    decreases s.len(),
{
    if s.len() > 0 && is_white_space(s.last()) {
        trim_end(s.drop_last())
    } else {
        s
    }
}

/// `s` without leading and trailing whitespace (as `str::trim`).
pub open spec fn trim(s: Seq<char>) -> Seq<char> {
    trim_end(trim_start(s))
}

/// `s` with every trailing repetition of three backticks removed
/// (as `str::trim_end_matches("```")`).
pub open spec fn strip_fence_suffixes(s: Seq<char>) -> Seq<char>
    decreases s.len(),
{
    if s.len() >= 3 && s.subrange(s.len() - 3, s.len() as int) == fence() {
        strip_fence_suffixes(s.take(s.len() - 3))
    } else {
        s
    }
}

/// Removes every trailing "```" and then the surrounding whitespace.
pub fn strip_closing_fences_and_trim(s: &str) -> (res: String)
    ensures
        res@ == trim(strip_fence_suffixes(s@)),
{
    let cs = chars_of(s);
    let n = cs.len();
    let mut end: usize = n;
    assert(s@.take(n as int) =~= s@);
    while end >= 3 && cs[end - 3] == '`' && cs[end - 2] == '`' && cs[end - 1] == '`'
        invariant
            cs@ == s@,
            n == cs.len(),
            end <= n,
            strip_fence_suffixes(s@) == strip_fence_suffixes(s@.take(end as int)),
        decreases end,
    {
        let ghost t = s@.take(end as int);
        assert(t.subrange(t.len() - 3, t.len() as int) =~= fence());
        assert(t.take(t.len() - 3) =~= s@.take(end - 3));
        end = end - 3;
    }
    proof {
        let t = s@.take(end as int);
        if t.len() >= 3 {
            assert(t.subrange(t.len() - 3, t.len() as int) != fence()) by {
                if t.subrange(t.len() - 3, t.len() as int) == fence() {
                    assert(t.subrange(t.len() - 3, t.len() as int)[0] == cs@[end - 3]);
                    assert(t.subrange(t.len() - 3, t.len() as int)[1] == cs@[end - 2]);
                    assert(t.subrange(t.len() - 3, t.len() as int)[2] == cs@[end - 1]);
                }
            }
        }
        assert(strip_fence_suffixes(t) == t);
        assert(s@.subrange(0, end as int) =~= t);
    }
    let ghost stripped = s@.take(end as int);
    let mut start: usize = 0;
    while start < end && is_whitespace_char(cs[start])
        invariant
            cs@ == s@,
            n == cs.len(),
            start <= end <= n,
            stripped == s@.take(end as int),
            trim_start(stripped) == trim_start(s@.subrange(start as int, end as int)),
        decreases end - start,
    {
        assert(s@.subrange(start as int, end as int).drop_first() =~= s@.subrange(
            start + 1,
            end as int,
        ));
        start = start + 1;
    }
    assert(trim_start(stripped) == s@.subrange(start as int, end as int));
    let ghost front = s@.subrange(start as int, end as int);
    while end > start && is_whitespace_char(cs[end - 1])
        invariant
            cs@ == s@,
            n == cs.len(),
            start <= end <= n,
            trim_end(front) == trim_end(s@.subrange(start as int, end as int)),
        decreases end - start,
    {
        assert(s@.subrange(start as int, end as int).drop_last() =~= s@.subrange(
            start as int,
            end - 1,
        ));
        end = end - 1;
    }
    assert(trim_end(front) == s@.subrange(start as int, end as int));
    String::from_str(s.substring_char(start, end))
}


/// The pattern that finds a line opening a fenced code block, together with
/// the rest of that line and its line break.
pub const FENCE_LINE_PATTERN: &'static str = r"(?m)^```[^\r\n]*\r?\n?";

/// Whether position `i` of `t` is at the start of a line (the start of the
/// text, or just after a `'\n'`).
pub open spec fn starts_line(t: Seq<char>, i: int) -> bool {
    i == 0 || (0 < i <= t.len() && t[i - 1] == '\n')
}

/// Whether a line of `t` that opens a fenced code block starts at `i`.
pub open spec fn opens_fence_at(t: Seq<char>, i: int) -> bool {
    &&& 0 <= i
    &&& i + 3 <= t.len()
    &&& starts_line(t, i)
    &&& t.subrange(i, i + 3) == fence()
}

/// The first position at or after `from` where a line opening a fence
/// starts, if any.
pub open spec fn first_fence_from(t: Seq<char>, from: int) -> Option<int>
    decreases t.len() - from,
{
    if from < 0 || from + 3 > t.len() {
        None
    } else if opens_fence_at(t, from) {
        Some(from)
    } else {
        first_fence_from(t, from + 1)
    }
}

/// The first position at or after `j` that holds `'\r'` or `'\n'`, or the
/// length of `t` when there is none.
pub open spec fn line_break_from(t: Seq<char>, j: int) -> int
    decreases t.len() - j,
{
    if j < 0 || j >= t.len() || t[j] == '\r' || t[j] == '\n' {
        j
    } else {
        line_break_from(t, j + 1)
    }
}

/// Where the fence line that starts at `i` ends: after the rest of the
/// line, then an optional `'\r'`, then an optional `'\n'`.
pub open spec fn fence_line_end(t: Seq<char>, i: int) -> int {
    let j = line_break_from(t, i + 3);
    let k = if j < t.len() && t[j] == '\r' {
        j + 1
    } else {
        j
    };
    if k < t.len() && t[k] == '\n' {
        k + 1
    } else {
        k
    }
}

/// `t` with its first fence-opening line (break included) replaced by `rep`;
/// `t` itself when no line opens a fence.
pub open spec fn replace_first_fence_line(t: Seq<char>, rep: Seq<char>) -> Seq<char> {
    match first_fence_from(t, 0) {
        Some(i) => t.take(i) + rep + t.skip(fence_line_end(t, i)),
        None => t,
    }
}

/// What cleaning a model reply gives: the first fence-opening line removed,
/// trailing "```" removed, then the surrounding whitespace removed.
pub open spec fn cleaned_reply(t: Seq<char>) -> Seq<char> {
    trim(strip_fence_suffixes(replace_first_fence_line(t, Seq::empty())))
}

/// A replacement text that `Regex::replace` inserts as it is: one without
/// `$`, which would refer to a capture group.
pub open spec fn is_literal_replacement(rep: Seq<char>) -> bool {
    !rep.contains('$')
}

#[verifier::external_type_specification]
#[verifier::external_body]
pub struct ExRegex(regex::Regex);

/// A compiled regular expression, kept with the pattern it was compiled
/// from. Only `compile_regex` builds one.
pub struct CompiledRegex {
    pattern: String,
    regex: regex::Regex,
}

impl CompiledRegex {
    /// The pattern this expression was compiled from.
    pub closed spec fn pattern(&self) -> Seq<char> {
        self.pattern@
    }
}

/// Compiles `pattern` with `regex::Regex::new`; `None` where the pattern is
/// refused. The fence-line pattern is valid regex syntax, so it compiles.
#[verifier::external_body]
fn compile_regex(pattern: &str) -> (res: Option<CompiledRegex>)
    ensures
        res matches Some(c) ==> c.pattern() == pattern@,
        pattern@ == FENCE_LINE_PATTERN@ ==> res is Some,
{
    match regex::Regex::new(pattern) {
        Ok(regex) => Some(CompiledRegex { pattern: pattern.to_string(), regex }),
        Err(_) => None,
    }
}

/// What `regex::Regex::replace` gives for a regex compiled from `pattern`:
/// `haystack` with its leftmost match replaced by `replacement`.
pub uninterp spec fn regex_replace_first(
    pattern: Seq<char>,
    haystack: Seq<char>,
    replacement: Seq<char>,
) -> Seq<char>;

/// Replaces the leftmost match of `re` in `haystack` with `replacement`
/// (`regex::Regex::replace`). The result is named by
/// `regex_replace_first`. For the fence-line pattern, whose meaning the
/// regex syntax documentation fixes (multi-line `^` matches at the start of
/// the text and after each `'\n'`; `[^\r\n]*`, `\r?` and `\n?` are greedy;
/// the leftmost match wins), the contract also states the result; this is
/// claimed only for replacements without `$`, which `replace` would expand.
#[verifier::external_body]
fn replace_first_match(re: &CompiledRegex, haystack: &str, replacement: &str) -> (res: String)
    ensures
        res@ == regex_replace_first(re.pattern(), haystack@, replacement@),
        re.pattern() == FENCE_LINE_PATTERN@ && is_literal_replacement(replacement@) ==> res@
            == replace_first_fence_line(haystack@, replacement@),
{
    re.regex.replace(haystack, replacement).into_owned()
}

/// Removes the markdown code-fence wrapper a model may put around its reply:
/// the first line that opens a fence, any closing "```" at the end, and the
/// surrounding whitespace.
pub fn clean_code_block_wrappers(text: &str) -> (res: String)
    ensures
        res@ == cleaned_reply(text@),
{
    proof {
        reveal_strlit("");
    }
    match compile_regex(FENCE_LINE_PATTERN) {
        Some(re) => {
            let replaced = replace_first_match(&re, text, "");
            strip_closing_fences_and_trim(replaced.as_str())
        },
        None => {
            proof {
                assert(false);
            }
            String::new()
        },
    }
}


/// Whether `s` has no whitespace at either end.
pub open spec fn is_trimmed(s: Seq<char>) -> bool {
    s.len() == 0 || (!is_white_space(s[0]) && !is_white_space(s.last()))
}

proof fn lemma_trim_start_shape(s: Seq<char>)
    ensures
        trim_start(s).len() <= s.len(),
        trim_start(s) == s.skip(s.len() - trim_start(s).len()),
        trim_start(s).len() > 0 ==> !is_white_space(trim_start(s)[0]),
        s.len() > 0 && is_white_space(s[0]) ==> trim_start(s).len() < s.len(),
    decreases s.len(),
{
    if s.len() > 0 && is_white_space(s[0]) {
        lemma_trim_start_shape(s.drop_first());
        let t = trim_start(s.drop_first());
        assert(s.drop_first().skip(s.drop_first().len() - t.len()) =~= s.skip(s.len() - t.len()));
    } else {
        assert(s.skip(0) =~= s);
    }
}

proof fn lemma_trim_end_shape(s: Seq<char>)
    ensures
        trim_end(s).len() <= s.len(),
        trim_end(s) == s.take(trim_end(s).len() as int),
        trim_end(s).len() > 0 ==> !is_white_space(trim_end(s).last()),
        s.len() > 0 && is_white_space(s.last()) ==> trim_end(s).len() < s.len(),
    decreases s.len(),
{
    if s.len() > 0 && is_white_space(s.last()) {
        lemma_trim_end_shape(s.drop_last());
        let t = trim_end(s.drop_last());
        assert(s.drop_last().take(t.len() as int) =~= s.take(t.len() as int));
    } else {
        assert(s.take(s.len() as int) =~= s);
    }
}

/// A text is left unchanged by `trim` exactly when it has no whitespace at
/// either end.
pub proof fn lemma_trim_fixed_points(s: Seq<char>)
    ensures
        (trim(s) == s) <==> is_trimmed(s),
{
    lemma_trim_start_shape(s);
    lemma_trim_end_shape(trim_start(s));
    if is_trimmed(s) {
        if s.len() > 0 {
            assert(trim_start(s) == s);
            assert(trim_end(s) == s);
        }
    }
}

/// `trim` leaves no whitespace at either end.
pub proof fn lemma_trim_is_trimmed(s: Seq<char>)
    ensures
        is_trimmed(trim(s)),
{
    let a = trim_start(s);
    lemma_trim_start_shape(s);
    lemma_trim_end_shape(a);
    let b = trim_end(a);
    if b.len() > 0 {
        assert(b[0] == a[0]);
    }
}

/// A cleaned reply never starts or ends with whitespace.
pub proof fn lemma_cleaned_reply_is_trimmed(t: Seq<char>)
    ensures
        is_trimmed(cleaned_reply(t)),
{
    lemma_trim_is_trimmed(strip_fence_suffixes(replace_first_fence_line(t, Seq::empty())));
}

proof fn lemma_first_fence_none(t: Seq<char>, from: int)
    requires
        0 <= from,
        forall|i: int| from <= i ==> !opens_fence_at(t, i),
    ensures
        first_fence_from(t, from) is None,
    decreases t.len() - from,
{
    if from + 3 <= t.len() {
        lemma_first_fence_none(t, from + 1);
    }
}

proof fn lemma_line_break_after_plain(t: Seq<char>, j: int, k: int)
    requires
        0 <= j <= k < t.len(),
        t[k] == '\n',
        forall|m: int| j <= m < k ==> t[m] != '\r' && t[m] != '\n',
    ensures
        line_break_from(t, j) == k,
    decreases k - j,
{
    if j < k {
        lemma_line_break_after_plain(t, j + 1, k);
    }
}

/// A text whose lines never open a fence, that does not end with "```"
/// and that has no surrounding whitespace comes out of cleaning unchanged.
pub proof fn lemma_plain_reply_unchanged(t: Seq<char>)
    requires
        forall|i: int| !opens_fence_at(t, i),
        !(t.len() >= 3 && t.subrange(t.len() - 3, t.len() as int) == fence()),
        is_trimmed(t),
    ensures
        cleaned_reply(t) == t,
{
    lemma_first_fence_none(t, 0);
    assert(replace_first_fence_line(t, Seq::empty()) == t);
    assert(strip_fence_suffixes(t) == t);
    lemma_trim_fixed_points(t);
}

/// Content wrapped as a fenced block (an opening "```" followed by an info
/// string on its own line, the content, then a closing "```" on the next
/// line) is given back exactly, provided it has no surrounding whitespace.
pub proof fn lemma_fenced_reply_unwrapped(info: Seq<char>, content: Seq<char>)
    requires
        !info.contains('\r'),
        !info.contains('\n'),
        is_trimmed(content),
    ensures
        cleaned_reply(fence() + info + seq!['\n'] + content + seq!['\n'] + fence()) == content,
{
    let t = fence() + info + seq!['\n'] + content + seq!['\n'] + fence();
    let k: int = 3 + info.len() as int;
    assert(t.subrange(0, 3) =~= fence());
    assert(opens_fence_at(t, 0));
    assert(first_fence_from(t, 0) == Some(0int));
    assert forall|m: int| 3 <= m < k implies t[m] != '\r' && t[m] != '\n' by {
        assert(t[m] == info[m - 3]);
    }
    assert(t[k] == '\n');
    lemma_line_break_after_plain(t, 3, k);
    assert(fence_line_end(t, 0) == k + 1);
    let r = replace_first_fence_line(t, Seq::empty());
    let body = content + seq!['\n'];
    assert(r =~= body + fence());
    assert(r.subrange(r.len() - 3, r.len() as int) =~= fence());
    assert(r.take(r.len() - 3) =~= body);
    if body.len() >= 3 {
        assert(body.subrange(body.len() - 3, body.len() as int)[2] == '\n');
    }
    assert(strip_fence_suffixes(body) == body);
    assert(strip_fence_suffixes(r) == body);
    if content.len() == 0 {
        assert(body.drop_first() =~= Seq::<char>::empty());
        assert(body[0] == '\n');
        assert(is_white_space(body[0]));
        assert(trim_start(Seq::<char>::empty()) == Seq::<char>::empty());
        assert(trim_start(body) == trim_start(body.drop_first()));
        assert(trim_start(body) == Seq::<char>::empty());
        assert(content =~= Seq::<char>::empty());
    } else {
        assert(body[0] == content[0]);
        assert(trim_start(body) == body);
        assert(body.drop_last() =~= content);
        assert(trim_end(body) == trim_end(content));
        assert(trim_end(content) == content);
    }
}


/// The decimal digit character for `d < 10`.
pub open spec fn digit_char(d: nat) -> char {
    seq!['0', '1', '2', '3', '4', '5', '6', '7', '8', '9'][d as int]
}

/// The decimal representation of `n`, without leading zeros (as `{}`
/// formats an unsigned integer).
pub open spec fn decimal_text(n: nat) -> Seq<char>
    decreases n,
{
    if n < 10 {
        seq![digit_char(n)]
    } else {
        decimal_text(n / 10).push(digit_char(n % 10))
    }
}

fn digit_str(d: u8) -> (res: &'static str)
    requires
        d < 10,
    ensures
        res@ == seq![digit_char(d as nat)],
{
    match d {
        0 => {
            proof { reveal_strlit("0"); }
            "0"
        },
        1 => {
            proof { reveal_strlit("1"); }
            "1"
        },
        2 => {
            proof { reveal_strlit("2"); }
            "2"
        },
        3 => {
            proof { reveal_strlit("3"); }
            "3"
        },
        4 => {
            proof { reveal_strlit("4"); }
            "4"
        },
        5 => {
            proof { reveal_strlit("5"); }
            "5"
        },
        6 => {
            proof { reveal_strlit("6"); }
            "6"
        },
        7 => {
            proof { reveal_strlit("7"); }
            "7"
        },
        8 => {
            proof { reveal_strlit("8"); }
            "8"
        },
        _ => {
            proof { reveal_strlit("9"); }
            "9"
        },
    }
}

/// The decimal representation of a byte-sized count.
pub fn decimal_u8(n: u8) -> (res: String)
    ensures
        res@ == decimal_text(n as nat),
{
    if n < 10 {
        String::from_str(digit_str(n))
    } else if n < 100 {
        let mut s = String::from_str(digit_str(n / 10));
        s.append(digit_str(n % 10));
        assert(decimal_text((n / 10) as nat) == seq![digit_char((n / 10) as nat)]);
        s
    } else {
        let mut s = String::from_str(digit_str(n / 100));
        s.append(digit_str((n / 10) % 10));
        s.append(digit_str(n % 10));
        assert(decimal_text((n / 100) as nat) == seq![digit_char((n / 100) as nat)]);
        assert((n / 10) / 10 == n / 100);
        assert(decimal_text((n / 10) as nat) == decimal_text((n / 100) as nat).push(
            digit_char(((n / 10) % 10) as nat),
        ));
        s
    }
}

/// The views of a list of strings.
pub open spec fn texts(items: Seq<String>) -> Seq<Seq<char>> {
    items.map_values(|s: String| s@)
}

/// Each item preceded by a line break, all concatenated.
pub open spec fn joined_lines(items: Seq<Seq<char>>) -> Seq<char>
    decreases items.len(),
{
    if items.len() == 0 {
        Seq::empty()
    } else {
        joined_lines(items.drop_last()) + seq!['\n'] + items.last()
    }
}

/// Concatenates the items, each preceded by a line break.
pub fn join_context(contexts: &[String]) -> (res: String)
    ensures
        res@ == joined_lines(texts(contexts@)),
{
    proof {
        reveal_strlit("\n");
    }
    let mut out = String::new();
    let n = contexts.len();
    for i in 0..n
        invariant
            n == contexts@.len(),
            out@ == joined_lines(texts(contexts@.take(i as int))),
    {
        let ghost before = out@;
        proof {
            reveal_strlit("\n");
        }
        assert(texts(contexts@.take(i + 1)).drop_last() =~= texts(contexts@.take(i as int)));
        assert(texts(contexts@.take(i + 1)).last() == contexts@[i as int]@);
        out.append("\n");
        out.append(contexts[i].as_str());
        assert(out@ =~= before + seq!['\n'] + contexts@[i as int]@);
    }
    assert(contexts@.take(n as int) =~= contexts@);
    out
}

/// What `{:?}` gives for a list of strings: brackets, each string quoted
/// and escaped, separated by ", ".
pub uninterp spec fn debug_list_text(items: Seq<Seq<char>>) -> Seq<char>;

/// Formats a list of strings with its `Debug` implementation (`{:?}`). The
/// result is named by `debug_list_text`; the escaping rules are not restated.
#[verifier::external_body]
pub(crate) fn debug_list(items: &[String]) -> (res: String)
    ensures
        res@ == debug_list_text(texts(items@)),
{
    format!("{:?}", items)
}

/// What `String::from_utf8_lossy` gives for `bytes`.
pub uninterp spec fn utf8_lossy_text(bytes: Seq<u8>) -> Seq<char>;

/// Decodes bytes as UTF-8 with `String::from_utf8_lossy`, which replaces
/// invalid sequences by U+FFFD. The result is named by `utf8_lossy_text`;
/// for valid UTF-8 the contract also states it is the plain decoding.
#[verifier::external_body]
pub(crate) fn decode_lossy(bytes: &[u8]) -> (res: String)
    ensures
        res@ == utf8_lossy_text(bytes@),
        vstd::utf8::valid_utf8(bytes@) ==> res@ == vstd::utf8::decode_utf8(bytes@),
{
    String::from_utf8_lossy(bytes).into_owned()
}


/// Whether two string slices hold the same characters.
pub fn same_text(a: &str, b: &str) -> (res: bool)
    ensures
        res == (a@ == b@),
{
    let x = chars_of(a);
    let y = chars_of(b);
    if x.len() != y.len() {
        return false;
    }
    let n = x.len();
    for i in 0..n
        invariant
            n == x@.len(),
            n == y@.len(),
            x@ == a@,
            y@ == b@,
            forall|k: int| 0 <= k < i ==> x@[k] == y@[k],
    {
        if x[i] != y[i] {
            return false;
        }
    }
    assert(x@ =~= y@);
    true
}

/// Whether `x` occurs as a contiguous part of `s`.
pub open spec fn has_infix(s: Seq<char>, x: Seq<char>) -> bool {
    exists|k: int| 0 <= k && k + x.len() <= s.len() && #[trigger] s.subrange(k, k + x.len()) == x
}

/// Any part of a concatenation occurs in it.
pub proof fn lemma_infix_of_concat(a: Seq<char>, x: Seq<char>, b: Seq<char>)
    ensures
        has_infix(a + x + b, x),
{
    let s = a + x + b;
    assert(s.subrange(a.len() as int, a.len() + x.len() as int) =~= x);
}

/// The number a string of decimal digits stands for.
pub open spec fn decimal_value(s: Seq<char>) -> int
    decreases s.len(),
{
    if s.len() == 0 {
        0
    } else {
        decimal_value(s.drop_last()) * 10 + (s.last() as int - '0' as int)
    }
}

/// Whether every character is a decimal digit.
pub open spec fn all_digits(s: Seq<char>) -> bool {
    forall|k: int| 0 <= k < s.len() ==> '0' <= #[trigger] s[k] && s[k] <= '9'
}

proof fn lemma_digit_char(d: nat)
    requires
        d < 10,
    ensures
        digit_char(d) as int - '0' as int == d,
        '0' <= digit_char(d) <= '9',
        d != 0 ==> digit_char(d) != '0',
{
    let t = seq!['0', '1', '2', '3', '4', '5', '6', '7', '8', '9'];
    assert(t[0] == '0' && t[1] == '1' && t[2] == '2' && t[3] == '3' && t[4] == '4');
    assert(t[5] == '5' && t[6] == '6' && t[7] == '7' && t[8] == '8' && t[9] == '9');
}

/// The decimal text of `n` is made of digits, reads back as `n`, and has no
/// leading zero (unless it is the single digit 0).
pub proof fn lemma_decimal_text_reads_back(n: nat)
    ensures
        all_digits(decimal_text(n)),
        decimal_value(decimal_text(n)) == n,
        decimal_text(n).len() >= 1,
        decimal_text(n).len() > 1 ==> decimal_text(n)[0] != '0',
    decreases n,
{
    if n < 10 {
        lemma_digit_char(n);
        assert(seq![digit_char(n)].drop_last() =~= Seq::<char>::empty());
        assert(decimal_value(Seq::<char>::empty()) == 0);
    } else {
        lemma_decimal_text_reads_back(n / 10);
        lemma_digit_char(n % 10);
        let s = decimal_text(n);
        let p = decimal_text(n / 10);
        assert(s == p.push(digit_char(n % 10)));
        assert(s.drop_last() =~= p);
        assert(n == (n / 10) * 10 + n % 10);
        assert(s[0] == p[0]);
        if p.len() == 1 {
            lemma_decimal_text_lead(n / 10);
        }
    }
}

proof fn lemma_decimal_text_lead(n: nat)
    requires
        n > 0,
    ensures
        decimal_text(n)[0] != '0',
    decreases n,
{
    if n < 10 {
        lemma_digit_char(n);
    } else {
        lemma_decimal_text_lead(n / 10);
        assert(decimal_text(n)[0] == decimal_text(n / 10)[0]);
    }
}

/// Every item of a joined context appears in it, on a line of its own
/// start.
pub proof fn lemma_joined_lines_holds_each(items: Seq<Seq<char>>, i: int)
    requires
        0 <= i < items.len(),
    ensures
        has_infix(joined_lines(items), seq!['\n'] + items[i]),
    decreases items.len(),
{
    if i == items.len() - 1 {
        let a = joined_lines(items.drop_last());
        assert(joined_lines(items) =~= a + (seq!['\n'] + items[i]) + Seq::<char>::empty());
        lemma_infix_of_concat(a, seq!['\n'] + items[i], Seq::<char>::empty());
    } else {
        lemma_joined_lines_holds_each(items.drop_last(), i);
        let j = joined_lines(items.drop_last());
        let x = seq!['\n'] + items[i];
        assert(items.drop_last()[i] == items[i]);
        let k = choose|k: int| 0 <= k && k + x.len() <= j.len() && #[trigger] j.subrange(k, k + x.len()) == x;
        let t = joined_lines(items);
        assert(t =~= j + seq!['\n'] + items.last());
        assert(t.subrange(k, k + x.len()) =~= j.subrange(k, k + x.len()));
    }
}

} // verus!
