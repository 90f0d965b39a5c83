//! Source text as a sequence of characters: substring search, line
//! splitting and trimming, each with its mathematical model.

use vstd::prelude::*;
use vstd::slice::slice_subrange;

verus! {

/// `needle` stands in `hay` at index `at`.
pub open spec fn occurs_at(hay: Seq<char>, needle: Seq<char>, at: int) -> bool {
    &&& 0 <= at
    &&& at + needle.len() <= hay.len()
    &&& hay.subrange(at, at + needle.len()) == needle
}

/// `needle` is a contiguous part of `hay`. The empty needle is part of every text.
pub open spec fn contains(hay: Seq<char>, needle: Seq<char>) -> bool {
    exists|at: int| occurs_at(hay, needle, at)
}

/// `at` is the leftmost index at which `needle` stands in `hay`.
pub open spec fn is_first_occurrence(hay: Seq<char>, needle: Seq<char>, at: int) -> bool {
    &&& occurs_at(hay, needle, at)
    &&& forall|j: int| 0 <= j < at ==> !occurs_at(hay, needle, j)
}

/// The leftmost index at which `needle` stands in `hay`, for a `hay` that
/// contains it.
pub open spec fn first_occurrence(hay: Seq<char>, needle: Seq<char>) -> int {
    choose|at: int| is_first_occurrence(hay, needle, at)
}

/// The part of `text` before the first occurrence of `mark`: all of it when
/// `mark` does not occur.
pub open spec fn before(text: Seq<char>, mark: Seq<char>) -> Seq<char> {
    if contains(text, mark) {
        text.take(first_occurrence(text, mark))
    } else {
        text
    }
}

/// The part of `text` after the first occurrence of `mark`: nothing when
/// `mark` does not occur.
pub open spec fn after(text: Seq<char>, mark: Seq<char>) -> Seq<char> {
    if contains(text, mark) {
        text.skip(first_occurrence(text, mark) + mark.len())
    } else {
        Seq::empty()
    }
}

/// The index of the first line feed at or after `from`, or the length of
/// the text when there is none.
pub open spec fn line_end(text: Seq<char>, from: int) -> int
    decreases text.len() - from,
{
    if from < 0 || from >= text.len() {
        text.len() as int
    } else if text[from] == '\n' {
        from
    } else {
        line_end(text, from + 1)
    }
}

/// A line without the carriage return that closed it, if it had one.
pub open spec fn without_carriage_return(line: Seq<char>) -> Seq<char> {
    if line.len() > 0 && line.last() == '\r' {
        line.drop_last()
    } else {
        line
    }
}

/// The lines of the text that starts at index `from`.
pub open spec fn lines_from(text: Seq<char>, from: int) -> Seq<Seq<char>>
    decreases text.len() - from,
    via lines_from_terminates
{
    if from < 0 || from >= text.len() {
        Seq::empty()
    } else {
        let end = line_end(text, from);
        if end < text.len() {
            seq![without_carriage_return(text.subrange(from, end))] + lines_from(text, end + 1)
        } else {
            seq![text.subrange(from, end)]
        }
    }
}

#[via_fn]
proof fn lines_from_terminates(text: Seq<char>, from: int) {
    if 0 <= from < text.len() {
        lemma_line_end_bounds(text, from);
    }
}

/// The lines of a text. A line ends at a line feed, or at a carriage
/// return directly followed by one; neither belongs to the line. The last
/// line need not be closed, and a text that ends with a line ending has no
/// empty line after it. A carriage return elsewhere is an ordinary character.
pub open spec fn lines(text: Seq<char>) -> Seq<Seq<char>> {
    lines_from(text, 0)
}

/// The characters with the Unicode property `White_Space`.
pub open spec fn is_whitespace(c: char) -> bool {
    let n = c as u32;
    ||| 0x09 <= n <= 0x0D
    ||| n == 0x20
    ||| n == 0x85
    ||| n == 0xA0
    ||| n == 0x1680
    ||| 0x2000 <= n <= 0x200A
    ||| n == 0x2028
    ||| n == 0x2029
    ||| n == 0x202F
    ||| n == 0x205F
    ||| n == 0x3000
}

/// The text without its leading whitespace.
pub open spec fn trim_start(s: Seq<char>) -> Seq<char>
    decreases s.len(),
{
    if s.len() > 0 && is_whitespace(s.first()) {
        trim_start(s.drop_first())
    } else {
        s
    }
}

/// The text without its trailing whitespace.
pub open spec fn trim_end(s: Seq<char>) -> Seq<char>
    decreases s.len(),
{
    if s.len() > 0 && is_whitespace(s.last()) {
        trim_end(s.drop_last())
    } else {
        s
    }
}

/// The text without leading and trailing whitespace.
pub open spec fn trim(s: Seq<char>) -> Seq<char> {
    trim_end(trim_start(s))
}

/// `at` is the index of the first line from `from` on that satisfies `hit`.
pub open spec fn is_first_hit(
    lines: Seq<Seq<char>>,
    hit: spec_fn(Seq<char>) -> bool,
    from: int,
    at: int,
) -> bool {
    &&& from <= at < lines.len()
    &&& hit(lines[at])
    &&& forall|j: int| from <= j < at ==> !hit(#[trigger] lines[j])
}

/// Some line from index `from` on satisfies `hit`.
pub open spec fn some_line_hits(
    lines: Seq<Seq<char>>,
    hit: spec_fn(Seq<char>) -> bool,
    from: int,
) -> bool {
    exists|at: int| from <= at < lines.len() && hit(#[trigger] lines[at])
}

/// The one-based number of the first line that satisfies `hit`, and 1 when
/// no line does.
pub open spec fn line_number(lines: Seq<Seq<char>>, hit: spec_fn(Seq<char>) -> bool) -> nat {
    if some_line_hits(lines, hit, 0) {
        (choose|at: int| is_first_hit(lines, hit, 0, at)) as nat + 1
    } else {
        1
    }
}

/// The views of the lines held in `lines`.
pub open spec fn line_views(lines: Seq<Vec<char>>) -> Seq<Seq<char>> {
    lines.map_values(|line: Vec<char>| line@)
}

/// A line ends no earlier than it starts and no later than the text does,
/// at the first line feed if there is one.
pub proof fn lemma_line_end_bounds(text: Seq<char>, from: int)
    requires
        0 <= from <= text.len(),
    ensures
        from <= line_end(text, from) <= text.len(),
        line_end(text, from) < text.len() ==> text[line_end(text, from)] == '\n',
        forall|i: int| from <= i < line_end(text, from) ==> text[i] != '\n',
    decreases text.len() - from,
{
    if from < text.len() && text[from] != '\n' {
        lemma_line_end_bounds(text, from + 1);
    }
}

/// What a part of a text contains, the text contains.
pub proof fn lemma_part_holds_no_more(text: Seq<char>, from: int, to: int, token: Seq<char>)
    requires
        0 <= from <= to <= text.len(),
        contains(text.subrange(from, to), token),
    ensures
        contains(text, token),
{
    let part = text.subrange(from, to);
    let at = choose|at: int| occurs_at(part, token, at);
    assert(text.subrange(from + at, from + at + token.len()) =~= part.subrange(
        at,
        at + token.len(),
    ));
    assert(occurs_at(text, token, from + at));
}

/// Every line of the text that starts at index `from` is a part of the text.
pub proof fn lemma_lines_are_parts(text: Seq<char>, from: int, index: int)
    requires
        0 <= from <= text.len(),
        0 <= index < lines_from(text, from).len(),
    ensures
        exists|a: int, b: int|
            from <= a <= b <= text.len() && lines_from(text, from)[index] == #[trigger] text.subrange(
                a,
                b,
            ),
    decreases text.len() - from,
{
    lemma_line_end_bounds(text, from);
    let end = line_end(text, from);
    let whole = text.subrange(from, end);
    if end < text.len() {
        if index == 0 {
            if whole.len() > 0 && whole.last() == '\r' {
                assert(lines_from(text, from)[0] =~= text.subrange(from, end - 1));
            } else {
                assert(lines_from(text, from)[0] == text.subrange(from, end));
            }
        } else {
            lemma_lines_are_parts(text, end + 1, index - 1);
            assert(lines_from(text, from)[index] == lines_from(text, end + 1)[index - 1]);
        }
    } else {
        assert(lines_from(text, from)[index] == text.subrange(from, end));
    }
}

/// What a line of a text contains, the text contains.
pub proof fn lemma_line_holds_no_more(text: Seq<char>, index: int, token: Seq<char>)
    requires
        0 <= index < lines(text).len(),
        contains(lines(text)[index], token),
    ensures
        contains(text, token),
{
    lemma_lines_are_parts(text, 0, index);
    let (a, b) = choose|a: int, b: int|
        0 <= a <= b <= text.len() && lines(text)[index] == #[trigger] text.subrange(a, b);
    lemma_part_holds_no_more(text, a, b, token);
}

/// The leftmost occurrence is the only one with none to its left.
pub proof fn lemma_first_occurrence_unique(hay: Seq<char>, needle: Seq<char>, at: int)
    requires
        is_first_occurrence(hay, needle, at),
    ensures
        contains(hay, needle),
        first_occurrence(hay, needle) == at,
{
    let chosen = first_occurrence(hay, needle);
    assert(is_first_occurrence(hay, needle, chosen));
    if chosen < at {
        assert(!occurs_at(hay, needle, chosen));
    }
    if at < chosen {
        assert(!occurs_at(hay, needle, at));
    }
}

/// Assumed of `String::push` of the standard library, and not proved here:
/// it appends one character, so that the string afterwards holds what it
/// held before, followed by that character.
pub assume_specification[ String::push ](s: &mut String, ch: char)
    ensures
        final(s)@ == old(s)@.push(ch),
;

/// The characters of a string, in order.
pub fn chars_of(s: &str) -> (chars: Vec<char>)
    ensures
        chars@ == s@,
{
    let mut chars: Vec<char> = Vec::new();
    for c in it: s.chars()
        invariant
            chars@ == it.seq().take(it.index()),
    {
        chars.push(c);
    }
    chars
}

/// A copy of the characters of a slice.
pub fn copy_of(s: &[char]) -> (copy: Vec<char>)
    ensures
        copy@ == s@,
{
    let mut copy: Vec<char> = Vec::new();
    let mut i: usize = 0;
    while i < s.len()
        invariant
            i <= s@.len(),
            copy@ == s@.take(i as int),
        decreases s@.len() - i,
    {
        copy.push(s[i]);
        assert(s@.take(i + 1) =~= s@.take(i as int).push(s@[i as int]));
        i += 1;
    }
    assert(s@.take(s@.len() as int) =~= s@);
    copy
}

/// The string made of the characters of a slice.
pub fn string_of(chars: &[char]) -> (s: String)
    ensures
        s@ == chars@,
{
    let mut s = String::new();
    let mut i: usize = 0;
    while i < chars.len()
        invariant
            i <= chars@.len(),
            s@ == chars@.take(i as int),
        decreases chars@.len() - i,
    {
        s.push(chars[i]);
        assert(chars@.take(i + 1) =~= chars@.take(i as int).push(chars@[i as int]));
        i += 1;
    }
    assert(chars@.take(chars@.len() as int) =~= chars@);
    s
}

/// Whether `needle` stands in `hay` at index `at`.
fn matches_at(hay: &[char], needle: &[char], at: usize) -> (hit: bool)
    requires
        at + needle@.len() <= hay@.len(),
    ensures
        hit == occurs_at(hay@, needle@, at as int),
{
    let n = needle.len();
    let total = hay.len();
    let mut k: usize = 0;
    while k < n
        invariant
            n == needle@.len(),
            total == hay@.len(),
            at + n <= total,
            k <= n,
            forall|i: int| 0 <= i < k ==> hay@[at + i] == needle@[i],
        decreases n - k,
    {
        if hay[at + k] != needle[k] {
            assert(hay@.subrange(at as int, at + n)[k as int] != needle@[k as int]);
            return false;
        }
        k += 1;
    }
    assert(hay@.subrange(at as int, at + n) =~= needle@);
    true
}

/// The leftmost index at which `needle` stands in `hay`.
pub fn find(hay: &[char], needle: &[char]) -> (found: Option<usize>)
    ensures
        match found {
            Some(at) => is_first_occurrence(hay@, needle@, at as int),
            None => !contains(hay@, needle@),
        },
{
    let n = needle.len();
    if n > hay.len() {
        return None;
    }
    let last = hay.len() - n;
    let mut at: usize = 0;
    loop
        invariant
            n == needle@.len(),
            last + n == hay@.len(),
            at <= last,
            forall|j: int| 0 <= j < at ==> !occurs_at(hay@, needle@, j),
        decreases last - at,
    {
        if matches_at(hay, needle, at) {
            return Some(at);
        }
        if at == last {
            return None;
        }
        at += 1;
    }
}

/// Whether the token `needle` is a contiguous part of `hay`.
pub fn mentions(hay: &[char], needle: &str) -> (hit: bool)
    ensures
        hit == contains(hay@, needle@),
{
    let token = chars_of(needle);
    find(hay, token.as_slice()).is_some()
}

/// The part of `text` before the first occurrence of `mark`.
pub fn part_before<'a>(text: &'a [char], mark: &str) -> (part: &'a [char])
    ensures
        part@ == before(text@, mark@),
{
    let token = chars_of(mark);
    match find(text, token.as_slice()) {
        Some(at) => {
            proof {
                lemma_first_occurrence_unique(text@, mark@, at as int);
            }
            slice_subrange(text, 0, at)
        },
        None => text,
    }
}

/// The part of `text` after the first occurrence of `mark`.
pub fn part_after<'a>(text: &'a [char], mark: &str) -> (part: &'a [char])
    ensures
        part@ == after(text@, mark@),
{
    let token = chars_of(mark);
    let total = text.len();
    match find(text, token.as_slice()) {
        Some(at) => {
            proof {
                lemma_first_occurrence_unique(text@, mark@, at as int);
            }
            slice_subrange(text, at + token.len(), total)
        },
        None => slice_subrange(text, 0, 0),
    }
}

/// Splits a text into its lines.
pub fn split_lines(text: &[char]) -> (lines: Vec<Vec<char>>)
    ensures
        line_views(lines@) == self::lines(text@),
{
    let mut lines: Vec<Vec<char>> = Vec::new();
    let mut start: usize = 0;
    while start < text.len()
        invariant
            start <= text@.len(),
            self::lines(text@) == line_views(lines@) + lines_from(text@, start as int),
        decreases text@.len() - start,
    {
        let mut end: usize = start;
        while end < text.len() && text[end] != '\n'
            invariant
                start <= end <= text@.len(),
                line_end(text@, start as int) == line_end(text@, end as int),
            decreases text@.len() - end,
        {
            end += 1;
        }
        assert(line_end(text@, start as int) == end);
        let ghost before = line_views(lines@);
        if end < text.len() {
            let stop = if end > start && text[end - 1] == '\r' {
                end - 1
            } else {
                end
            };
            let line = copy_of(slice_subrange(text, start, stop));
            assert(line@ == without_carriage_return(text@.subrange(start as int, end as int)));
            lines.push(line);
            assert(line_views(lines@) =~= before + seq![line@]);
            start = end + 1;
        } else {
            let line = copy_of(slice_subrange(text, start, end));
            lines.push(line);
            assert(line_views(lines@) =~= before + seq![line@]);
            start = end;
        }
    }
    assert(lines_from(text@, start as int) =~= Seq::<Seq<char>>::empty());
    lines
}

/// Whether a character has the Unicode property `White_Space`.
pub fn whitespace(c: char) -> (white: bool)
    ensures
        white == is_whitespace(c),
{
    let n: u32 = c as u32;
    (0x09 <= n && n <= 0x0D) || n == 0x20 || n == 0x85 || n == 0xA0 || n == 0x1680 || (0x2000 <= n
        && n <= 0x200A) || n == 0x2028 || n == 0x2029 || n == 0x202F || n == 0x205F || n == 0x3000
}

/// The part of a text between its leading and trailing whitespace.
pub fn trimmed(s: &[char]) -> (part: &[char])
    ensures
        part@ == trim(s@),
{
    let mut from: usize = 0;
    assert(s@.subrange(0, s@.len() as int) =~= s@);
    while from < s.len() && whitespace(s[from])
        invariant
            from <= s@.len(),
            trim_start(s@) == trim_start(s@.subrange(from as int, s@.len() as int)),
        decreases s@.len() - from,
    {
        assert(s@.subrange(from as int, s@.len() as int).drop_first() =~= s@.subrange(
            from + 1,
            s@.len() as int,
        ));
        from += 1;
    }
    assert(trim_start(s@) == s@.subrange(from as int, s@.len() as int));
    let mut to: usize = s.len();
    while to > from && whitespace(s[to - 1])
        invariant
            from <= to <= s@.len(),
            trim(s@) == trim_end(s@.subrange(from as int, to as int)),
        decreases to,
    {
        assert(s@.subrange(from as int, to as int).drop_last() =~= s@.subrange(
            from as int,
            to - 1,
        ));
        to -= 1;
    }
    slice_subrange(s, from, to)
}

/// The index of the first line from `from` on that `hit` accepts.
pub fn find_line<F: Fn(&[char]) -> bool>(
    lines: &Vec<Vec<char>>,
    from: usize,
    hit: F,
    Ghost(model): Ghost<spec_fn(Seq<char>) -> bool>,
) -> (found: Option<usize>)
    requires
        forall|line: &[char]| call_requires(hit, (line,)),
        forall|line: &[char], answer: bool|
            call_ensures(hit, (line,), answer) ==> answer == model(line@),
    ensures
        match found {
            Some(at) => at < usize::MAX && is_first_hit(
                line_views(lines@),
                model,
                from as int,
                at as int,
            ),
            None => !some_line_hits(line_views(lines@), model, from as int),
        },
{
    let mut at: usize = from;
    while at < lines.len()
        invariant
            from <= at,
            forall|line: &[char]| call_requires(hit, (line,)),
            forall|line: &[char], answer: bool|
                call_ensures(hit, (line,), answer) ==> answer == model(line@),
            forall|j: int|
                from <= j < at && j < lines@.len() ==> !model(#[trigger] line_views(lines@)[j]),
        decreases lines@.len() - at,
    {
        if hit(lines[at].as_slice()) {
            return Some(at);
        }
        at += 1;
    }
    None
}

/// The one-based number of the first line that `hit` accepts, if it accepts
/// one.
pub fn first_hit<F: Fn(&[char]) -> bool>(
    lines: &Vec<Vec<char>>,
    hit: F,
    Ghost(model): Ghost<spec_fn(Seq<char>) -> bool>,
) -> (number: Option<usize>)
    requires
        forall|line: &[char]| call_requires(hit, (line,)),
        forall|line: &[char], answer: bool|
            call_ensures(hit, (line,), answer) ==> answer == model(line@),
    ensures
        number is Some == some_line_hits(line_views(lines@), model, 0),
        number is Some ==> number->0 == line_number(line_views(lines@), model),
{
    match find_line(lines, 0, hit, Ghost(model)) {
        Some(at) => {
            proof {
                let views = line_views(lines@);
                let chosen = choose|i: int| is_first_hit(views, model, 0, i);
                assert(is_first_hit(views, model, 0, at as int));
                assert(chosen == at);
            }
            Some(at + 1)
        },
        None => None,
    }
}

/// The one-based number of the first line that `hit` accepts, and 1 when it
/// accepts none.
pub fn locate<F: Fn(&[char]) -> bool>(
    lines: &Vec<Vec<char>>,
    hit: F,
    Ghost(model): Ghost<spec_fn(Seq<char>) -> bool>,
) -> (number: usize)
    requires
        forall|line: &[char]| call_requires(hit, (line,)),
        forall|line: &[char], answer: bool|
            call_ensures(hit, (line,), answer) ==> answer == model(line@),
    ensures
        number == line_number(line_views(lines@), model),
{
    match first_hit(lines, hit, Ghost(model)) {
        Some(number) => number,
        None => 1,
    }
}

/// A source text prepared for scanning: its characters and its lines.
pub struct Source {
    pub text: Vec<char>,
    pub lines: Vec<Vec<char>>,
}

impl Source {
    /// The lines hold what [`lines`] gives for the text.
    pub open spec fn well_formed(&self) -> bool {
        line_views(self.lines@) == lines(self.text@)
    }

    /// The source text of `code`.
    pub fn new(code: &str) -> (source: Source)
        ensures
            source.text@ == code@,
            source.well_formed(),
    {
        let text = chars_of(code);
        let lines = split_lines(text.as_slice());
        Source { text, lines }
    }

    /// Whether `token` is a contiguous part of the text.
    pub fn mentions(&self, token: &str) -> (hit: bool)
        ensures
            hit == contains(self.text@, token@),
    {
        mentions(self.text.as_slice(), token)
    }

    /// The one-based number of the first line that `hit` accepts, if it
    /// accepts one.
    pub fn first_hit<F: Fn(&[char]) -> bool>(
        &self,
        hit: F,
        Ghost(model): Ghost<spec_fn(Seq<char>) -> bool>,
    ) -> (number: Option<usize>)
        requires
            self.well_formed(),
            forall|line: &[char]| call_requires(hit, (line,)),
            forall|line: &[char], answer: bool|
                call_ensures(hit, (line,), answer) ==> answer == model(line@),
        ensures
            number is Some == some_line_hits(lines(self.text@), model, 0),
            number is Some ==> number->0 == line_number(lines(self.text@), model),
    {
        first_hit(&self.lines, hit, Ghost(model))
    }

    /// The one-based number of the first line that `hit` accepts, and 1
    /// when it accepts none.
    pub fn locate<F: Fn(&[char]) -> bool>(
        &self,
        hit: F,
        Ghost(model): Ghost<spec_fn(Seq<char>) -> bool>,
    ) -> (number: usize)
        requires
            self.well_formed(),
            forall|line: &[char]| call_requires(hit, (line,)),
            forall|line: &[char], answer: bool|
                call_ensures(hit, (line,), answer) ==> answer == model(line@),
        ensures
            number == line_number(lines(self.text@), model),
    {
        locate(&self.lines, hit, Ghost(model))
    }
}

} // verus!
