//! Finding a substitution command in the text of a message.
//!
//! A message may quote the message it replies to in its first lines. That
//! quotation is removed first. What is left holds a command in one of two
//! ways: it mentions `sed ` and the command follows on the same line, or it
//! is a command and nothing else.

use vstd::prelude::*;
use vstd::string::StrSliceExecFns;
use crate::text::{ascii_alphanumeric, chars_of, is_ascii_alphanumeric};

verus! {

/// The index of the first line feed of `s` at or after `from`, or the
/// length of `s` when there is none.
pub open spec fn first_newline(s: Seq<char>, from: int) -> int
    decreases s.len() - from,
{
    if from < 0 || from >= s.len() {
        s.len() as int
    } else if s[from] == '\n' {
        from
    } else {
        first_newline(s, from + 1)
    }
}

/// A quoted line starts at index `i`: the characters `>` and a space.
pub open spec fn quoted_at(s: Seq<char>, i: int) -> bool {
    0 <= i && i + 1 < s.len() && s[i] == '>' && s[i + 1] == ' '
}

/// The index at which the run of quoted lines that starts at `i` ends. A
/// quoted line without a line feed runs to the end of the text.
pub open spec fn after_quoted_lines(s: Seq<char>, i: int) -> int
    decreases s.len() - i,
{
    if quoted_at(s, i) {
        let nl = first_newline(s, i);
        if i <= nl && nl < s.len() {
            after_quoted_lines(s, nl + 1)
        } else {
            s.len() as int
        }
    } else {
        i
    }
}

/// The text opens with a quotation: `> <` or, for an emote, `> * <`, and
/// it has more than one line.
pub open spec fn has_reply_fallback(s: Seq<char>) -> bool {
    &&& quoted_at(s, 0)
    &&& (s.len() >= 3 && s[2] == '<') || (s.len() >= 5 && s[2] == '*' && s[3] == ' ' && s[4]
        == '<')
    &&& first_newline(s, 0) < s.len()
}

/// Where the text proper starts: after the quoted lines and one empty line,
/// or at 0 when the text opens with no quotation.
pub open spec fn reply_fallback_end(s: Seq<char>) -> int {
    if has_reply_fallback(s) {
        let i = after_quoted_lines(s, 0);
        if 0 <= i && i < s.len() && s[i] == '\n' {
            i + 1
        } else {
            i
        }
    } else {
        0
    }
}

/// The text without the quotation of the message it replies to.
pub open spec fn without_reply_fallback(s: Seq<char>) -> Seq<char> {
    s.subrange(reply_fallback_end(s), s.len() as int)
}

/// `first_newline` stays within the text and stands on a line feed, and no
/// line feed comes between `from` and it.
pub proof fn lemma_first_newline(s: Seq<char>, from: int)
    requires
        0 <= from <= s.len(),
    ensures
        from <= first_newline(s, from) <= s.len(),
        first_newline(s, from) < s.len() ==> s[first_newline(s, from)] == '\n',
        forall|k: int| from <= k < first_newline(s, from) ==> s[k] != '\n',
    decreases s.len() - from,
{
    if from < s.len() && s[from] != '\n' {
        lemma_first_newline(s, from + 1);
    }
}

/// The quoted lines end within the text, at or after the place they start.
pub proof fn lemma_after_quoted_lines(s: Seq<char>, i: int)
    requires
        0 <= i <= s.len(),
    ensures
        i <= after_quoted_lines(s, i) <= s.len(),
    decreases s.len() - i,
{
    if quoted_at(s, i) {
        lemma_first_newline(s, i);
        let nl = first_newline(s, i);
        if nl < s.len() {
            lemma_after_quoted_lines(s, nl + 1);
        }
    }
}

/// What is left without the quotation is the end of the text, and the
/// whole text where it opens with no quotation.
pub proof fn lemma_stripped_is_suffix(s: Seq<char>)
    ensures
        0 <= reply_fallback_end(s) <= s.len(),
        without_reply_fallback(s).len() == s.len() - reply_fallback_end(s),
        forall|i: int|
            0 <= i < without_reply_fallback(s).len() ==> without_reply_fallback(s)[i] == s[i
                + reply_fallback_end(s)],
        !has_reply_fallback(s) ==> without_reply_fallback(s) == s,
{
    lemma_after_quoted_lines(s, 0);
    if !has_reply_fallback(s) {
        assert(s.subrange(0, s.len() as int) =~= s);
    }
}

/// The index of the first line feed at or after `from`, or the length of
/// `c` when there is none.
pub fn find_newline(c: &Vec<char>, from: usize) -> (r: usize)
    ensures
        r == first_newline(c@, from as int),
        r <= c.len(),
        from <= c.len() ==> from <= r,
{
    let n: usize = c.len();
    let mut i: usize = if from < n {
        from
    } else {
        n
    };
    while i < n && c[i] != '\n'
        invariant
            n == c.len(),
            i <= n,
            from <= n ==> from <= i,
            first_newline(c@, from as int) == first_newline(c@, i as int),
        decreases n - i,
    {
        i += 1;
    }
    i
}

fn quoted_here(c: &Vec<char>, i: usize) -> (r: bool)
    requires
        i <= c.len(),
    ensures
        r == quoted_at(c@, i as int),
{
    let n: usize = c.len();
    n - i >= 2 && c[i] == '>' && c[i + 1] == ' '
}

fn skip_quoted_lines(c: &Vec<char>) -> (r: usize)
    ensures
        r == after_quoted_lines(c@, 0),
        r <= c.len(),
{
    let n: usize = c.len();
    let mut i: usize = 0;
    while quoted_here(c, i)
        invariant
            n == c.len(),
            i <= n,
            after_quoted_lines(c@, 0) == after_quoted_lines(c@, i as int),
        decreases n - i,
    {
        let nl: usize = find_newline(c, i);
        if nl < n {
            i = nl + 1;
        } else {
            i = n;
            return i;
        }
    }
    i
}

fn opens_with_quotation(c: &Vec<char>) -> (r: bool)
    ensures
        r == has_reply_fallback(c@),
{
    let n: usize = c.len();
    if !quoted_here(c, 0) {
        return false;
    }
    let sender: bool = n >= 3 && c[2] == '<';
    let emote: bool = n >= 5 && c[2] == '*' && c[3] == ' ' && c[4] == '<';
    (sender || emote) && find_newline(c, 0) < n
}

/// Removes the quotation of the message that `s` replies to, if `s` opens
/// with one.
pub fn strip_reply_fallback(s: &str) -> (r: &str)
    ensures
        r@ == without_reply_fallback(s@),
{
    let c: Vec<char> = chars_of(s);
    let n: usize = c.len();
    if !opens_with_quotation(&c) {
        assert(s@.subrange(0, s@.len() as int) == s@);
        return s;
    }
    let i: usize = skip_quoted_lines(&c);
    let start: usize = if i < n && c[i] == '\n' {
        i + 1
    } else {
        i
    };
    s.substring_char(start, n)
}

/// `sed ` and the start of a command stand at index `j`: the five characters
/// `sed s`, then one more on the same line, and no ASCII letter or digit
/// right before them.
pub open spec fn mention_at(s: Seq<char>, j: int) -> bool {
    &&& 0 <= j && j + 5 < s.len()
    &&& s[j] == 's' && s[j + 1] == 'e' && s[j + 2] == 'd' && s[j + 3] == ' ' && s[j + 4] == 's'
    &&& s[j + 5] != '\n'
    &&& (j == 0 || !is_ascii_alphanumeric(s[j - 1]))
}

/// The first index at or after `from` at which a mention stands.
pub open spec fn first_mention(s: Seq<char>, from: int) -> Option<int>
    decreases s.len() - from,
{
    if from < 0 || from + 5 >= s.len() {
        None
    } else if mention_at(s, from) {
        Some(from)
    } else {
        first_mention(s, from + 1)
    }
}

/// The command that the first mention of `sed ` introduces: from the `s`
/// after the space to the end of that line.
pub open spec fn embedded_command(s: Seq<char>) -> Option<Seq<char>> {
    match first_mention(s, 0) {
        Some(j) => Some(s.subrange(j + 4, first_newline(s, j + 5))),
        None => None,
    }
}

/// The two characters that may separate the parts of a command that stands
/// alone.
pub open spec fn is_delimiter(c: char) -> bool {
    c == '/' || c == '#'
}

/// The text is a command and nothing else: `s`, a delimiter, a part, a
/// delimiter and another part, on one line, neither part empty.
pub open spec fn is_whole_command(s: Seq<char>) -> bool {
    &&& s.len() >= 5
    &&& s[0] == 's'
    &&& is_delimiter(s[1])
    &&& forall|i: int| 2 <= i < s.len() ==> s[i] != '\n'
    &&& exists|k: int| 3 <= k < s.len() - 1 && is_delimiter(#[trigger] s[k])
}

/// The command that a text without quotation holds, if any. A mention of
/// `sed ` goes before the text taken as a whole.
pub open spec fn command_in(s: Seq<char>) -> Option<Seq<char>> {
    match embedded_command(s) {
        Some(c) => Some(c),
        None => if is_whole_command(s) {
            Some(s)
        } else {
            None
        },
    }
}

/// The command that the text of a message holds, if any.
pub open spec fn parse_spec(raw: Seq<char>) -> Option<Seq<char>> {
    command_in(without_reply_fallback(raw))
}

/// `first_mention` finds a mention, and the leftmost one at or after `from`.
pub proof fn lemma_first_mention(s: Seq<char>, from: int)
    requires
        0 <= from,
    ensures
        match first_mention(s, from) {
            Some(j) => from <= j && mention_at(s, j) && forall|k: int|
                from <= k < j ==> !mention_at(s, k),
            None => forall|k: int| from <= k ==> !mention_at(s, k),
        },
    decreases s.len() - from,
{
    if from + 5 < s.len() && !mention_at(s, from) {
        lemma_first_mention(s, from + 1);
    }
}

/// A command that is found is one line, starts with `s` and has at least
/// two characters.
pub proof fn lemma_command_shape(raw: Seq<char>)
    requires
        parse_spec(raw) is Some,
    ensures
        parse_spec(raw)->0.len() >= 2,
        parse_spec(raw)->0[0] == 's',
        forall|i: int| 0 <= i < parse_spec(raw)->0.len() ==> parse_spec(raw)->0[i] != '\n',
{
    let s = without_reply_fallback(raw);
    lemma_first_mention(s, 0);
    match first_mention(s, 0) {
        Some(j) => {
            lemma_first_newline(s, j + 5);
        },
        None => {},
    }
}

fn mention_here(c: &Vec<char>, j: usize) -> (r: bool)
    requires
        j + 5 < c.len(),
    ensures
        r == mention_at(c@, j as int),
{
    c[j] == 's' && c[j + 1] == 'e' && c[j + 2] == 'd' && c[j + 3] == ' ' && c[j + 4] == 's' && c[j
        + 5] != '\n' && (j == 0 || !ascii_alphanumeric(c[j - 1]))
}

/// The index of the leftmost mention of `sed ` in `c`.
pub fn find_mention(c: &Vec<char>) -> (r: Option<usize>)
    ensures
        match r {
            Some(j) => first_mention(c@, 0) == Some(j as int),
            None => first_mention(c@, 0) is None,
        },
{
    let n: usize = c.len();
    if n < 6 {
        return None;
    }
    let mut j: usize = 0;
    while j < n - 5
        invariant
            n == c.len(),
            n >= 6,
            j <= n - 5,
            first_mention(c@, 0) == first_mention(c@, j as int),
        decreases n - j,
    {
        if mention_here(c, j) {
            return Some(j);
        }
        j += 1;
    }
    None
}

fn delimiter(c: char) -> (r: bool)
    ensures
        r == is_delimiter(c),
{
    c == '/' || c == '#'
}

/// Tells whether `c` is a command and nothing else.
pub fn whole_command(c: &Vec<char>) -> (r: bool)
    ensures
        r == is_whole_command(c@),
{
    let n: usize = c.len();
    if n < 5 || c[0] != 's' || !delimiter(c[1]) {
        return false;
    }
    let mut split: bool = false;
    let mut i: usize = 2;
    while i < n
        invariant
            n == c.len(),
            2 <= i <= n,
            forall|m: int| 2 <= m < i ==> c@[m] != '\n',
            split <==> exists|k: int| 3 <= k < i && k < n - 1 && is_delimiter(#[trigger] c@[k]),
        decreases n - i,
    {
        if c[i] == '\n' {
            return false;
        }
        if i >= 3 && i < n - 1 && delimiter(c[i]) {
            split = true;
        }
        i += 1;
    }
    split
}

/// Finds the command in the text of a message: the quotation of an earlier
/// message is left out, then a mention of `sed ` is looked for, then the
/// text is taken as a whole.
pub fn parse(raw: &str) -> (r: Option<String>)
    ensures
        match r {
            Some(command) => parse_spec(raw@) == Some(command@),
            None => parse_spec(raw@) is None,
        },
{
    let body: &str = strip_reply_fallback(raw);
    let c: Vec<char> = chars_of(body);
    match find_mention(&c) {
        Some(j) => {
            proof {
                lemma_first_mention(c@, 0);
            }
            let end: usize = find_newline(&c, j + 5);
            Some(body.substring_char(j + 4, end).to_owned())
        },
        None => {
            if whole_command(&c) {
                Some(body.to_owned())
            } else {
                None
            }
        },
    }
}

} // verus!
