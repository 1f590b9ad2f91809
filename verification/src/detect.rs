//! The dispatch detector: the buffer that gathers what the terminal printed,
//! and the search for the announcement of the hook that is about to run.

use crate::text::{
    chars_of, extend_widened, find_from, has_occurrence, lemma_occurrence_in_extension,
    occurs_at, string_of, widened,
};
use vstd::prelude::*;

verus! {

/// The name of the variable that announces a dispatch.
pub open spec fn marker() -> Seq<char> {
    "JUJU_DISPATCH_PATH"@
}

/// What stands before the hook's name in an announcement.
pub open spec fn announcement() -> Seq<char> {
    "JUJU_DISPATCH_PATH=hooks/"@
}

/// The escape character that the terminal prints after the announcement.
pub open spec fn escape() -> char {
    '\u{1b}'
}

/// A lower-case letter of the Latin alphabet.
pub open spec fn is_lower(c: char) -> bool {
    'a' <= c && c <= 'z'
}

/// Every character of `s` is a lower-case letter.
pub open spec fn all_lower(s: Seq<char>) -> bool {
    forall|k: int| 0 <= k < s.len() ==> is_lower(#[trigger] s[k])
}

/// A hook's name: lower-case letters, or two runs of lower-case letters with one
/// hyphen between them.
pub open spec fn is_hook_name(s: Seq<char>) -> bool {
    ||| s.len() > 0 && all_lower(s)
    ||| exists|h: int|
        {
            &&& 0 < h < s.len() - 1
            &&& #[trigger] s[h] == '-'
            &&& all_lower(s.subrange(0, h))
            &&& all_lower(s.subrange(h + 1, s.len() as int))
        }
}

/// At index `start` of `text` stands `name`, a hook's name, and after it the
/// escape character.
pub open spec fn named_at(text: Seq<char>, start: int, name: Seq<char>) -> bool {
    &&& is_hook_name(name)
    &&& occurs_at(text, start, name.push(escape()))
}

/// At index `i` of `text` stands a whole announcement of the hook `name`.
pub open spec fn token_at(text: Seq<char>, i: int, name: Seq<char>) -> bool {
    &&& occurs_at(text, i, announcement())
    &&& named_at(text, i + announcement().len(), name)
}

/// The announcement of `name` at `i` is the leftmost whole announcement in `text`.
pub open spec fn leftmost_token(text: Seq<char>, i: int, name: Seq<char>) -> bool {
    &&& token_at(text, i, name)
    &&& forall|j: int, other: Seq<char>| j < i ==> !token_at(text, j, other)
}

/// The hook that the leftmost whole announcement in `text` names, if `text`
/// holds a whole announcement.
pub open spec fn first_hook(text: Seq<char>) -> Option<Seq<char>> {
    if exists|i: int, name: Seq<char>| leftmost_token(text, i, name) {
        let (i, name) = choose|i: int, name: Seq<char>| leftmost_token(text, i, name);
        Some(name)
    } else {
        None
    }
}

/// The abstract value of what a buffer shows.
pub enum Finding {
    /// The marker does not stand in the buffer.
    Absent,
    /// The marker stands in the buffer, but no whole announcement does.
    Incomplete,
    /// The leftmost whole announcement names this hook.
    Hook(Seq<char>),
}

/// What `text` shows.
pub open spec fn finding(text: Seq<char>) -> Finding {
    if !has_occurrence(text, marker()) {
        Finding::Absent
    } else {
        match first_hook(text) {
            Some(name) => Finding::Hook(name),
            None => Finding::Incomplete,
        }
    }
}

/// What a buffer shows.
#[derive(Debug, Clone, PartialEq, Eq)]
pub enum Detection {
    /// The marker does not stand in the buffer.
    Absent,
    /// The marker stands in the buffer, but no whole announcement does.
    Incomplete,
    /// The leftmost whole announcement names this hook.
    Hook(String),
}

impl View for Detection {
    type V = Finding;

    open spec fn view(&self) -> Finding {
        match self {
            Detection::Absent => Finding::Absent,
            Detection::Incomplete => Finding::Incomplete,
            Detection::Hook(name) => Finding::Hook(name@),
        }
    }
}

/// No character of a hook's name is the escape character.
pub proof fn lemma_name_chars(s: Seq<char>, k: int)
    requires
        is_hook_name(s),
        0 <= k < s.len(),
    ensures
        is_lower(s[k]) || s[k] == '-',
        s[k] != escape(),
{
    if !(s.len() > 0 && all_lower(s)) {
        let h = choose|h: int|
            {
                &&& 0 < h < s.len() - 1
                &&& #[trigger] s[h] == '-'
                &&& all_lower(s.subrange(0, h))
                &&& all_lower(s.subrange(h + 1, s.len() as int))
            };
        if k < h {
            assert(s.subrange(0, h)[k] == s[k]);
        } else if k > h {
            assert(s.subrange(h + 1, s.len() as int)[k - h - 1] == s[k]);
        }
    }
}

/// Where `name` and the escape character stand at `start`, the characters of
/// `text` from `start` on are those of `name`, and the escape character follows.
pub proof fn lemma_named_at_chars(text: Seq<char>, start: int, name: Seq<char>)
    requires
        occurs_at(text, start, name.push(escape())),
    ensures
        start + name.len() < text.len(),
        text[start + name.len()] == escape(),
        forall|k: int| 0 <= k < name.len() ==> text[start + k] == name[k],
        text.subrange(start, start + name.len()) == name,
{
    let piece = text.subrange(start, start + name.len() + 1);
    assert(piece == name.push(escape()));
    assert(piece[name.len() as int] == escape());
    assert forall|k: int| 0 <= k < name.len() implies text[start + k] == name[k] by {
        assert(piece[k] == name.push(escape())[k]);
    }
    assert(text.subrange(start, start + name.len()) =~= name);
}

/// At one index of a text at most one hook's name stands before an escape
/// character.
pub proof fn lemma_named_at_unique(text: Seq<char>, start: int, a: Seq<char>, b: Seq<char>)
    requires
        named_at(text, start, a),
        named_at(text, start, b),
    ensures
        a == b,
{
    lemma_named_at_chars(text, start, a);
    lemma_named_at_chars(text, start, b);
    if a.len() < b.len() {
        lemma_name_chars(b, a.len() as int);
    } else if b.len() < a.len() {
        lemma_name_chars(a, b.len() as int);
    }
}

/// A text has at most one leftmost whole announcement.
pub proof fn lemma_leftmost_unique(text: Seq<char>, i: int, a: Seq<char>, j: int, b: Seq<char>)
    requires
        leftmost_token(text, i, a),
        leftmost_token(text, j, b),
    ensures
        i == j,
        a == b,
{
    lemma_named_at_unique(text, i + announcement().len(), a, b);
}

/// Where the leftmost whole announcement of `text` stands at `i` and names
/// `name`, `name` is the first hook of `text`.
pub proof fn lemma_first_hook_is(text: Seq<char>, i: int, name: Seq<char>)
    requires
        leftmost_token(text, i, name),
    ensures
        first_hook(text) == Some(name),
{
    let (j, other) = choose|j: int, other: Seq<char>| leftmost_token(text, j, other);
    lemma_leftmost_unique(text, i, name, j, other);
}

/// A text without a whole announcement has no first hook.
pub proof fn lemma_first_hook_none(text: Seq<char>)
    requires
        forall|i: int, name: Seq<char>| !token_at(text, i, name),
    ensures
        first_hook(text) is None,
{
}

/// A whole announcement begins with the marker: a text that names a hook holds
/// the marker, so what it shows is that hook.
pub proof fn lemma_hook_shows_marker(text: Seq<char>)
    requires
        first_hook(text) is Some,
    ensures
        has_occurrence(text, marker()),
        finding(text) == Finding::Hook(first_hook(text)->0),
{
    reveal_strlit("JUJU_DISPATCH_PATH");
    reveal_strlit("JUJU_DISPATCH_PATH=hooks/");
    let (i, name) = choose|i: int, name: Seq<char>| leftmost_token(text, i, name);
    let whole = text.subrange(i, i + announcement().len());
    assert(whole == announcement());
    assert(text.subrange(i, i + marker().len()) =~= whole.subrange(0, marker().len() as int));
    assert(announcement().subrange(0, marker().len() as int) =~= marker());
    assert(occurs_at(text, i, marker()));
}

/// What was detected stays detected: where a text names a hook, the text
/// followed by anything names the same hook.
pub proof fn lemma_first_hook_stable(text: Seq<char>, more: Seq<char>)
    requires
        first_hook(text) is Some,
    ensures
        first_hook(text + more) == first_hook(text),
{
    reveal_strlit("JUJU_DISPATCH_PATH=hooks/");
    let (i, name) = choose|i: int, name: Seq<char>| leftmost_token(text, i, name);
    lemma_first_hook_is(text, i, name);
    let whole = text + more;
    let lead = announcement().len() as int;
    lemma_named_at_chars(text, i + lead, name);
    let stop = i + lead + name.len();
    lemma_occurrence_in_extension(text, more, i, announcement());
    lemma_occurrence_in_extension(text, more, i + lead, name.push(escape()));
    assert forall|j: int, other: Seq<char>| j < i implies !token_at(whole, j, other) by {
        if token_at(whole, j, other) {
            lemma_named_at_chars(whole, j + lead, other);
            let end = j + lead + other.len();
            if end < text.len() {
                lemma_occurrence_in_extension(text, more, j, announcement());
                lemma_occurrence_in_extension(text, more, j + lead, other.push(escape()));
                assert(token_at(text, j, other));
            } else {
                assert(whole[stop] == text[stop]);
                if stop < j + lead {
                    assert(whole.subrange(j, j + lead)[stop - j] == whole[stop]);
                    assert(announcement()[stop - j] != escape());
                } else {
                    lemma_name_chars(other, stop - j - lead);
                }
            }
        }
    }
    lemma_first_hook_is(whole, i, name);
}

/// Whether `c` is a lower-case letter.
fn lower(c: char) -> (b: bool)
    ensures
        b == is_lower(c),
{
    'a' <= c && c <= 'z'
}

/// The hook's name that stands at `start` before an escape character, if one
/// does.
fn name_at(text: &Vec<char>, start: usize) -> (found: Option<Vec<char>>)
    requires
        start <= text.len(),
    ensures
        match found {
            Some(name) => named_at(text@, start as int, name@),
            None => forall|name: Seq<char>| !named_at(text@, start as int, name),
        },
{
    let mut end: usize = start;
    let mut hyphen: Option<usize> = None;
    let mut second: bool = false;
    while end < text.len() && (lower(text[end]) || text[end] == '-')
        invariant
            start <= end <= text.len(),
            forall|k: int| start <= k < end ==> is_lower(text@[k]) || text@[k] == '-',
            match hyphen {
                None => !second && forall|k: int| start <= k < end ==> is_lower(text@[k]),
                Some(h) => {
                    &&& start <= h < end
                    &&& text@[h as int] == '-'
                    &&& forall|k: int| start <= k < h ==> is_lower(text@[k])
                    &&& if second {
                        exists|k: int| h < k < end && text@[k] == '-'
                    } else {
                        forall|k: int| h < k < end ==> is_lower(text@[k])
                    }
                },
            },
        decreases text.len() - end,
    {
        if text[end] == '-' {
            match hyphen {
                None => {
                    hyphen = Some(end);
                },
                Some(h) => {
                    second = true;
                    assert(h < end && text@[end as int] == '-');
                },
            }
        }
        end += 1;
    }
    let ghost run = text@.subrange(start as int, end as int);
    // Any name that stands here before an escape character is the whole run.
    assert forall|name: Seq<char>| named_at(text@, start as int, name) implies name == run
        && end < text.len() && text@[end as int] == escape() by {
        lemma_named_at_chars(text@, start as int, name);
        if end < start + name.len() {
            lemma_name_chars(name, end - start);
            assert(text@[start + (end - start)] == name[end - start]);
        }
        assert(end == start + name.len());
    }
    let valid: bool = end < text.len() && text[end] == '\u{1b}' && end > start && match hyphen {
        None => true,
        Some(h) => !second && h > start && h < end - 1,
    };
    proof {
        let ok = match hyphen {
            None => end > start,
            Some(h) => !second && h > start && h < end - 1,
        };
        assert(ok == is_hook_name(run)) by {
            match hyphen {
                None => {
                    assert(all_lower(run));
                    if is_hook_name(run) && !(run.len() > 0) {
                        assert(false);
                    }
                },
                Some(h) => {
                    let at = h - start;
                    assert(run[at] == '-');
                    assert(!all_lower(run));
                    if ok {
                        assert(all_lower(run.subrange(0, at)));
                        assert(all_lower(run.subrange(at + 1, run.len() as int)));
                    }
                    if is_hook_name(run) {
                        let g = choose|g: int|
                            {
                                &&& 0 < g < run.len() - 1
                                &&& #[trigger] run[g] == '-'
                                &&& all_lower(run.subrange(0, g))
                                &&& all_lower(run.subrange(g + 1, run.len() as int))
                            };
                        if at < g {
                            assert(run.subrange(0, g)[at] == run[at]);
                        } else if at > g {
                            assert(run.subrange(g + 1, run.len() as int)[at - g - 1] == run[at]);
                        }
                        assert(g == at);
                        if second {
                            let k = choose|k: int| h < k < end && text@[k] == '-';
                            assert(run.subrange(g + 1, run.len() as int)[k - start - g - 1]
                                == text@[k]);
                        }
                    }
                },
            }
        }
    }
    if valid {
        let mut name: Vec<char> = Vec::new();
        let mut k: usize = start;
        while k < end
            invariant
                start <= k <= end <= text.len(),
                name@ == text@.subrange(start as int, k as int),
            decreases end - k,
        {
            name.push(text[k]);
            assert(text@.subrange(start as int, k + 1) =~= text@.subrange(
                start as int,
                k as int,
            ).push(text@[k as int]));
            k += 1;
        }
        assert(text@.subrange(start as int, end + 1) =~= run.push(escape()));
        Some(name)
    } else {
        None
    }
}

/// The hook that the leftmost whole announcement in `text` names.
pub fn first_hook_of(text: &Vec<char>) -> (found: Option<Vec<char>>)
    ensures
        match found {
            Some(name) => first_hook(text@) == Some(name@),
            None => first_hook(text@) is None,
        },
        found is Some <==> exists|i: int, name: Seq<char>| token_at(text@, i, name),
{
    let lead = chars_of("JUJU_DISPATCH_PATH=hooks/");
    proof {
        reveal_strlit("JUJU_DISPATCH_PATH=hooks/");
    }
    let mut from: usize = 0;
    while from < text.len()
        invariant
            lead@ == announcement(),
            lead@.len() == 25,
            forall|j: int, name: Seq<char>| j < from ==> !token_at(text@, j, name),
        decreases text.len() - from,
    {
        match find_from(text, from, &lead) {
            None => {
                proof {
                    lemma_first_hook_none(text@);
                }
                return None;
            },
            Some(at) => {
                match name_at(text, at + lead.len()) {
                    Some(name) => {
                        proof {
                            lemma_first_hook_is(text@, at as int, name@);
                        }
                        return Some(name);
                    },
                    None => {
                        from = at + 1;
                    },
                }
            },
        }
    }
    proof {
        lemma_first_hook_none(text@);
    }
    None
}

/// What `text` shows: whether the marker stands in it, and which hook its
/// leftmost whole announcement names.
pub fn detect_in(text: &Vec<char>) -> (found: Detection)
    ensures
        found@ == finding(text@),
{
    let mark = chars_of("JUJU_DISPATCH_PATH");
    match find_from(text, 0, &mark) {
        None => Detection::Absent,
        Some(_) => match first_hook_of(text) {
            Some(name) => Detection::Hook(string_of(&name)),
            None => Detection::Incomplete,
        },
    }
}

/// The hook that the leftmost whole announcement in `text` names, if `text`
/// holds one.
pub fn extract_hook_name(text: &str) -> (found: Option<String>)
    ensures
        match found {
            Some(name) => first_hook(text@) == Some(name@),
            None => first_hook(text@) is None,
        },
{
    let chars = chars_of(text);
    match first_hook_of(&chars) {
        Some(name) => Some(string_of(&name)),
        None => None,
    }
}

/// What the terminal printed since the polling began, each byte as the character
/// of the same number.
pub struct DetectionBuffer {
    content: Vec<char>,
}

impl View for DetectionBuffer {
    type V = Seq<char>;

    closed spec fn view(&self) -> Seq<char> {
        self.content@
    }
}

impl DetectionBuffer {
    /// An empty buffer.
    pub fn new() -> (buffer: DetectionBuffer)
        ensures
            buffer@ == Seq::<char>::empty(),
    {
        DetectionBuffer { content: Vec::new() }
    }

    /// Adds what was read to the end of the buffer; what it held stays.
    pub fn append(&mut self, bytes: &[u8])
        ensures
            final(self)@ == old(self)@ + widened(bytes@),
    {
        extend_widened(&mut self.content, bytes);
    }

    /// The number of characters in the buffer.
    pub fn len(&self) -> (n: usize)
        ensures
            n == self@.len(),
    {
        self.content.len()
    }

    /// What the buffer shows.
    pub fn detect(&self) -> (found: Detection)
        ensures
            found@ == finding(self@),
    {
        detect_in(&self.content)
    }
}

} // verus!
