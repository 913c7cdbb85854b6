//! Finding the stories that a story-definition file exports.
use vstd::prelude::*;
use crate::story::{component_name_of, Story};
use crate::text::chars_of;
use crate::discovery::{compile_regex, compiled_is_match, regex_compiles, regex_is_match, CompiledRegex};
use vstd::string::StrSliceExecFns;

verus! {

/// `^\w$`: the regular expression of a single word character.
pub open spec fn word_source() -> Seq<char> {
    seq!['^', '\\', 'w', '$']
}

/// A character that may stand in an exported identifier: a word character
/// (`\w`) of regular expressions, Unicode letters and digits included.
pub open spec fn is_word_char(c: char) -> bool {
    regex_is_match(word_source(), seq![c])
}

/// The class of word characters, compiled once.
pub struct WordClass {
    re: CompiledRegex,
}

impl WordClass {
    /// The class is compiled from `^\w$`.
    pub closed spec fn wf(&self) -> bool {
        self.re@ == word_source()
    }

    /// Compiles the class of word characters.
    pub fn new() -> (r: Option<WordClass>)
        ensures
            r is Some <==> regex_compiles(word_source()),
            r matches Some(w) ==> w.wf(),
    {
        let source = "^\\w$";
        proof {
            reveal_strlit("^\\w$");
        }
        assert(source@ =~= word_source());
        match compile_regex(source) {
            Ok(re) => Some(WordClass { re }),
            Err(_) => None,
        }
    }

    /// Whether the character at position `k` of `text` is a word character.
    fn holds_at(&self, text: &str, k: usize) -> (r: bool)
        requires
            self.wf(),
            k < text@.len(),
            k < usize::MAX,
        ensures
            r == is_word_char(text@[k as int]),
    {
        let one = text.substring_char(k, k + 1);
        assert(one@ =~= seq![text@[k as int]]);
        compiled_is_match(&self.re, one)
    }
}

/// `"export const "`.
pub open spec fn export_prefix() -> Seq<char> {
    seq!['e', 'x', 'p', 'o', 'r', 't', ' ', 'c', 'o', 'n', 's', 't', ' ']
}

/// `": Story"`.
pub open spec fn story_marker() -> Seq<char> {
    seq![':', ' ', 'S', 't', 'o', 'r', 'y']
}

/// The length of the run of word characters of `c` that starts at `k`.
pub open spec fn word_run(c: Seq<char>, k: int) -> nat
    decreases c.len() - k,
{
    if 0 <= k < c.len() && is_word_char(c[k]) {
        1 + word_run(c, k + 1)
    } else {
        0
    }
}

/// Whether `lit` stands in `c` at position `i`.
pub open spec fn occurs_at(c: Seq<char>, i: int, lit: Seq<char>) -> bool {
    0 <= i && i + lit.len() <= c.len() && c.subrange(i, i + lit.len()) == lit
}

/// The identifier of `export const <identifier>: Story` when that text
/// starts at position `i` of `c`.
pub open spec fn export_at(c: Seq<char>, i: int) -> Option<Seq<char>> {
    let s = i + export_prefix().len();
    let e = s + word_run(c, s);
    if occurs_at(c, i, export_prefix()) && e > s && occurs_at(c, e, story_marker()) {
        Some(c.subrange(s, e))
    } else {
        None
    }
}

/// The identifiers of the story exports that start at or after position `i`.
pub open spec fn exports_from(c: Seq<char>, i: int) -> Seq<Seq<char>>
    decreases c.len() - i,
{
    if i < 0 || i >= c.len() {
        Seq::empty()
    } else {
        match export_at(c, i) {
            Some(w) => seq![w] + exports_from(c, i + 1),
            None => exports_from(c, i + 1),
        }
    }
}

/// The identifiers of every `export const <identifier>: Story` in `c`, in
/// the order in which they appear.
pub open spec fn exported_story_names(c: Seq<char>) -> Seq<Seq<char>> {
    exports_from(c, 0)
}

/// The stories (as `(path, name, component_name)`) of the file at `path`
/// whose text is `content`.
pub open spec fn stories_of_file(path: Seq<char>, content: Seq<char>) -> Seq<(Seq<char>, Seq<char>, Seq<char>)> {
    exported_story_names(content).map_values(
        |n: Seq<char>| (path, n, component_name_of(path)),
    )
}

/// The views of a sequence of stories.
pub open spec fn story_views(s: Seq<Story>) -> Seq<(Seq<char>, Seq<char>, Seq<char>)> {
    s.map_values(|x: Story| x@)
}

/// Whether `lit` stands in `c` at position `i`.
pub(crate) fn lit_at(c: &Vec<char>, i: usize, lit: &Vec<char>) -> (r: bool)
    ensures
        r == occurs_at(c@, i as int, lit@),
{
    if i > c.len() || lit.len() > c.len() - i {
        return false;
    }
    let mut j: usize = 0;
    while j < lit.len()
        invariant
            i + lit@.len() <= c@.len(),
            c@.len() == c.len(),
            lit@.len() == lit.len(),
            j <= lit@.len(),
            forall|k: int| 0 <= k < j ==> c@[i + k] == lit@[k],
        decreases lit@.len() - j,
    {
        if c[i + j] != lit[j] {
            assert(c@.subrange(i as int, i + lit@.len())[j as int] != lit@[j as int]);
            return false;
        }
        j = j + 1;
    }
    assert(c@.subrange(i as int, i + lit@.len()) =~= lit@);
    true
}

/// The end of the run of word characters of `c` that starts at `k`.
fn word_run_end(c: &Vec<char>, text: &str, words: &WordClass, k: usize) -> (r: usize)
    requires
        k <= c@.len(),
        c@ == text@,
        words.wf(),
    ensures
        r == k + word_run(c@, k as int),
        r <= c@.len(),
{
    let mut j: usize = k;
    while j < c.len() && words.holds_at(text, j)
        invariant
            k <= j <= c@.len(),
            c@ == text@,
            words.wf(),
            word_run(c@, k as int) == (j - k) + word_run(c@, j as int),
        decreases c@.len() - j,
    {
        j = j + 1;
    }
    j
}

/// Where the identifier of a story export starting at `i` begins and ends.
fn export_span_at(
    c: &Vec<char>,
    text: &str,
    words: &WordClass,
    i: usize,
    prefix: &Vec<char>,
    marker: &Vec<char>,
) -> (r: Option<(usize, usize)>)
    requires
        i <= c@.len(),
        c@ == text@,
        words.wf(),
        prefix@ == export_prefix(),
        marker@ == story_marker(),
    ensures
        match r {
            Some((s, e)) => s <= e <= c@.len() && export_at(c@, i as int) == Some(
                c@.subrange(s as int, e as int),
            ),
            None => export_at(c@, i as int) is None,
        },
{
    if !lit_at(c, i, prefix) {
        return None;
    }
    let n = c.len();
    assert(i + prefix@.len() <= n);
    let s = i + prefix.len();
    let e = word_run_end(c, text, words, s);
    if e > s && lit_at(c, e, marker) {
        Some((s, e))
    } else {
        None
    }
}

/// The stories exported by the file at `path` whose text is `content`: one
/// for each `export const <identifier>: Story`, in order of appearance.
pub fn stories_in_file(path: &str, content: &str, words: &WordClass) -> (r: Vec<Story>)
    requires
        words.wf(),
    ensures
        story_views(r@) == stories_of_file(path@, content@),
{
    let c = chars_of(content);
    let prefix: Vec<char> = vec!['e', 'x', 'p', 'o', 'r', 't', ' ', 'c', 'o', 'n', 's', 't', ' '];
    let marker: Vec<char> = vec![':', ' ', 'S', 't', 'o', 'r', 'y'];
    assert(prefix@ =~= export_prefix());
    assert(marker@ =~= story_marker());
    let mut out: Vec<Story> = Vec::new();
    let mut i: usize = 0;
    let ghost total = exported_story_names(c@);
    while i < c.len()
        invariant
            i <= c@.len(),
            c@ == content@,
            prefix@ == export_prefix(),
            marker@ == story_marker(),
            words.wf(),
            total == exported_story_names(c@),
            total == out@.map_values(|x: Story| x@.1) + exports_from(c@, i as int),
            forall|k: int|
                0 <= k < out@.len() ==> (#[trigger] out@[k])@.0 == path@ && out@[k]@.2
                    == component_name_of(path@),
        decreases c@.len() - i,
    {
        match export_span_at(&c, content, words, i, &prefix, &marker) {
            Some((s, e)) => {
                let name = content.substring_char(s, e);
                let story = Story::new(path, name);
                let ghost before = out@;
                out.push(story);
                assert(out@.map_values(|x: Story| x@.1) =~= before.map_values(|x: Story| x@.1)
                    + seq![name@]);
            },
            None => {},
        }
        i = i + 1;
    }
    assert(out@.map_values(|x: Story| x@.1) =~= out@.map_values(|x: Story| x@.1) + exports_from(
        c@,
        i as int,
    ));
    assert(story_views(out@) =~= stories_of_file(path@, content@));
    out
}

} // verus!
