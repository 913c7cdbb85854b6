//! Story discovery: which files of a source tree define stories, which of
//! them the project ignores, and the stories that the rest export.
use vstd::prelude::*;
use vstd::string::StringExecFns;
use crate::exports::{
    export_at, exported_story_names, exports_from, lit_at, stories_in_file, stories_of_file,
    story_views,
};
use crate::text::chars_of;
use crate::story::{component_name, component_name_of, Story};
use crate::exports::WordClass;

verus! {

/// Whether the regular expression `source` compiles.
pub uninterp spec fn regex_compiles(source: Seq<char>) -> bool;

/// Whether the regular expression `source` matches somewhere in `haystack`.
pub uninterp spec fn regex_is_match(source: Seq<char>, haystack: Seq<char>) -> bool;

#[verifier::external_type_specification]
#[verifier::external_body]
pub struct ExRegex(regex::Regex);

#[verifier::external_type_specification]
#[verifier::external_body]
pub struct ExRegexError(regex::Error);

/// A compiled regular expression, kept with the source it was compiled from.
pub struct CompiledRegex {
    source: String,
    regex: regex::Regex,
}

impl View for CompiledRegex {
    type V = Seq<char>;

    closed spec fn view(&self) -> Seq<char> {
        self.source@
    }
}

/// Relies on `regex::Regex::new`: compiling depends on the source alone
/// (its syntax, and the default size limit).
#[verifier::external_body]
pub(crate) fn compile_regex(source: &str) -> (r: Result<CompiledRegex, regex::Error>)
    ensures
        r is Ok <==> regex_compiles(source@),
        r matches Ok(c) ==> c@ == source@,
{
    match regex::Regex::new(source) {
        Ok(regex) => Ok(CompiledRegex { source: source.to_string(), regex }),
        Err(e) => Err(e),
    }
}

/// Relies on `regex::Regex::is_match`: whether the expression compiled from
/// the source matches somewhere in `haystack`.
#[verifier::external_body]
pub(crate) fn compiled_is_match(re: &CompiledRegex, haystack: &str) -> (r: bool)
    ensures
        r == regex_is_match(re@, haystack@),
{
    re.regex.is_match(haystack)
}

/// `"^<pattern>$"`: an ignore pattern anchored to the whole path.
pub open spec fn anchored(pattern: Seq<char>) -> Seq<char> {
    seq!['^'] + pattern + seq!['$']
}

/// Whether an ignore pattern matches the whole of `path`.
pub open spec fn pattern_ignores(pattern: Seq<char>, path: Seq<char>) -> bool {
    regex_is_match(anchored(pattern), path)
}

/// Whether any of `patterns` matches the whole of `path`.
pub open spec fn ignored_by(patterns: Seq<Seq<char>>, path: Seq<char>) -> bool {
    exists|k: int| 0 <= k < patterns.len() && pattern_ignores(#[trigger] patterns[k], path)
}

/// Whether `s` ends with `suffix`.
pub open spec fn ends_with(s: Seq<char>, suffix: Seq<char>) -> bool {
    suffix.len() <= s.len() && s.subrange(s.len() - suffix.len(), s.len() as int) == suffix
}

/// `".stories.ts"`.
pub open spec fn typed_story_suffix() -> Seq<char> {
    seq!['.', 's', 't', 'o', 'r', 'i', 'e', 's', '.', 't', 's']
}

/// `".stories.tsx"`.
pub open spec fn jsx_story_suffix() -> Seq<char> {
    typed_story_suffix().push('x')
}

/// Whether the file at `path` is a story-definition file, by its suffix.
pub open spec fn is_story_path(path: Seq<char>) -> bool {
    ends_with(path, typed_story_suffix()) || ends_with(path, jsx_story_suffix())
}

/// Whether discovery reads the file at `path`: a story-definition file
/// with a non-empty component name that no ignore pattern matches.
pub open spec fn keeps(path: Seq<char>, patterns: Seq<Seq<char>>) -> bool {
    is_story_path(path) && component_name_of(path).len() > 0 && !ignored_by(patterns, path)
}

/// Whether an ignore pattern is valid: it compiles on its own and anchored.
pub open spec fn pattern_valid(pattern: Seq<char>) -> bool {
    regex_compiles(pattern) && regex_compiles(anchored(pattern))
}

/// The paths of `paths` that discovery reads, in order.
pub open spec fn selected(paths: Seq<Seq<char>>, patterns: Seq<Seq<char>>) -> Seq<Seq<char>>
    decreases paths.len(),
{
    if paths.len() == 0 {
        Seq::empty()
    } else {
        let rest = selected(paths.drop_last(), patterns);
        if keeps(paths.last(), patterns) {
            rest.push(paths.last())
        } else {
            rest
        }
    }
}

/// The stories discovered in a tree of `(path, content)` files, in the
/// order of the files.
pub open spec fn discovered(
    tree: Seq<(Seq<char>, Seq<char>)>,
    patterns: Seq<Seq<char>>,
) -> Seq<(Seq<char>, Seq<char>, Seq<char>)>
    decreases tree.len(),
{
    if tree.len() == 0 {
        Seq::empty()
    } else {
        let rest = discovered(tree.drop_last(), patterns);
        if keeps(tree.last().0, patterns) {
            rest + stories_of_file(tree.last().0, tree.last().1)
        } else {
            rest
        }
    }
}

/// A file of the source tree, with its text.
pub struct SourceFile {
    pub path: String,
    pub content: String,
}

/// The `(path, content)` pairs of a sequence of files.
pub open spec fn tree_view(files: Seq<SourceFile>) -> Seq<(Seq<char>, Seq<char>)> {
    files.map_values(|f: SourceFile| (f.path@, f.content@))
}

/// The views of a sequence of strings.
pub open spec fn string_views(s: Seq<String>) -> Seq<Seq<char>> {
    s.map_values(|p: String| p@)
}

/// Why discovery could not go on.
#[derive(Debug)]
pub enum DiscoveryError {
    /// An ignore pattern is not a valid regular expression.
    InvalidIgnorePattern { pattern: String },
}

/// The ignore patterns of a project, each compiled once.
pub struct IgnoreRules {
    rules: Vec<CompiledRegex>,
    patterns: Vec<String>,
}

impl View for IgnoreRules {
    type V = Seq<Seq<char>>;

    closed spec fn view(&self) -> Seq<Seq<char>> {
        string_views(self.patterns@)
    }
}

impl IgnoreRules {
    /// The compiled rules agree with the patterns they were compiled from.
    pub closed spec fn wf(&self) -> bool {
        &&& self.rules@.len() == self.patterns@.len()
        &&& forall|k: int|
            0 <= k < self.rules@.len() ==> (#[trigger] self.rules@[k])@ == anchored(
                self.patterns@[k]@,
            )
    }

    /// Compiles each pattern anchored to the whole path. Fails, naming the
    /// first pattern that does not compile, if any does not.
    pub fn compile(patterns: &Vec<String>) -> (r: Result<IgnoreRules, DiscoveryError>)
        ensures
            r is Ok <==> (forall|k: int|
                0 <= k < patterns@.len() ==> pattern_valid(#[trigger] patterns@[k]@)),
            r matches Ok(rules) ==> rules.wf() && rules@ == string_views(patterns@),
            r matches Err(DiscoveryError::InvalidIgnorePattern { pattern }) ==> exists|k: int|
                0 <= k < patterns@.len() && #[trigger] patterns@[k]@ == pattern@ && !pattern_valid(
                    pattern@,
                ) && forall|j: int| 0 <= j < k ==> pattern_valid(#[trigger] patterns@[j]@),
    {
        let mut rules: Vec<CompiledRegex> = Vec::new();
        let mut kept: Vec<String> = Vec::new();
        let mut i: usize = 0;
        while i < patterns.len()
            invariant
                i <= patterns@.len(),
                rules@.len() == i,
                kept@ == patterns@.subrange(0, i as int),
                forall|k: int| 0 <= k < i ==> (#[trigger] rules@[k])@ == anchored(patterns@[k]@),
                forall|k: int| 0 <= k < i ==> pattern_valid(#[trigger] patterns@[k]@),
            decreases patterns@.len() - i,
        {
            proof {
                reveal_strlit("^");
                reveal_strlit("$");
            }
            let source = String::from_str("^").concat(patterns[i].as_str()).concat("$");
            assert(source@ =~= anchored(patterns@[i as int]@));
            let alone = compile_regex(patterns[i].as_str());
            if alone.is_err() {
                return Err(DiscoveryError::InvalidIgnorePattern { pattern: patterns[i].clone() });
            }
            match compile_regex(source.as_str()) {
                Ok(c) => {
                    rules.push(c);
                    kept.push(patterns[i].clone());
                },
                Err(_) => {
                    return Err(DiscoveryError::InvalidIgnorePattern { pattern: patterns[i].clone() });
                },
            }
            assert(kept@ =~= patterns@.subrange(0, i + 1));
            i = i + 1;
        }
        let out = IgnoreRules { rules, patterns: kept };
        assert(kept@ =~= patterns@);
        Ok(out)
    }

    /// Whether any of the patterns matches the whole of `path`.
    pub fn is_ignored(&self, path: &str) -> (r: bool)
        requires
            self.wf(),
        ensures
            r == ignored_by(self@, path@),
    {
        let mut i: usize = 0;
        while i < self.rules.len()
            invariant
                self.wf(),
                i <= self.rules@.len(),
                forall|k: int| 0 <= k < i ==> !pattern_ignores(#[trigger] self@[k], path@),
            decreases self.rules@.len() - i,
        {
            if compiled_is_match(&self.rules[i], path) {
                assert(pattern_ignores(self@[i as int], path@));
                return true;
            }
            i = i + 1;
        }
        false
    }
}

/// Whether `c` ends with `suffix`.
fn ends_with_chars(c: &Vec<char>, suffix: &Vec<char>) -> (r: bool)
    ensures
        r == ends_with(c@, suffix@),
{
    if suffix.len() > c.len() {
        return false;
    }
    lit_at(c, c.len() - suffix.len(), suffix)
}

/// Whether the file at `path` is a story-definition file: its name ends
/// with `.stories.ts` or `.stories.tsx`.
pub fn is_story_file(path: &str) -> (r: bool)
    ensures
        r == is_story_path(path@),
{
    let c = chars_of(path);
    let typed: Vec<char> = vec!['.', 's', 't', 'o', 'r', 'i', 'e', 's', '.', 't', 's'];
    let jsx: Vec<char> = vec!['.', 's', 't', 'o', 'r', 'i', 'e', 's', '.', 't', 's', 'x'];
    assert(typed@ =~= typed_story_suffix());
    assert(jsx@ =~= jsx_story_suffix());
    ends_with_chars(&c, &typed) || ends_with_chars(&c, &jsx)
}

/// The paths among `paths` that name story-definition files and that no
/// ignore rule matches, in order.
pub fn select_story_files(paths: &Vec<String>, rules: &IgnoreRules) -> (r: Vec<String>)
    requires
        rules.wf(),
    ensures
        string_views(r@) == selected(string_views(paths@), rules@),
{
    let ghost all = string_views(paths@);
    let mut out: Vec<String> = Vec::new();
    let mut i: usize = 0;
    while i < paths.len()
        invariant
            i <= paths@.len(),
            rules.wf(),
            all == string_views(paths@),
            string_views(out@) == selected(all.subrange(0, i as int), rules@),
        decreases paths@.len() - i,
    {
        let ghost pre = all.subrange(0, i + 1);
        assert(pre.drop_last() =~= all.subrange(0, i as int));
        let p = &paths[i];
        if is_story_file(p.as_str()) && !component_name(p.as_str()).as_str().is_empty()
            && !rules.is_ignored(p.as_str()) {
            let ghost before = out@;
            out.push(p.clone());
            assert(string_views(out@) =~= string_views(before).push(p@));
        }
        i = i + 1;
    }
    assert(all.subrange(0, i as int) =~= all);
    out
}

/// The stories of a source tree: those exported by each story-definition
/// file that no ignore rule matches, file by file, in order. Every story
/// has a non-empty name and component name.
pub fn discover(files: &Vec<SourceFile>, rules: &IgnoreRules, words: &WordClass) -> (r: Vec<Story>)
    requires
        rules.wf(),
        words.wf(),
    ensures
        story_views(r@) == discovered(tree_view(files@), rules@),
        forall|k: int|
            0 <= k < r@.len() ==> (#[trigger] r@[k]).name@.len() > 0
                && r@[k].component_name@.len() > 0,
{
    let ghost tree = tree_view(files@);
    let mut out: Vec<Story> = Vec::new();
    let mut i: usize = 0;
    while i < files.len()
        invariant
            i <= files@.len(),
            rules.wf(),
            words.wf(),
            tree == tree_view(files@),
            story_views(out@) == discovered(tree.subrange(0, i as int), rules@),
        decreases files@.len() - i,
    {
        let ghost pre = tree.subrange(0, i + 1);
        assert(pre.drop_last() =~= tree.subrange(0, i as int));
        let f = &files[i];
        if is_story_file(f.path.as_str()) && !component_name(f.path.as_str()).as_str().is_empty()
            && !rules.is_ignored(f.path.as_str()) {
            let mut found = stories_in_file(f.path.as_str(), f.content.as_str(), words);
            let ghost before = out@;
            let ghost added = found@;
            out.append(&mut found);
            assert(story_views(out@) =~= story_views(before) + story_views(added));
        }
        i = i + 1;
    }
    assert(tree.subrange(0, i as int) =~= tree);
    proof {
        discovered_files_are_kept(tree, rules@);
        assert forall|k: int| 0 <= k < out@.len() implies (#[trigger] out@[k]).name@.len() > 0
            && out@[k].component_name@.len() > 0 by {
            assert(story_views(out@)[k] == out@[k]@);
        }
    }
    out
}

/// Discovery is deterministic: two runs over the same tree and the same
/// ignore patterns find the same set of `(path, name, component_name)`
/// triples (indeed the same sequence).
pub proof fn discovery_is_deterministic(
    tree: Seq<(Seq<char>, Seq<char>)>,
    patterns: Seq<Seq<char>>,
    first: Seq<Story>,
    second: Seq<Story>,
)
    requires
        story_views(first) == discovered(tree, patterns),
        story_views(second) == discovered(tree, patterns),
    ensures
        story_views(first) == story_views(second),
        story_views(first).to_set() == story_views(second).to_set(),
{
}

/// No story that discovery returns comes from a file that an ignore pattern
/// matches, or from a file that is not a story-definition file; each has a
/// non-empty name, and its file's non-empty component name.
pub proof fn discovered_files_are_kept(
    tree: Seq<(Seq<char>, Seq<char>)>,
    patterns: Seq<Seq<char>>,
)
    ensures
        forall|k: int|
            0 <= k < discovered(tree, patterns).len() ==> keeps(
                (#[trigger] discovered(tree, patterns)[k]).0,
                patterns,
            ) && discovered(tree, patterns)[k].1.len() > 0 && discovered(tree, patterns)[k].2
                == component_name_of(discovered(tree, patterns)[k].0),
    decreases tree.len(),
{
    if tree.len() > 0 {
        discovered_files_are_kept(tree.drop_last(), patterns);
        let rest = discovered(tree.drop_last(), patterns);
        if keeps(tree.last().0, patterns) {
            let own = stories_of_file(tree.last().0, tree.last().1);
            assert forall|k: int| 0 <= k < discovered(tree, patterns).len() implies keeps(
                (#[trigger] discovered(tree, patterns)[k]).0,
                patterns,
            ) && discovered(tree, patterns)[k].1.len() > 0 && discovered(tree, patterns)[k].2
                == component_name_of(discovered(tree, patterns)[k].0) by {
                if k >= rest.len() {
                    assert(discovered(tree, patterns)[k] == own[k - rest.len()]);
                    names_are_not_empty(tree.last().1, k - rest.len());
                } else {
                    assert(discovered(tree, patterns)[k] == rest[k]);
                }
            }
        }
    }
}

proof fn names_are_not_empty(content: Seq<char>, j: int)
    requires
        0 <= j < exported_story_names(content).len(),
    ensures
        exported_story_names(content)[j].len() > 0,
{
    exports_not_empty(content, 0, j);
}

proof fn exports_not_empty(c: Seq<char>, i: int, j: int)
    requires
        0 <= j < exports_from(c, i).len(),
    ensures
        exports_from(c, i)[j].len() > 0,
    decreases c.len() - i,
{
    if 0 <= i < c.len() {
        match export_at(c, i) {
            Some(w) => {
                if j > 0 {
                    exports_not_empty(c, i + 1, j - 1);
                }
            },
            None => {
                exports_not_empty(c, i + 1, j);
            },
        }
    }
}

/// An ignore pattern that matches no file of the tree changes nothing.
pub proof fn unmatched_pattern_changes_nothing(
    tree: Seq<(Seq<char>, Seq<char>)>,
    patterns: Seq<Seq<char>>,
    extra: Seq<char>,
)
    requires
        forall|k: int| 0 <= k < tree.len() ==> !pattern_ignores(extra, (#[trigger] tree[k]).0),
    ensures
        discovered(tree, patterns.push(extra)) == discovered(tree, patterns),
    decreases tree.len(),
{
    if tree.len() > 0 {
        let last = tree.last().0;
        assert(!pattern_ignores(extra, tree[tree.len() - 1].0));
        assert forall|k: int| 0 <= k < tree.drop_last().len() implies !pattern_ignores(
            extra,
            (#[trigger] tree.drop_last()[k]).0,
        ) by {
            assert(tree.drop_last()[k] == tree[k]);
        }
        unmatched_pattern_changes_nothing(tree.drop_last(), patterns, extra);
        let more = patterns.push(extra);
        if ignored_by(more, last) {
            let k = choose|k: int| 0 <= k < more.len() && pattern_ignores(#[trigger] more[k], last);
            assert(k < patterns.len());
            assert(more[k] == patterns[k]);
        }
        if ignored_by(patterns, last) {
            let k = choose|k: int|
                0 <= k < patterns.len() && pattern_ignores(#[trigger] patterns[k], last);
            assert(more[k] == patterns[k]);
        }
    }
}

} // verus!
