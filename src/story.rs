//! Stories: one named, renderable demonstration of a UI component.
use vstd::prelude::*;
use vstd::string::StrSliceExecFns;
use vstd::string::StringExecFns;

verus! {

/// One exported story of a story-definition file.
pub struct Story {
    pub path: String,
    pub name: String,
    pub component_name: String,
}

impl View for Story {
    /// `(path, name, component_name)`.
    type V = (Seq<char>, Seq<char>, Seq<char>);

    open spec fn view(&self) -> Self::V {
        (self.path@, self.name@, self.component_name@)
    }
}

/// The part of `p` after its last `/` (all of `p` when it has none).
pub open spec fn after_last_slash(p: Seq<char>) -> Seq<char>
    decreases p.len(),
{
    if p.len() == 0 {
        p
    } else if p.last() == '/' {
        Seq::empty()
    } else {
        after_last_slash(p.drop_last()).push(p.last())
    }
}

/// The part of `p` before its first `.` (all of `p` when it has none).
pub open spec fn before_first_dot(p: Seq<char>) -> Seq<char>
    decreases p.len(),
{
    if p.len() == 0 {
        p
    } else if p[0] == '.' {
        Seq::empty()
    } else {
        seq![p[0]] + before_first_dot(p.drop_first())
    }
}

/// The component name of a story file: its base name up to the first `.`.
pub open spec fn component_name_of(path: Seq<char>) -> Seq<char> {
    before_first_dot(after_last_slash(path))
}

/// `"<path>, <name>"`: how a story is shown, and addressed under a base URL.
pub open spec fn display_of(path: Seq<char>, name: Seq<char>) -> Seq<char> {
    path + seq![',', ' '] + name
}

/// `"<name>.<path>"`: the key under which a story's baseline is kept.
pub open spec fn component_key_of(path: Seq<char>, name: Seq<char>) -> Seq<char> {
    name + seq!['.'] + path
}

/// `"<base_url>/<display>"`: where the preview server renders a story.
pub open spec fn story_url_of(base_url: Seq<char>, path: Seq<char>, name: Seq<char>) -> Seq<char> {
    base_url + seq!['/'] + display_of(path, name)
}

/// Where the base name of `path` starts: just after its last `/`.
fn base_name_start(path: &Vec<char>) -> (r: usize)
    ensures
        r <= path@.len(),
        after_last_slash(path@) == path@.subrange(r as int, path@.len() as int),
{
    let mut i: usize = path.len();
    assert(path@.subrange(0, i as int) =~= path@);
    assert(after_last_slash(path@) + path@.subrange(i as int, i as int) =~= after_last_slash(path@));
    while i > 0 && path[i - 1] != '/'
        invariant
            i <= path@.len(),
            after_last_slash(path@) == after_last_slash(path@.subrange(0, i as int)) + path@.subrange(
                i as int,
                path@.len() as int,
            ),
        decreases i,
    {
        let ghost pre = path@.subrange(0, i as int);
        assert(pre.drop_last() =~= path@.subrange(0, i - 1));
        assert(path@.subrange(i - 1, path@.len() as int) =~= seq![pre.last()] + path@.subrange(
            i as int,
            path@.len() as int,
        ));
        assert(after_last_slash(pre) == after_last_slash(pre.drop_last()).push(pre.last()));
        assert(after_last_slash(pre.drop_last()).push(pre.last()) + path@.subrange(
            i as int,
            path@.len() as int,
        ) =~= after_last_slash(pre.drop_last()) + path@.subrange(i - 1, path@.len() as int));
        i = i - 1;
    }
    let ghost pre = path@.subrange(0, i as int);
    if i > 0 {
        assert(pre.last() == '/');
    }
    assert(after_last_slash(pre) =~= Seq::empty());
    assert(path@.subrange(i as int, path@.len() as int) =~= Seq::<char>::empty() + path@.subrange(
        i as int,
        path@.len() as int,
    ));
    i
}

/// Where the first `.` at or after `from` stands (the length when none does).
fn first_dot_from(path: &Vec<char>, from: usize) -> (r: usize)
    requires
        from <= path@.len(),
    ensures
        from <= r <= path@.len(),
        before_first_dot(path@.subrange(from as int, path@.len() as int)) == path@.subrange(
            from as int,
            r as int,
        ),
{
    let mut i: usize = from;
    let ghost n = path@.len() as int;
    while i < path.len() && path[i] != '.'
        invariant
            from <= i <= n,
            n == path@.len(),
            before_first_dot(path@.subrange(from as int, n)) == path@.subrange(from as int, i as int)
                + before_first_dot(path@.subrange(i as int, n)),
        decreases n - i,
    {
        let ghost rest = path@.subrange(i as int, n);
        assert(rest.drop_first() =~= path@.subrange(i + 1, n));
        assert(path@.subrange(from as int, i as int) + seq![rest[0]] =~= path@.subrange(
            from as int,
            i + 1,
        ));
        assert(path@.subrange(from as int, i as int) + (seq![rest[0]] + before_first_dot(
            rest.drop_first(),
        )) =~= path@.subrange(from as int, i + 1) + before_first_dot(rest.drop_first()));
        i = i + 1;
    }
    let ghost rest = path@.subrange(i as int, n);
    assert(before_first_dot(rest) =~= Seq::empty());
    assert(path@.subrange(from as int, i as int) + Seq::<char>::empty() =~= path@.subrange(
        from as int,
        i as int,
    ));
    i
}

/// The component name of the story file at `path`: its base name, up to
/// the first `.`.
pub fn component_name(path: &str) -> (r: String)
    ensures
        r@ == component_name_of(path@),
{
    let chars = crate::text::chars_of(path);
    let start = base_name_start(&chars);
    let end = first_dot_from(&chars, start);
    path.substring_char(start, end).to_owned()
}

impl Story {
    /// A story named `name`, exported by the file at `path`.
    pub fn new(path: &str, name: &str) -> (r: Story)
        ensures
            r@ == (path@, name@, component_name_of(path@)),
    {
        Story { path: path.to_owned(), name: name.to_owned(), component_name: component_name(path) }
    }

    /// `"<path>, <name>"`.
    pub fn display(&self) -> (r: String)
        ensures
            r@ == display_of(self.path@, self.name@),
    {
        proof {
            reveal_strlit(", ");
        }
        let r = self.path.clone().concat(", ").concat(self.name.as_str());
        assert(r@ =~= display_of(self.path@, self.name@));
        r
    }

    /// The baseline key of this story: `"<name>.<path>"`.
    pub fn component_key(&self) -> (r: String)
        ensures
            r@ == component_key_of(self.path@, self.name@),
    {
        proof {
            reveal_strlit(".");
        }
        let r = self.name.clone().concat(".").concat(self.path.as_str());
        assert(r@ =~= component_key_of(self.path@, self.name@));
        r
    }

    /// The address of this story on a preview server serving at `base_url`.
    pub fn url(&self, base_url: &str) -> (r: String)
        ensures
            r@ == story_url_of(base_url@, self.path@, self.name@),
    {
        proof {
            reveal_strlit("/");
        }
        let shown = self.display();
        let r = base_url.to_owned().concat("/").concat(shown.as_str());
        assert(r@ =~= story_url_of(base_url@, self.path@, self.name@));
        r
    }
}

} // verus!
