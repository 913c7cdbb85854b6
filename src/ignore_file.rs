//! Reading ignore patterns out of a project's ignore file.
use vstd::prelude::*;
use vstd::string::StrSliceExecFns;
use crate::text::chars_of;

verus! {

/// The pieces of `c` between its `\n` characters, in order (one more than
/// there are `\n`).
pub open spec fn pieces(c: Seq<char>) -> Seq<Seq<char>>
    decreases c.len(),
{
    if c.len() == 0 {
        seq![Seq::empty()]
    } else {
        let p = pieces(c.drop_last());
        if c.last() == '\n' {
            p.push(Seq::empty())
        } else {
            p.update(p.len() - 1, p.last().push(c.last()))
        }
    }
}

/// A line that ended in `\n`, without the `\r` of a `\r\n` ending.
pub open spec fn strip_cr(l: Seq<char>) -> Seq<char> {
    if l.len() > 0 && l.last() == '\r' {
        l.drop_last()
    } else {
        l
    }
}

/// The lines of `c`: every piece that a `\n` ends, without its `\r`, then
/// the rest after the last `\n`.
pub open spec fn lines_of(c: Seq<char>) -> Seq<Seq<char>> {
    let p = pieces(c);
    p.drop_last().map_values(|l: Seq<char>| strip_cr(l)).push(p.last())
}

/// A line that holds a pattern: not empty, and not a `#` comment.
pub open spec fn is_pattern_line(l: Seq<char>) -> bool {
    l.len() > 0 && l[0] != '#'
}

/// The pattern lines among `ls`, in order.
pub open spec fn pattern_lines(ls: Seq<Seq<char>>) -> Seq<Seq<char>>
    decreases ls.len(),
{
    if ls.len() == 0 {
        Seq::empty()
    } else {
        let rest = pattern_lines(ls.drop_last());
        if is_pattern_line(ls.last()) {
            rest.push(ls.last())
        } else {
            rest
        }
    }
}

/// The ignore patterns that the text `c` of an ignore file lists.
pub open spec fn ignore_patterns_of(c: Seq<char>) -> Seq<Seq<char>> {
    pattern_lines(lines_of(c))
}

proof fn pieces_not_empty(c: Seq<char>)
    ensures
        pieces(c).len() >= 1,
    decreases c.len(),
{
    if c.len() > 0 {
        pieces_not_empty(c.drop_last());
    }
}

/// The ignore patterns of an ignore file whose text is `content`: one per
/// line that is neither empty nor a `#` comment, in order.
pub fn ignore_patterns(content: &str) -> (r: Vec<String>)
    ensures
        r@.map_values(|p: String| p@) == ignore_patterns_of(content@),
{
    let c = chars_of(content);
    let ghost done: Seq<Seq<char>> = Seq::empty();
    let mut out: Vec<String> = Vec::new();
    let mut start: usize = 0;
    let mut i: usize = 0;
    assert(c@.subrange(0, 0) =~= Seq::<char>::empty());
    assert(done.push(c@.subrange(0, 0)) =~= seq![Seq::<char>::empty()]);
    while i < c.len()
        invariant
            c@ == content@,
            start <= i <= c@.len(),
            pieces(c@.subrange(0, i as int)) == done.push(c@.subrange(start as int, i as int)),
            out@.map_values(|p: String| p@) == pattern_lines(
                done.map_values(|l: Seq<char>| strip_cr(l)),
            ),
        decreases c@.len() - i,
    {
        let ghost pre = c@.subrange(0, i + 1);
        assert(pre.drop_last() =~= c@.subrange(0, i as int));
        if c[i] == '\n' {
            let end = if i > start && c[i - 1] == '\r' {
                i - 1
            } else {
                i
            };
            let ghost piece = c@.subrange(start as int, i as int);
            assert(strip_cr(piece) =~= c@.subrange(start as int, end as int));
            let ghost before = out@;
            let ghost old_done = done;
            if end > start && c[start] != '#' {
                out.push(content.substring_char(start, end).to_owned());
                assert(out@.map_values(|p: String| p@) =~= before.map_values(|p: String| p@).push(
                    strip_cr(piece),
                ));
            }
            proof {
                done = done.push(piece);
                assert(done.map_values(|l: Seq<char>| strip_cr(l)) =~= old_done.map_values(
                    |l: Seq<char>| strip_cr(l),
                ).push(strip_cr(piece)));
                assert(done.map_values(|l: Seq<char>| strip_cr(l)).drop_last()
                    =~= old_done.map_values(|l: Seq<char>| strip_cr(l)));
                assert(c@.subrange(i + 1, i + 1) =~= Seq::<char>::empty());
            }
            start = i + 1;
        } else {
            proof {
                assert(c@.subrange(start as int, i + 1) =~= c@.subrange(start as int, i as int).push(
                    c@[i as int],
                ));
            }
        }
        i = i + 1;
    }
    assert(c@.subrange(0, i as int) =~= c@);
    let ghost last = c@.subrange(start as int, i as int);
    assert(pieces(c@).drop_last() =~= done);
    assert(lines_of(c@) =~= done.map_values(|l: Seq<char>| strip_cr(l)).push(last));
    assert(lines_of(c@).drop_last() =~= done.map_values(|l: Seq<char>| strip_cr(l)));
    if i > start && c[start] != '#' {
        let ghost before = out@;
        out.push(content.substring_char(start, i).to_owned());
        assert(out@.map_values(|p: String| p@) =~= before.map_values(|p: String| p@).push(last));
    }
    out
}

} // verus!
