//! The parts of a location: the name of the file it ends in, and the root
//! and the extension of that name. `/` separates the segments of a
//! location; empty segments and `.` segments name nothing.

use vstd::prelude::*;
use crate::text::chars_of;

verus! {

/// `path` without what names nothing at its end: separators, and `.`
/// segments behind a separator.
pub open spec fn trimmed_end(path: Seq<char>) -> Seq<char>
    decreases path.len(),
{
    if path.len() > 0 && path.last() == '/' {
        trimmed_end(path.drop_last())
    } else if path.len() >= 2 && path.last() == '.' && path[path.len() - 2] == '/' {
        trimmed_end(path.take(path.len() - 2))
    } else {
        path
    }
}

/// What follows the last separator of `path`, or all of `path` where it has
/// no separator.
pub open spec fn last_segment(path: Seq<char>) -> Seq<char>
    decreases path.len(),
{
    if path.len() == 0 || path.last() == '/' {
        Seq::empty()
    } else {
        last_segment(path.drop_last()).push(path.last())
    }
}

/// The name of the file that `path` ends in: its last segment that names
/// anything. There is none where that segment is `..`, or where no segment
/// names anything, as in `/` and `.`.
pub open spec fn file_name_of(path: Seq<char>) -> Option<Seq<char>> {
    let name = last_segment(trimmed_end(path));
    if name.len() == 0 || name == seq!['.'] || name == seq!['.', '.'] {
        None
    } else {
        Some(name)
    }
}

/// Position of the last `.` in `name`, or -1 where it has none.
pub open spec fn last_dot(name: Seq<char>) -> int
    decreases name.len(),
{
    if name.len() == 0 {
        -1
    } else if name.last() == '.' {
        name.len() - 1
    } else {
        last_dot(name.drop_last())
    }
}

/// The root of a file name: what stands before its last `.`, or the whole
/// name where that `.` is its first character or it has none.
pub open spec fn stem_of(name: Seq<char>) -> Seq<char> {
    if last_dot(name) > 0 {
        name.take(last_dot(name))
    } else {
        name
    }
}

/// The extension of a file name: what follows its last `.`, unless that
/// `.` is its first character or it has none.
pub open spec fn extension_of(name: Seq<char>) -> Option<Seq<char>> {
    if last_dot(name) > 0 {
        Some(name.skip(last_dot(name) + 1))
    } else {
        None
    }
}

/// The root of the name of the file that `path` ends in.
pub open spec fn file_stem_of(path: Seq<char>) -> Option<Seq<char>> {
    match file_name_of(path) {
        Some(name) => Some(stem_of(name)),
        None => None,
    }
}

/// The extension of the name of the file that `path` ends in.
pub open spec fn file_extension_of(path: Seq<char>) -> Option<Seq<char>> {
    match file_name_of(path) {
        Some(name) => extension_of(name),
        None => None,
    }
}

/// The last `.` of a name lies within the name, and is a `.`.
pub proof fn lemma_last_dot_is_a_dot(name: Seq<char>)
    ensures
        -1 <= last_dot(name) < name.len(),
        last_dot(name) >= 0 ==> name[last_dot(name)] == '.',
    decreases name.len(),
{
    if name.len() > 0 && name.last() != '.' {
        lemma_last_dot_is_a_dot(name.drop_last());
    }
}

/// Root and extension make up the name: a name with an extension is its
/// root, a `.` and the extension; a name without one is its own root.
pub proof fn lemma_name_splits(name: Seq<char>)
    ensures
        match extension_of(name) {
            Some(extension) => name == stem_of(name) + seq!['.'] + extension,
            None => name == stem_of(name),
        },
{
    lemma_last_dot_is_a_dot(name);
    if let Some(extension) = extension_of(name) {
        assert(name =~= stem_of(name) + seq!['.'] + extension);
    }
}

/// A stretch without separator at the end of a path belongs to its last
/// segment.
proof fn lemma_last_segment_extends(path: Seq<char>, start: int, end: int)
    requires
        0 <= start <= end <= path.len(),
        forall|k: int| start <= k < end ==> path[k] != '/',
    ensures
        last_segment(path.take(end)) == last_segment(path.take(start)) + path.subrange(start, end),
    decreases end - start,
{
    if start == end {
        assert(path.subrange(start, end) =~= Seq::<char>::empty());
        assert(last_segment(path.take(start)) + Seq::<char>::empty() =~= last_segment(
            path.take(start),
        ));
    } else {
        lemma_last_segment_extends(path, start, end - 1);
        assert(path.take(end).drop_last() =~= path.take(end - 1));
        assert(path.take(end).last() == path[end - 1]);
        assert(last_segment(path.take(start)) + path.subrange(start, end) =~= (last_segment(
            path.take(start),
        ) + path.subrange(start, end - 1)).push(path[end - 1]));
    }
}

/// The last `.` of a name, found from its end.
proof fn lemma_last_dot_found(name: Seq<char>, at: int)
    requires
        -1 <= at < name.len(),
        at >= 0 ==> name[at] == '.',
        forall|k: int| at < k < name.len() ==> name[k] != '.',
    ensures
        last_dot(name) == at,
    decreases name.len(),
{
    if name.len() > 0 && name.last() != '.' {
        assert(name.drop_last().len() == name.len() - 1);
        lemma_last_dot_found(name.drop_last(), at);
    }
}

/// Where the file name of `path` lies in it: from `start` up to `end`.
/// There is a name exactly where the two differ.
fn name_bounds(chars: &Vec<char>) -> (bounds: (usize, usize))
    ensures
        bounds.0 <= bounds.1 <= chars.len(),
        match file_name_of(chars@) {
            Some(name) => name == chars@.subrange(bounds.0 as int, bounds.1 as int)
                && bounds.0 < bounds.1,
            None => bounds.0 == bounds.1,
        },
{
    let mut end: usize = chars.len();
    assert(chars@.take(end as int) =~= chars@);
    loop
        invariant_except_break
            end <= chars.len(),
            trimmed_end(chars@) == trimmed_end(chars@.take(end as int)),
        ensures
            end <= chars.len(),
            trimmed_end(chars@) == chars@.take(end as int),
        decreases end,
    {
        let ghost head = chars@.take(end as int);
        if end > 0 && chars[end - 1] == '/' {
            assert(head.drop_last() =~= chars@.take(end - 1));
            end = end - 1;
        } else if end >= 2 && chars[end - 1] == '.' && chars[end - 2] == '/' {
            assert(head.take(head.len() - 2) =~= chars@.take(end - 2));
            end = end - 2;
        } else {
            break ;
        }
    }
    let mut start: usize = end;
    while start > 0 && chars[start - 1] != '/'
        invariant
            start <= end <= chars.len(),
            forall|k: int| start <= k < end ==> chars@[k] != '/',
        decreases start,
    {
        start = start - 1;
    }
    proof {
        let head = chars@.take(end as int);
        lemma_last_segment_extends(head, start as int, end as int);
        assert(head.take(end as int) =~= head);
        assert(head.take(start as int).len() == 0 || head.take(start as int).last() == '/');
        assert(last_segment(head.take(start as int)) =~= Seq::<char>::empty());
        assert(head.subrange(start as int, end as int) =~= chars@.subrange(
            start as int,
            end as int,
        ));
        assert(last_segment(head) =~= chars@.subrange(start as int, end as int));
    }
    let len = end - start;
    let names_nothing = len == 0 || (len == 1 && chars[start] == '.') || (len == 2 && chars[start]
        == '.' && chars[start + 1] == '.');
    proof {
        let name = chars@.subrange(start as int, end as int);
        if len == 1 && chars[start as int] == '.' {
            assert(name =~= seq!['.']);
        }
        if len == 2 && chars[start as int] == '.' && chars[start + 1] == '.' {
            assert(name =~= seq!['.', '.']);
        }
        if name == seq!['.'] {
            assert(name[0] == '.');
        }
        if name == seq!['.', '.'] {
            assert(name[0] == '.' && name[1] == '.');
        }
    }
    if names_nothing {
        (start, start)
    } else {
        (start, end)
    }
}

/// Position of the last `.` between `start` and `end`, or `start` where it
/// is the first character there or there is none.
fn dot_position(chars: &Vec<char>, start: usize, end: usize) -> (dot: usize)
    requires
        start <= end <= chars.len(),
    ensures
        start <= dot < end || dot == start,
        dot > start <==> last_dot(chars@.subrange(start as int, end as int)) > 0,
        dot > start ==> dot - start == last_dot(chars@.subrange(start as int, end as int)),
{
    let ghost name = chars@.subrange(start as int, end as int);
    let mut at: usize = end;
    while at > start && chars[at - 1] != '.'
        invariant
            start <= at <= end <= chars.len(),
            name == chars@.subrange(start as int, end as int),
            forall|k: int| at - start <= k < name.len() ==> name[k] != '.',
        decreases at,
    {
        at = at - 1;
    }
    proof {
        lemma_last_dot_found(name, at - start - 1);
    }
    if at > start {
        at - 1
    } else {
        start
    }
}

/// The name of the file that `path` ends in.
pub fn file_name(path: &str) -> (name: Option<String>)
    ensures
        name.deep_view() == file_name_of(path@),
{
    let chars = chars_of(path);
    let (start, end) = name_bounds(&chars);
    if start < end {
        Some(path.substring_char(start, end).to_string())
    } else {
        None
    }
}

/// The root of the name of the file that `path` ends in.
pub fn file_stem(path: &str) -> (stem: Option<String>)
    ensures
        stem.deep_view() == file_stem_of(path@),
{
    let chars = chars_of(path);
    let (start, end) = name_bounds(&chars);
    if start < end {
        let dot = dot_position(&chars, start, end);
        let ghost name = chars@.subrange(start as int, end as int);
        if dot > start {
            assert(name.take(dot - start) =~= path@.subrange(start as int, dot as int));
            Some(path.substring_char(start, dot).to_string())
        } else {
            Some(path.substring_char(start, end).to_string())
        }
    } else {
        None
    }
}

/// The extension of the name of the file that `path` ends in.
pub fn file_extension(path: &str) -> (extension: Option<String>)
    ensures
        extension.deep_view() == file_extension_of(path@),
{
    let chars = chars_of(path);
    let (start, end) = name_bounds(&chars);
    if start < end {
        let dot = dot_position(&chars, start, end);
        let ghost name = chars@.subrange(start as int, end as int);
        if dot > start {
            assert(name.skip(dot - start + 1) =~= path@.subrange(dot + 1, end as int));
            Some(path.substring_char(dot + 1, end).to_string())
        } else {
            None
        }
    } else {
        None
    }
}

} // verus!
