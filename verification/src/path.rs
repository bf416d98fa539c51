//! Paths on the deployment target, as text. Targets are POSIX hosts: the
//! separator is `/`, a path that starts with it is absolute.
use crate::text::{chars_of, concat2, concat3};
use vstd::prelude::*;

verus! {

/// `rel` resolved against `base`: `rel` itself where it is absolute, else
/// `base` followed by `rel`, with one separator between them unless `base` is
/// empty or already ends in one.
pub open spec fn joined(base: Seq<char>, rel: Seq<char>) -> Seq<char> {
    if rel.len() > 0 && rel[0] == '/' {
        rel
    } else if base.len() == 0 || base.last() == '/' {
        base + rel
    } else {
        base + seq!['/'] + rel
    }
}

/// Where the last component of `path` starts: behind its last separator, or
/// at 0 where it has none.
pub open spec fn component_start(path: Seq<char>) -> int
    decreases path.len(),
{
    if path.len() == 0 {
        0
    } else if path.last() == '/' {
        path.len() as int
    } else {
        component_start(path.drop_last())
    }
}

/// The final component of `path`, if it names something: trailing separators
/// and `.` components are passed over, and a path that ends in `..`, the root
/// and the empty path have no name.
pub open spec fn base_name(path: Seq<char>) -> Option<Seq<char>>
    decreases path.len(),
{
    if path.len() == 0 {
        None
    } else if path.last() == '/' {
        base_name(path.drop_last())
    } else {
        let start = component_start(path);
        let name = path.skip(start);
        if 0 <= start < path.len() {
            if name == seq!['.'] {
                if start == 0 {
                    None
                } else {
                    base_name(path.take(start))
                }
            } else if name == seq!['.', '.'] {
                None
            } else {
                Some(name)
            }
        } else {
            None
        }
    }
}

/// The start of the last component lies inside the path, and no separator
/// follows it.
pub proof fn lemma_component_start(path: Seq<char>)
    ensures
        0 <= component_start(path) <= path.len(),
        component_start(path) > 0 ==> path[component_start(path) - 1] == '/',
        forall|i: int| component_start(path) <= i < path.len() ==> path[i] != '/',
    decreases path.len(),
{
    if path.len() > 0 && path.last() != '/' {
        let rest = path.drop_last();
        lemma_component_start(rest);
        assert forall|i: int| component_start(path) <= i < path.len() implies path[i] != '/' by {
            if i < rest.len() {
                assert(rest[i] == path[i]);
            }
        }
    }
}

/// Resolves `rel` against `base`.
pub fn join(base: &str, rel: &str) -> (path: String)
    ensures
        path@ == joined(base@, rel@),
{
    let base_chars = chars_of(base);
    let rel_chars = chars_of(rel);
    if rel_chars.len() > 0 && rel_chars[0] == '/' {
        rel.to_owned()
    } else if base_chars.len() == 0 || base_chars[base_chars.len() - 1] == '/' {
        concat2(base, rel)
    } else {
        proof {
            reveal_strlit("/");
            assert("/"@ =~= seq!['/']);
        }
        concat3(base, "/", rel)
    }
}

/// The final component of `path`, as [`base_name`] defines it.
pub fn file_name(path: &str) -> (name: Option<String>)
    ensures
        match name {
            Some(n) => base_name(path@) == Some(n@),
            None => base_name(path@) is None,
        },
{
    let chars = chars_of(path);
    let mut end: usize = chars.len();
    assert(path@.take(end as int) =~= path@);
    while end > 0
        invariant
            chars@ == path@,
            end <= chars.len(),
            base_name(path@) == base_name(path@.take(end as int)),
        decreases end,
    {
        let ghost prefix = path@.take(end as int);
        if chars[end - 1] == '/' {
            assert(prefix.drop_last() =~= path@.take(end - 1));
            end = end - 1;
        } else {
            let mut start: usize = end;
            assert(prefix.take(start as int) =~= prefix);
            while start > 0 && chars[start - 1] != '/'
                invariant
                    chars@ == path@,
                    start <= end <= chars.len(),
                    prefix == path@.take(end as int),
                    component_start(prefix) == component_start(prefix.take(start as int)),
                decreases start,
            {
                assert(prefix.take(start as int).drop_last() =~= prefix.take(start - 1));
                start = start - 1;
            }
            proof {
                assert(prefix.take(end as int) =~= prefix);
                lemma_component_start(prefix);
                assert(component_start(prefix) == start) by {
                    if start > 0 {
                        assert(prefix.take(start as int).last() == '/');
                    }
                }
                assert(prefix.skip(start as int) =~= path@.subrange(start as int, end as int));
                assert(prefix.take(start as int) =~= path@.take(start as int));
            }
            let len = end - start;
            if len == 1 && chars[start] == '.' {
                assert(prefix.skip(start as int) =~= seq!['.']);
                if start == 0 {
                    return None;
                }
                end = start;
            } else if len == 2 && chars[start] == '.' && chars[start + 1] == '.' {
                assert(prefix.skip(start as int) =~= seq!['.', '.']);
                return None;
            } else {
                proof {
                    let name = prefix.skip(start as int);
                    if name == seq!['.'] {
                        assert(name.len() == 1 && name[0] == '.');
                    }
                    if name == seq!['.', '.'] {
                        assert(name.len() == 2 && name[0] == '.' && name[1] == '.');
                    }
                }
                let name = path.substring_char(start, end);
                return Some(name.to_owned());
            }
        }
    }
    assert(path@.take(0) =~= Seq::<char>::empty());
    None
}

} // verus!
