use crate::strutil::str_eq;
use vstd::prelude::*;

verus! {

/// `s` with every trailing `'/'` removed.
pub open spec fn strip_trailing_slashes(s: Seq<char>) -> Seq<char>
    decreases s.len(),
{
    if s.len() > 0 && s.last() == '/' {
        strip_trailing_slashes(s.drop_last())
    } else {
        s
    }
}

/// The suffix of `s` after its last `'/'`; all of `s` when none occurs.
pub open spec fn last_component(s: Seq<char>) -> Seq<char>
    decreases s.len(),
{
    if s.len() == 0 {
        s
    } else if s.last() == '/' {
        Seq::empty()
    } else {
        last_component(s.drop_last()) + seq![s.last()]
    }
}

/// The index of the last `'.'` in `s`, if any.
pub open spec fn last_dot_index(s: Seq<char>) -> Option<int>
    decreases s.len(),
{
    if s.len() == 0 {
        None
    } else if s.last() == '.' {
        Some(s.len() - 1)
    } else {
        last_dot_index(s.drop_last())
    }
}

/// The file name the inspector derives from a path: the last component
/// once trailing separators are dropped; none when nothing is left, or
/// when that component is the current- or parent-directory name.
pub open spec fn spec_file_name(path: Seq<char>) -> Option<Seq<char>> {
    let c = last_component(strip_trailing_slashes(path));
    if c.len() == 0 || c == seq!['.'] || c == seq!['.', '.'] {
        None
    } else {
        Some(c)
    }
}

/// The extension the inspector derives from a file name: what follows the
/// last `'.'`; none when no `'.'` occurs, or only as the leading character
/// of a hidden file's name.
pub open spec fn spec_extension(name: Seq<char>) -> Option<Seq<char>> {
    match last_dot_index(name) {
        Some(i) => if i == 0 {
            None
        } else {
            Some(name.subrange(i + 1, name.len() as int))
        },
        None => None,
    }
}

/// Derives the file name from a path string.
pub fn file_name_of(path: &str) -> (r: Option<String>)
    ensures
        r.deep_view() == spec_file_name(path@),
{
    let n = path.unicode_len();
    proof {
        assert(path@.subrange(0, n as int) =~= path@);
    }
    let mut end = n;
    while end > 0 && path.get_char(end - 1) == '/'
        invariant
            end <= n,
            n as nat == path@.len(),
            strip_trailing_slashes(path@) == strip_trailing_slashes(
                path@.subrange(0, end as int),
            ),
        decreases end,
    {
        proof {
            let pe = path@.subrange(0, end as int);
            assert(pe.last() == path@[end - 1]);
            assert(pe.drop_last() =~= path@.subrange(0, end as int - 1));
        }
        end = end - 1;
    }
    proof {
        let pe = path@.subrange(0, end as int);
        assert(end > 0 ==> pe.last() == path@[end - 1]);
        assert(strip_trailing_slashes(path@) == pe);
    }
    if end == 0 {
        return None;
    }
    let mut start = end;
    while start > 0 && path.get_char(start - 1) != '/'
        invariant
            start <= end <= n,
            n as nat == path@.len(),
            last_component(path@.subrange(0, end as int)) =~= last_component(
                path@.subrange(0, start as int),
            ) + path@.subrange(start as int, end as int),
        decreases start,
    {
        proof {
            let ps = path@.subrange(0, start as int);
            assert(ps.last() == path@[start - 1]);
            assert(ps.drop_last() =~= path@.subrange(0, start as int - 1));
            assert(path@.subrange(start as int - 1, end as int) =~= seq![
                path@[start as int - 1],
            ] + path@.subrange(start as int, end as int));
        }
        start = start - 1;
    }
    proof {
        if start > 0 {
            let ps = path@.subrange(0, start as int);
            assert(ps.last() == path@[start - 1]);
            assert(last_component(ps) == Seq::<char>::empty());
        } else {
            assert(path@.subrange(0, 0) =~= Seq::<char>::empty());
        }
        assert(last_component(path@.subrange(0, end as int)) =~= path@.subrange(
            start as int,
            end as int,
        ));
    }
    let name = path.substring_char(start, end);
    proof {
        reveal_strlit(".");
        reveal_strlit("..");
        assert("."@ =~= seq!['.']);
        assert(".."@ =~= seq!['.', '.']);
    }
    if str_eq(name, ".") || str_eq(name, "..") {
        None
    } else {
        Some(name.to_owned())
    }
}

/// Derives the extension from a file name.
pub fn extension_of(name: &str) -> (r: Option<String>)
    ensures
        r.deep_view() == spec_extension(name@),
{
    let n = name.unicode_len();
    proof {
        assert(name@.subrange(0, n as int) =~= name@);
    }
    let mut i = n;
    while i > 0 && name.get_char(i - 1) != '.'
        invariant
            i <= n,
            n as nat == name@.len(),
            last_dot_index(name@) == last_dot_index(name@.subrange(0, i as int)),
        decreases i,
    {
        proof {
            let pi = name@.subrange(0, i as int);
            assert(pi.last() == name@[i - 1]);
            assert(pi.drop_last() =~= name@.subrange(0, i as int - 1));
        }
        i = i - 1;
    }
    if i == 0 {
        proof {
            assert(name@.subrange(0, 0) =~= Seq::<char>::empty());
        }
        None
    } else {
        proof {
            let pi = name@.subrange(0, i as int);
            assert(pi.last() == name@[i - 1]);
            assert(last_dot_index(name@) == Some(i as int - 1));
        }
        if i == 1 {
            None
        } else {
            let ext = name.substring_char(i, n);
            Some(ext.to_owned())
        }
    }
}

} // verus!
