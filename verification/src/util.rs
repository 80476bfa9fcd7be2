//! String helpers: joining with a separator, and expanding a
//! configuration-file path (tilde replacement against a home directory,
//! making a relative path absolute against a working directory).  Reading
//! those two directories from the environment happens outside the library.

use vstd::prelude::*;
use vstd::string::{StrSliceExecFns, StringExecFns};

verus! {

/// `items` joined with `sep` between consecutive elements.
pub open spec fn spec_join(items: Seq<Seq<char>>, sep: Seq<char>) -> Seq<char>
    decreases items.len(),
{
    if items.len() == 0 {
        Seq::empty()
    } else if items.len() == 1 {
        items[0]
    } else {
        items[0] + sep + spec_join(items.drop_first(), sep)
    }
}

/// Appending one element extends the joined text by the separator and that
/// element (by the element alone when the list was empty).
pub proof fn lemma_join_push(items: Seq<Seq<char>>, x: Seq<char>, sep: Seq<char>)
    ensures
        spec_join(items.push(x), sep) == if items.len() == 0 {
            x
        } else {
            spec_join(items, sep) + sep + x
        },
    decreases items.len(),
{
    if items.len() == 0 {
        assert(items.push(x).len() == 1);
        assert(items.push(x)[0] == x);
    } else {
        lemma_join_push(items.drop_first(), x, sep);
        assert(items.push(x).drop_first() =~= items.drop_first().push(x));
        assert(items.push(x)[0] == items[0]);
        assert(spec_join(items.push(x), sep) =~= spec_join(items, sep) + sep + x);
    }
}

/// Joins the strings with `sep` between consecutive elements.
pub fn join_strings(items: &Vec<String>, sep: &str) -> (r: String)
    ensures
        r@ == spec_join(items.deep_view(), sep@),
{
    let mut s = String::new();
    let n = items.len();
    for i in 0..n
        invariant
            n == items@.len(),
            s@ == spec_join(items.deep_view().take(i as int), sep@),
    {
        if i > 0 {
            s.append(sep);
        }
        s.append(items[i].as_str());
        proof {
            assert(items.deep_view()[i as int] == items@[i as int]@);
            assert(items.deep_view().take(i + 1) =~= items.deep_view().take(i as int).push(
                items@[i as int]@,
            ));
            lemma_join_push(items.deep_view().take(i as int), items@[i as int]@, sep@);
            if i == 0 {
                assert(s@ =~= spec_join(items.deep_view().take(i + 1), sep@));
            }
        }
    }
    proof {
        assert(items.deep_view().take(n as int) =~= items.deep_view());
    }
    s
}

/// Whether `path` names the home directory itself or a path inside it: its
/// first component is a bare tilde.
pub open spec fn spec_has_tilde_prefix(path: Seq<char>) -> bool {
    path.len() >= 1 && path[0] == '~' && (path.len() == 1 || path[1] == '/')
}

/// A path is relative when it does not start with the root separator.
pub open spec fn spec_is_relative(path: Seq<char>) -> bool {
    !(path.len() >= 1 && path[0] == '/')
}

/// The expanded configuration-file path: a leading tilde component replaced
/// by `home`, and a still-relative result joined onto `cwd`.
pub open spec fn spec_expand_dir(path: Seq<char>, home: Seq<char>, cwd: Seq<char>) -> Seq<char> {
    let expanded = if spec_has_tilde_prefix(path) {
        home + path.skip(1)
    } else {
        path
    };
    if spec_is_relative(expanded) {
        cwd + "/"@ + expanded
    } else {
        expanded
    }
}

/// Expands `path` as the configuration-file location against the given home
/// and working directories.
pub fn expand_dir(path: &str, home: &str, cwd: &str) -> (r: String)
    ensures
        r@ == spec_expand_dir(path@, home@, cwd@),
{
    let len = path.unicode_len();
    let tilde = if len >= 1 && path.get_char(0) == '~' {
        len == 1 || path.get_char(1) == '/'
    } else {
        false
    };
    let expanded: String = if tilde {
        let mut e = home.to_owned();
        let rest = path.substring_char(1, len);
        e.append(rest);
        proof {
            assert(e@ =~= home@ + path@.skip(1));
        }
        e
    } else {
        path.to_owned()
    };
    let elen = expanded.as_str().unicode_len();
    let relative = !(elen >= 1 && expanded.as_str().get_char(0) == '/');
    if relative {
        let mut r = cwd.to_owned();
        r.append("/");
        r.append(expanded.as_str());
        proof {
            assert(r@ =~= cwd@ + "/"@ + expanded@);
        }
        r
    } else {
        expanded
    }
}

} // verus!
