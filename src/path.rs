//! Expansion of a leading `~/` in a private-key path.
use vstd::prelude::*;
use vstd::string::*;

verus! {

/// `rest` appended to `base` as one more path component: an absolute
/// `rest` replaces `base`, and a separator is put between the two unless
/// `base` is empty or already ends in one.
pub open spec fn join_spec(base: Seq<char>, rest: Seq<char>) -> Seq<char> {
    if rest.len() > 0 && rest[0] == '/' {
        rest
    } else if base.len() == 0 || base.last() == '/' {
        base + rest
    } else {
        base + seq!['/'] + rest
    }
}

/// Whether `path` begins with the two characters `~/`.
pub open spec fn starts_with_home(path: Seq<char>) -> bool {
    path.len() >= 2 && path[0] == '~' && path[1] == '/'
}

/// A path that starts with `~/` is taken relative to the home directory,
/// when one is known; any other path stays as it is.
pub open spec fn expand_spec(path: Seq<char>, home: Option<Seq<char>>) -> Seq<char> {
    if starts_with_home(path) && home is Some {
        join_spec(home->Some_0, path.subrange(2, path.len() as int))
    } else {
        path
    }
}

/// Appends `rest` to the directory `base` as one path component.
pub fn join_path(base: &str, rest: &str) -> (r: String)
    ensures
        r@ == join_spec(base@, rest@),
{
    let rest_len = rest.unicode_len();
    if rest_len > 0 && rest.get_char(0) == '/' {
        return String::from_str(rest);
    }
    let base_len = base.unicode_len();
    let mut joined = String::from_str(base);
    if base_len > 0 && base.get_char(base_len - 1) != '/' {
        joined.append("/");
        proof {
            reveal_strlit("/");
        }
    }
    joined.append(rest);
    joined
}

/// Resolves a private-key path: a leading `~/` is replaced by the home
/// directory `home`; without a home directory the path is kept.
pub fn expand_path(path: &str, home: Option<&str>) -> (r: String)
    ensures
        r@ == expand_spec(path@, match home {
            Some(h) => Some(h@),
            None => None,
        }),
{
    let len = path.unicode_len();
    if len >= 2 && path.get_char(0) == '~' && path.get_char(1) == '/' {
        if let Some(h) = home {
            let rest = path.substring_char(2, len);
            return join_path(h, rest);
        }
    }
    String::from_str(path)
}

} // verus!
