//! Paths as text.

use vstd::prelude::*;

verus! {

/// The path `name` taken relative to `base`. One slash stands between the two, unless `base` is
/// empty or ends in a slash; an absolute `name` stands for itself.
pub open spec fn joined(base: Seq<char>, name: Seq<char>) -> Seq<char> {
    if name.len() > 0 && name[0] == '/' {
        name
    } else if base.len() == 0 || base.last() == '/' {
        base + name
    } else {
        base.push('/') + name
    }
}

/// Joins two paths.
pub fn join(base: &str, name: &str) -> (path: String)
    ensures
        path@ == joined(base@, name@),
{
    let name_len: usize = name.unicode_len();
    if name_len > 0 && name.get_char(0) == '/' {
        return name.to_owned();
    }
    let base_len: usize = base.unicode_len();
    let path = base.to_owned();
    if base_len == 0 || base.get_char(base_len - 1) == '/' {
        path.concat(name)
    } else {
        proof {
            reveal_strlit("/");
            assert("/"@ =~= seq!['/']);
            assert(base@ + "/"@ =~= base@.push('/'));
        }
        path.concat("/").concat(name)
    }
}

/// The path of the entry `name` of a directory. The name of an entry is never a path itself.
pub open spec fn entry_path(directory: Seq<char>, name: Seq<char>) -> Seq<char> {
    directory.push('/') + name
}

/// Writes the path of an entry of a directory.
pub fn path_of_entry(directory: &str, name: &str) -> (path: String)
    ensures
        path@ == entry_path(directory@, name@),
{
    proof {
        reveal_strlit("/");
        assert("/"@ =~= seq!['/']);
        assert(directory@ + "/"@ =~= directory@.push('/'));
    }
    directory.to_owned().concat("/").concat(name)
}

/// Whether a file name has the extension `json`: text, a dot, and `json` at the end.
pub open spec fn is_json_name(name: Seq<char>) -> bool {
    name.len() > 5 && name.subrange(name.len() - 5, name.len() as int) == seq![
        '.',
        'j',
        's',
        'o',
        'n',
    ]
}

/// Tests whether a file name has the extension `json`.
pub fn has_json_extension(name: &str) -> (json: bool)
    ensures
        json == is_json_name(name@),
{
    let n: usize = name.unicode_len();
    if n <= 5 {
        return false;
    }
    let json = name.get_char(n - 5) == '.' && name.get_char(n - 4) == 'j' && name.get_char(n - 3)
        == 's' && name.get_char(n - 2) == 'o' && name.get_char(n - 1) == 'n';
    proof {
        let tail = name@.subrange(n - 5, n as int);
        assert(tail[0] == name@[n - 5] && tail[1] == name@[n - 4] && tail[2] == name@[n - 3]
            && tail[3] == name@[n - 2] && tail[4] == name@[n - 1]);
        if json {
            assert(tail =~= seq!['.', 'j', 's', 'o', 'n']);
        }
    }
    json
}

/// The rest of a path below a directory; none for a path that does not lie in it.
pub open spec fn stripped(path: Seq<char>, directory: Seq<char>) -> Option<Seq<char>> {
    let n = directory.len() as int;
    if path.len() > n && path.subrange(0, n) == directory && path[n] == '/' {
        Some(path.subrange(n + 1, path.len() as int))
    } else {
        None
    }
}

/// Takes the directory off a path.
pub fn strip_directory(path: &str, directory: &str) -> (rest: Option<String>)
    ensures
        match rest {
            Some(rest) => stripped(path@, directory@) == Some(rest@),
            None => stripped(path@, directory@) is None,
        },
{
    let path_len: usize = path.unicode_len();
    let n: usize = directory.unicode_len();
    if path_len <= n {
        return None;
    }
    let mut i: usize = 0;
    while i < n
        invariant
            i <= n < path_len,
            n == directory@.len(),
            path_len == path@.len(),
            forall|j: int| 0 <= j < i ==> path@[j] == directory@[j],
        decreases n - i,
    {
        if path.get_char(i) != directory.get_char(i) {
            assert(path@.subrange(0, n as int)[i as int] != directory@[i as int]);
            return None;
        }
        i += 1;
    }
    assert(path@.subrange(0, n as int) =~= directory@);
    if path.get_char(n) != '/' {
        return None;
    }
    Some(path.substring_char(n + 1, path_len).to_owned())
}

/// The path of an entry, without its directory, is the name of the entry; and it is the name
/// joined to the directory, unless that is empty or ends in a slash, or the name begins with one.
pub proof fn law_entry_path(directory: Seq<char>, name: Seq<char>)
    ensures
        stripped(entry_path(directory, name), directory) == Some(name),
        directory.len() > 0 && directory.last() != '/' && (name.len() > 0 ==> name[0] != '/')
            ==> entry_path(directory, name) == joined(directory, name),
{
    let path = entry_path(directory, name);
    let n = directory.len() as int;
    assert(path.subrange(0, n) =~= directory);
    assert(path.subrange(n + 1, path.len() as int) =~= name);
}

/// Joining undoes stripping: a name in a directory comes back when the directory is taken off.
pub proof fn law_join_then_strip(directory: Seq<char>, name: Seq<char>)
    requires
        directory.len() > 0,
        directory.last() != '/',
        name.len() > 0 ==> name[0] != '/',
    ensures
        stripped(joined(directory, name), directory) == Some(name),
{
    let path = joined(directory, name);
    let n = directory.len() as int;
    assert(path.subrange(0, n) =~= directory);
    assert(path.subrange(n + 1, path.len() as int) =~= name);
}

} // verus!
