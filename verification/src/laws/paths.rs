//! Paths: what joining, stripping and testing them mean.

use crate::background::config_filename;
use crate::cubemap_loader::get_cache_filename;
use crate::paths::{has_json_extension, join, path_of_entry, strip_directory};
use vstd::prelude::*;

verus! {

/// Whether a name is that of a file in a directory, and so no absolute path.
pub open spec fn is_relative(name: Seq<char>) -> bool {
    name.len() == 0 || name[0] != '/'
}

/// A relative name is found below the directory that it is joined to: the directory comes first,
/// unless it is empty, then exactly one slash that the directory does not have already, then the
/// name. An absolute name is itself.
pub proof fn law_joined_path(base: &str, name: &str, path: String)
    requires
        call_ensures(join, (base, name), path),
    ensures
        !is_relative(name@) ==> path@ == name@,
        is_relative(name@) && base@.len() == 0 ==> path@ == name@,
        is_relative(name@) && base@.len() > 0 && base@.last() == '/' ==> path@ == base@ + name@,
        is_relative(name@) && base@.len() > 0 && base@.last() != '/' ==> path@ == base@ + seq!['/']
            + name@,
{
    assert(base@.push('/') + name@ =~= base@ + seq!['/'] + name@);
}

/// Joining three paths gives the same from either end.
pub proof fn law_joining_is_associative(
    a: &str,
    b: &str,
    c: &str,
    ab: String,
    bc: String,
    left: String,
    right: String,
    ab_text: &str,
    bc_text: &str,
)
    requires
        call_ensures(join, (a, b), ab),
        call_ensures(join, (b, c), bc),
        ab_text@ == ab@,
        bc_text@ == bc@,
        call_ensures(join, (ab_text, c), left),
        call_ensures(join, (a, bc_text), right),
        b@.len() > 0,
    ensures
        left@ == right@,
{
    assert(left@ =~= right@);
}

/// A name has the extension exactly if it is some text followed by a dot and `json`.
pub proof fn law_json_names(name: &str, json: bool, stem: Seq<char>)
    requires
        call_ensures(has_json_extension, (name,), json),
    ensures
        stem.len() > 0 && name@ == stem + seq!['.', 'j', 's', 'o', 'n'] ==> json,
        json ==> name@.len() > 5 && name@ == name@.take(name@.len() - 5) + seq![
            '.',
            'j',
            's',
            'o',
            'n',
        ],
{
    let n = name@.len() as int;
    let extension = seq!['.', 'j', 's', 'o', 'n'];
    if stem.len() > 0 && name@ == stem + extension {
        assert(name@.subrange(n - 5, n) =~= extension);
    }
    if json {
        assert(name@ =~= name@.take(n - 5) + name@.subrange(n - 5, n));
    }
}

/// A directory is taken off exactly the paths that consist of it, a slash and a rest, and the rest
/// is what is left.
pub proof fn law_stripped_path(path: &str, directory: &str, rest: Option<String>, name: Seq<char>)
    requires
        call_ensures(strip_directory, (path, directory), rest),
    ensures
        path@ == directory@ + seq!['/'] + name ==> rest is Some && (rest->0)@ == name,
        rest is Some ==> path@ == directory@ + seq!['/'] + (rest->0)@,
{
    let n = directory@.len() as int;
    if path@ == directory@ + seq!['/'] + name {
        assert(path@.subrange(0, n) =~= directory@);
        assert(path@.subrange(n + 1, path@.len() as int) =~= name);
    }
    if rest is Some {
        assert(path@ =~= path@.subrange(0, n) + seq!['/'] + path@.subrange(
            n + 1,
            path@.len() as int,
        ));
    }
}

/// An entry of a directory is written as the directory, a slash and the name.
pub proof fn law_path_of_an_entry(directory: &str, name: &str, path: String)
    requires
        call_ensures(path_of_entry, (directory, name), path),
    ensures
        path@ == directory@ + seq!['/'] + name@,
{
    assert(directory@.push('/') + name@ =~= directory@ + seq!['/'] + name@);
}

/// The cache and the description of a background lie in its directory, each under its own name.
pub proof fn law_files_of_a_background(path: &str, cache: String, config: String)
    requires
        call_ensures(get_cache_filename, (path,), cache),
        call_ensures(config_filename, (path,), config),
        path@.len() > 0,
        path@.last() != '/',
    ensures
        cache@ == path@ + seq!['/'] + ".raw_rgba8_cubemap.cache"@,
        config@ == path@ + seq!['/'] + "config.json"@,
{
    reveal_strlit(".raw_rgba8_cubemap.cache");
    reveal_strlit("config.json");
    assert(cache@ =~= path@ + seq!['/'] + ".raw_rgba8_cubemap.cache"@);
    assert(config@ =~= path@ + seq!['/'] + "config.json"@);
}

} // verus!
