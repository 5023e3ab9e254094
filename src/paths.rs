//! Where downloaded and generated files are kept on disk.

use vstd::prelude::*;

verus! {

/// `b` appended to the path `a` as one more component, with `/` between them
/// unless `a` is empty or already ends in one.
pub open spec fn path_join(a: Seq<char>, b: Seq<char>) -> Seq<char> {
    if a.len() == 0 {
        b
    } else if a.last() == '/' {
        a + b
    } else {
        a + seq!['/'] + b
    }
}

/// The directories that keep a crate's files, so that no directory grows
/// large: one, two and three-letter names are grouped by length (the latter by
/// their first letter), longer names by their first two pairs of letters.
pub open spec fn shard(name: Seq<char>) -> Seq<char> {
    if name.len() == 1 {
        path_join(seq!['1'], name)
    } else if name.len() == 2 {
        path_join(seq!['2'], name)
    } else if name.len() == 3 {
        path_join(seq!['3'], name.subrange(0, 1))
    } else {
        path_join(path_join(name.subrange(0, 2), name.subrange(2, 4)), name)
    }
}

/// Appends `b` to the path `a` as one more component.
pub fn join(a: &str, b: &str) -> (r: String)
    ensures
        r@ == path_join(a@, b@),
{
    let n = a.unicode_len();
    if n == 0 {
        String::from_str(b)
    } else if a.get_char(n - 1) == '/' {
        String::from_str(a).concat(b)
    } else {
        proof {
            reveal_strlit("/");
        }
        String::from_str(a).concat("/").concat(b)
    }
}

/// The directory below `assets_dir` that keeps the files of `crate_name`.
pub fn crate_dir(assets_dir: &str, crate_name: &str) -> (r: String)
    requires
        crate_name@.len() >= 1,
        crate_name.is_ascii(),
    ensures
        r@ == path_join(assets_dir@, shard(crate_name@)),
{
    proof {
        reveal_strlit("1");
        reveal_strlit("2");
        reveal_strlit("3");
    }
    let n = crate_name.unicode_len();
    let sharded = if n == 1 {
        join("1", crate_name)
    } else if n == 2 {
        join("2", crate_name)
    } else if n == 3 {
        join("3", crate_name.substring_ascii(0, 1))
    } else {
        let outer = crate_name.substring_ascii(0, 2);
        let inner = crate_name.substring_ascii(2, 4);
        let d = join(outer, inner);
        join(d.as_str(), crate_name)
    };
    join(assets_dir, sharded.as_str())
}

/// The file name of the output of `process` at `version`, of kind `kind`.
pub open spec fn output_file_name(process: Seq<char>, version: Seq<char>, kind: Seq<char>) -> Seq<char> {
    process + seq![crate::keys::KEY_SEP_CHAR] + version + seq!['.'] + kind
}

/// The file below a crate's directory `base_dir` that holds the output of
/// `process` at `version`, of kind `kind`, for `crate_version`.
pub fn download_file_path(
    base_dir: &str,
    crate_version: &str,
    process: &str,
    version: &str,
    kind: &str,
) -> (r: String)
    ensures
        r@ == path_join(path_join(base_dir@, crate_version@), output_file_name(process@, version@, kind@)),
{
    proof {
        reveal_strlit(":");
        reveal_strlit(".");
    }
    let dir = join(base_dir, crate_version);
    let name = String::from_str(process).concat(crate::keys::KEY_SEP).concat(version).concat(".").concat(kind);
    join(dir.as_str(), name.as_str())
}

} // verus!
