use vstd::prelude::*;

verus! {

/// `dir` followed by `name` as a path component: a `/` is put between the two
/// unless `dir` already ends with one.
pub open spec fn path_join(dir: Seq<char>, name: Seq<char>) -> Seq<char> {
    if dir.len() > 0 && dir.last() == '/' {
        dir + name
    } else {
        dir + seq!['/'] + name
    }
}

/// Joins `name` under the directory `dir`.
pub fn join_path(dir: &str, name: &str) -> (r: String)
    ensures
        r@ == path_join(dir@, name@),
{
    let mut r = dir.to_owned();
    let n = dir.unicode_len();
    if n > 0 && dir.get_char(n - 1) == '/' {
        r.append(name);
    } else {
        proof {
            reveal_strlit("/");
        }
        r.append("/");
        r.append(name);
    }
    r
}

/// `base/vmctl/<leaf>`, where `base` is the user's data directory or `/tmp`.
pub open spec fn app_data_path(base: Option<Seq<char>>, leaf: Seq<char>) -> Seq<char> {
    let b = match base {
        Some(b) => b,
        None => "/tmp"@,
    };
    path_join(path_join(b, "vmctl"@), leaf)
}

/// Relies on dirs::data_dir: the user's data directory, if the platform has one.
/// It depends on the environment, so nothing is stated of it.
#[verifier::external_body]
pub(crate) fn host_data_dir() -> (r: Option<String>) {
    dirs::data_dir().map(|p| p.to_string_lossy().into_owned())
}

/// `<base>/vmctl/<leaf>`, with `/tmp` for a missing `base`.
pub fn app_data_dir(base: Option<String>, leaf: &str) -> (r: String)
    ensures
        r@ == app_data_path(
            match base {
                Some(b) => Some(b@),
                None => None,
            },
            leaf@,
        ),
{
    let b = match base {
        Some(b) => b,
        None => String::from_str("/tmp"),
    };
    let v = join_path(b.as_str(), "vmctl");
    join_path(v.as_str(), leaf)
}

} // verus!
