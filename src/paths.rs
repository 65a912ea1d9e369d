//! Joining path components with the `/` separator.
use vstd::prelude::*;
use vstd::string::*;

verus! {

/// The path `base` followed by the relative component `part`: a `/` is put
/// between them unless `base` is empty or already ends in one.
pub open spec fn path_join(base: Seq<char>, part: Seq<char>) -> Seq<char> {
    if base.len() == 0 || base.last() == '/' {
        base + part
    } else {
        base + seq!['/'] + part
    }
}

/// Appends the relative component `part` to the path `base`.
pub fn join_path(base: &str, part: &str) -> (r: String)
    ensures
        r@ == path_join(base@, part@),
{
    let n = base.unicode_len();
    let joined = String::from_str(base);
    if n == 0 || base.get_char(n - 1) == '/' {
        joined.concat(part)
    } else {
        proof {
            reveal_strlit("/");
        }
        let sep = "/";
        assert(sep@ == seq!['/']);
        joined.concat(sep).concat(part)
    }
}

} // verus!
