use vstd::prelude::*;

verus! {

/// `name` placed under the directory `base`, with one separator between them.
pub open spec fn joined(base: Seq<char>, name: Seq<char>) -> Seq<char> {
    if base.len() == 0 {
        name
    } else if base.last() == '/' {
        base + name
    } else {
        base + "/"@ + name
    }
}

/// Joins a relative entry name onto a directory path.
pub fn join(base: &str, name: &str) -> (r: String)
    ensures
        r@ == joined(base@, name@),
{
    let n = base.unicode_len();
    if n == 0 {
        String::from_str(name)
    } else if base.get_char(n - 1) == '/' {
        let mut r = String::from_str(base);
        r.append(name);
        r
    } else {
        let mut r = String::from_str(base);
        r.append("/");
        r.append(name);
        r
    }
}

} // verus!
