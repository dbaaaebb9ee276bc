//! File-system paths held as text.
//!
//! A path is the character sequence `PathBuf` would hold on a Unix system;
//! joining a relative component follows `Path::join` there.
use vstd::prelude::*;

verus! {

/// `base` joined with the relative component `comp`: a separator is put
/// between them unless `base` is empty or already ends in one.
pub open spec fn join_path(base: Seq<char>, comp: Seq<char>) -> Seq<char> {
    if base.len() == 0 {
        comp
    } else if base.last() == '/' {
        base + comp
    } else {
        base + seq!['/'] + comp
    }
}

/// Joins the relative component `comp` onto `base`.
pub fn join(base: &str, comp: &str) -> (r: String)
    ensures
        r@ == join_path(base@, comp@),
{
    let n = crate::text::chars_of(base);
    let mut r = String::from_str(base);
    if n.len() == 0 {
        return String::from_str(comp);
    }
    if n[n.len() - 1] != '/' {
        crate::text::push_char(&mut r, '/');
    }
    r.append(comp);
    r
}

} // verus!
