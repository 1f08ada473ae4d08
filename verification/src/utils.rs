//! Small utilities.

use vstd::prelude::*;
use vstd::string::StringExecFns;

verus! {

/// What `join_string` builds from `list`: the items in order, with `sep`
/// put in front of an item whenever what was built so far is not empty.
pub open spec fn joined(list: Seq<Seq<char>>, sep: Seq<char>) -> Seq<char>
    decreases list.len(),
{
    if list.len() == 0 {
        Seq::empty()
    } else {
        let before = joined(list.drop_last(), sep);
        if before.len() == 0 {
            list.last()
        } else {
            before + sep + list.last()
        }
    }
}

/// Joins the strings of `list` with `seq` between them. Nothing is put in
/// front of an item while the result is still empty, so leading empty
/// strings leave no separator behind.
pub fn join_string(list: Vec<String>, seq: &str) -> (out: String)
    ensures
        out@ == joined(crate::text::texts(list@), seq@),
{
    let mut out = String::new();
    let mut i: usize = 0;
    while i < list.len()
        invariant
            i <= list.len(),
            out@ == joined(crate::text::texts(list@).take(i as int), seq@),
        decreases list.len() - i,
    {
        proof {
            let all = crate::text::texts(list@);
            assert(all.take(i + 1).drop_last() == all.take(i as int));
            assert(all.take(i + 1).last() == list@[i as int]@);
        }
        if !out.as_str().is_empty() {
            out.append(seq);
        }
        out.append(list[i].as_str());
        i += 1;
    }
    proof {
        let all = crate::text::texts(list@);
        assert(all.take(list.len() as int) == all);
    }
    out
}

} // verus!
