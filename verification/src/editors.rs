//! The editor hand-off model: a known editor is a display name and an
//! application path. Which of the well-known editors are installed is
//! a filesystem question the caller answers; selecting the present
//! ones from the candidate table is decided here.

use vstd::prelude::*;

verus! {

/// One editor the UI can hand a file to.
#[derive(Debug, Clone)]
pub struct EditorInfo {
    pub name: String,
    pub path: String,
}

/// The candidates paired with the caller's present-flags, keeping
/// each candidate whose flag is set, in order.
pub open spec fn selected_editors(cands: Seq<EditorInfo>, present: Seq<bool>) -> Seq<EditorInfo>
    decreases cands.len(),
{
    if cands.len() == 0 || present.len() == 0 {
        Seq::<EditorInfo>::empty()
    } else {
        (if present[0] {
            seq![cands[0]]
        } else {
            Seq::<EditorInfo>::empty()
        }) + selected_editors(cands.drop_first(), present.drop_first())
    }
}

/// Keeps the candidates whose present-flag is set: the caller probes
/// each candidate's path and hands the flags back.
pub fn available_editors(candidates: &Vec<EditorInfo>, present: &Vec<bool>) -> (r: Vec<
    EditorInfo,
>)
    requires
        candidates@.len() == present@.len(),
    ensures
        r@ == selected_editors(candidates@, present@),
{
    let n = candidates.len();
    let mut out: Vec<EditorInfo> = Vec::new();
    proof {
        assert(candidates@.skip(0) =~= candidates@);
        assert(present@.skip(0) =~= present@);
        assert(out@ + selected_editors(candidates@, present@) =~= selected_editors(
            candidates@,
            present@,
        ));
    }
    let mut i: usize = 0;
    while i < n
        invariant
            n == candidates@.len(),
            n == present@.len(),
            i <= n,
            out@ + selected_editors(candidates@.skip(i as int), present@.skip(i as int))
                == selected_editors(candidates@, present@),
        decreases n - i,
    {
        let ghost before = out@;
        if present[i] {
            let e = EditorInfo {
                name: candidates[i].name.clone(),
                path: candidates[i].path.clone(),
            };
            proof {
                assert(e == candidates@[i as int]);
            }
            out.push(e);
        }
        proof {
            let cs = candidates@.skip(i as int);
            let ps = present@.skip(i as int);
            assert(cs[0] == candidates@[i as int]);
            assert(ps[0] == present@[i as int]);
            assert(cs.drop_first() =~= candidates@.skip(i + 1));
            assert(ps.drop_first() =~= present@.skip(i + 1));
            if present@[i as int] {
                assert(out@ =~= before + seq![candidates@[i as int]]);
                assert(out@ + selected_editors(candidates@.skip(i + 1), present@.skip(i + 1))
                    =~= before + selected_editors(cs, ps));
            } else {
                assert(out@ + selected_editors(candidates@.skip(i + 1), present@.skip(i + 1))
                    =~= before + selected_editors(cs, ps));
            }
        }
        i = i + 1;
    }
    proof {
        assert(candidates@.skip(n as int).len() == 0);
        assert(selected_editors(candidates@.skip(n as int), present@.skip(n as int))
            =~= Seq::<EditorInfo>::empty());
        assert(out@ + Seq::<EditorInfo>::empty() =~= out@);
    }
    out
}

} // verus!
