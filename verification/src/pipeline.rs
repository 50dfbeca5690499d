//! The pure steps between the pipeline's dispatched stages.
//!
//! The pipeline is strictly linear: discover files, map depot paths to
//! workspace paths, normalize those paths against the working directory,
//! classify which are ignored, then act. The only branch is the final one,
//! taken once from the dry-run flag: report the classified paths unchanged,
//! or hand them to the deletion verb.

use vstd::prelude::*;

verus! {

use vstd::string::StrSliceExecFns;

/// `path` made relative to the directory `base`: when `path` starts with
/// `base` followed by a separator, that prefix falls away; any other path
/// passes through unchanged.
pub open spec fn normalized(path: Seq<char>, base: Seq<char>) -> Seq<char> {
    if base.len() > 0 && path.len() > base.len() && path.take(base.len() as int) == base
        && path[base.len() as int] == '/' {
        path.skip(base.len() as int + 1)
    } else {
        path
    }
}

/// Makes one workspace path relative to the directory `base`, so later
/// batched argument lists stay short; see [`normalized`].
#[verifier::loop_isolation(false)]
pub fn normalize_path(path: &str, base: &str) -> (r: String)
    ensures
        r@ == normalized(path@, base@),
{
    let plen = path.unicode_len();
    let blen = base.unicode_len();
    if blen == 0 || plen <= blen {
        return path.to_owned();
    }
    let mut i: usize = 0;
    while i < blen
        invariant
            i <= blen,
            forall|m: int| 0 <= m < i ==> path@[m] == base@[m],
        decreases blen - i,
    {
        if path.get_char(i) != base.get_char(i) {
            proof {
                if path@.take(blen as int) == base@ {
                    assert(path@.take(blen as int)[i as int] == path@[i as int]);
                    assert(false);
                }
            }
            return path.to_owned();
        }
        i = i + 1;
    }
    proof {
        assert(path@.take(blen as int) =~= base@);
    }
    if path.get_char(blen) != '/' {
        return path.to_owned();
    }
    let r = path.substring_char(blen + 1, plen).to_owned();
    proof {
        assert(r@ =~= path@.skip(blen as int + 1));
    }
    r
}

/// Makes every path in the batch relative to `base`, in order; see
/// [`normalized`].
#[verifier::loop_isolation(false)]
pub fn normalize_paths(paths: &Vec<String>, base: &str) -> (r: Vec<String>)
    ensures
        r.deep_view() == paths.deep_view().map_values(|p: Seq<char>| normalized(p, base@)),
{
    let ghost mapped = paths.deep_view().map_values(|p: Seq<char>| normalized(p, base@));
    let mut r: Vec<String> = Vec::new();
    let mut i: usize = 0;
    proof {
        assert(r.deep_view() =~= mapped.take(0));
    }
    while i < paths.len()
        invariant
            i <= paths.len(),
            r.deep_view() == mapped.take(i as int),
        decreases paths.len() - i,
    {
        let ghost prev = r.deep_view();
        let p = normalize_path(paths[i].as_str(), base);
        let ghost p_v = p@;
        r.push(p);
        i = i + 1;
        proof {
            assert(r.deep_view() =~= prev.push(p_v));
            assert(r.deep_view() =~= mapped.take(i as int));
        }
    }
    proof {
        assert(mapped.take(paths.len() as int) =~= mapped);
    }
    r
}

/// Whether the path's last separator-delimited component is the external
/// tool's three-dot wildcard, which it appends to directory paths.
pub open spec fn ends_in_wildcard(path: Seq<char>) -> bool {
    &&& path.len() >= 4
    &&& path[path.len() - 4] == '/'
    &&& path[path.len() - 3] == '.'
    &&& path[path.len() - 2] == '.'
    &&& path[path.len() - 1] == '.'
}

/// `path` without a trailing three-dot wildcard component: the wildcard and
/// its separator fall away, any other path passes through unchanged.
pub open spec fn without_wildcard(path: Seq<char>) -> Seq<char> {
    if ends_in_wildcard(path) {
        path.take(path.len() as int - 4)
    } else {
        path
    }
}

/// Strips the external tool's trailing three-dot wildcard from a directory
/// path; see [`without_wildcard`].
pub fn strip_wildcard(path: &str) -> (r: String)
    ensures
        r@ == without_wildcard(path@),
{
    let n = path.unicode_len();
    if n >= 4 && path.get_char(n - 4) == '/' && path.get_char(n - 3) == '.' && path.get_char(
        n - 2,
    ) == '.' && path.get_char(n - 1) == '.' {
        let r = path.substring_char(0, n - 4).to_owned();
        proof {
            assert(r@ =~= path@.take(path@.len() as int - 4));
        }
        r
    } else {
        path.to_owned()
    }
}

/// What the final stage is to do with the classified paths.
pub enum ActPlan {
    /// Dry run: hand the paths back for reporting, unchanged; invoke
    /// nothing.
    Report(Vec<String>),
    /// Delete: dispatch the paths, batched, to the deletion verb.
    Delete(Vec<String>),
}

/// The one branch of the pipeline, taken once from the dry-run flag: under a
/// dry run the classified paths are reported exactly as they stand and no
/// deletion is invoked; otherwise exactly those paths go to the deletion
/// verb.
pub fn decide_act(dry_run: bool, classified: Vec<String>) -> (plan: ActPlan)
    ensures
        dry_run ==> (plan matches ActPlan::Report(ps) && ps@ == classified@),
        !dry_run ==> (plan matches ActPlan::Delete(ps) && ps@ == classified@),
{
    if dry_run {
        ActPlan::Report(classified)
    } else {
        ActPlan::Delete(classified)
    }
}

} // verus!
