//! Partitioning an ordered argument list into size-bounded batches.
//!
//! The external client is invoked once per batch, so every batch's total
//! argument byte length must stay under the command-line ceiling. Arguments
//! are packed greedily in order; an argument that alone exceeds the ceiling
//! becomes a batch of its own rather than being truncated or rejected.

use vstd::prelude::*;

verus! {

use vstd::utf8::encode_utf8;

/// Byte length of one argument as the command line counts it: the length of
/// its UTF-8 encoding.
pub open spec fn arg_len(s: Seq<char>) -> int {
    encode_utf8(s).len() as int
}

/// Total byte length of a batch's arguments.
pub open spec fn sum_arg_len(batch: Seq<Seq<char>>) -> int
    decreases batch.len(),
{
    if batch.len() == 0 {
        0
    } else {
        sum_arg_len(batch.drop_last()) + arg_len(batch.last())
    }
}

proof fn lemma_sum_arg_len_push(batch: Seq<Seq<char>>, x: Seq<char>)
    ensures
        sum_arg_len(batch.push(x)) == sum_arg_len(batch) + arg_len(x),
{
    assert(batch.push(x).drop_last() =~= batch);
    assert(batch.push(x).last() == x);
}

/// Every argument's byte length fits in a machine word. This holds of any
/// argument an actual process can hold, since a `String`'s byte buffer is
/// addressed by `usize`.
pub open spec fn args_fit(args: Seq<Seq<char>>) -> bool {
    forall|i: int| 0 <= i < args.len() ==> arg_len(#[trigger] args[i]) <= usize::MAX
}

/// Greedily packs `args`, in order, into batches whose total argument byte
/// length stays at or under `limit`.
///
/// Concatenating the batches in order reproduces `args` exactly: nothing is
/// dropped, duplicated, or reordered. A batch exceeds `limit` only when it is
/// a single argument that is itself larger than `limit`. Packing is greedy:
/// each batch boundary is forced, in that moving the next batch's first
/// argument back would overshoot `limit`.
#[verifier::loop_isolation(false)]
pub fn make_batches(args: &Vec<String>, limit: usize) -> (batches: Vec<Vec<String>>)
    requires
        args_fit(args.deep_view()),
    ensures
        batches.deep_view().flatten() == args.deep_view(),
        forall|k: int| 0 <= k < batches.deep_view().len()
            ==> (#[trigger] batches.deep_view()[k]).len() > 0,
        forall|k: int| 0 <= k < batches.deep_view().len()
            ==> sum_arg_len(#[trigger] batches.deep_view()[k]) <= limit
                || batches.deep_view()[k].len() == 1,
        forall|k: int| 0 <= k && k + 1 < batches.deep_view().len()
            ==> sum_arg_len(#[trigger] batches.deep_view()[k])
                + arg_len(batches.deep_view()[k + 1][0]) > limit,
{
    broadcast use vstd::seq::Seq::lemma_flatten_push;

    let ghost all: Seq<Seq<char>> = args.deep_view();
    let mut batches: Vec<Vec<String>> = Vec::new();
    let mut cur: Vec<String> = Vec::new();
    let mut cur_size: usize = 0;
    let mut i: usize = 0;
    while i < args.len()
        invariant
            i <= args.len(),
            cur_size as int == sum_arg_len(cur.deep_view()),
            batches.deep_view().flatten() + cur.deep_view() == all.take(i as int),
            i == 0 ==> cur.len() == 0 && batches.len() == 0,
            i > 0 ==> cur.len() > 0,
            cur.len() > 0 ==> sum_arg_len(cur.deep_view()) <= limit || cur.len() == 1,
            forall|k: int| 0 <= k < batches.deep_view().len()
                ==> (#[trigger] batches.deep_view()[k]).len() > 0,
            forall|k: int| 0 <= k < batches.deep_view().len()
                ==> sum_arg_len(#[trigger] batches.deep_view()[k]) <= limit
                    || batches.deep_view()[k].len() == 1,
            forall|k: int| 0 <= k && k + 1 < batches.deep_view().len()
                ==> sum_arg_len(#[trigger] batches.deep_view()[k])
                    + arg_len(batches.deep_view()[k + 1][0]) > limit,
            batches.len() > 0 && cur.len() > 0
                ==> sum_arg_len(batches.deep_view().last()) + arg_len(cur.deep_view()[0]) > limit,
        decreases args.len() - i,
    {
        let a_len = args[i].as_str().len();
        assert(a_len as int == arg_len(all[i as int]));
        if cur.len() > 0 && (a_len > limit || cur_size > limit - a_len) {
            assert(cur_size + a_len > limit);
            let ghost prev = batches.deep_view();
            let ghost flushed = cur.deep_view();
            batches.push(cur);
            cur = Vec::new();
            cur_size = 0;
            proof {
                assert(batches.deep_view() =~= prev.push(flushed));
                assert(cur.deep_view() =~= Seq::<Seq<char>>::empty());
                assert forall|k: int| 0 <= k && k + 1 < batches.deep_view().len()
                    implies sum_arg_len(#[trigger] batches.deep_view()[k])
                        + arg_len(batches.deep_view()[k + 1][0]) > limit by {
                    if k + 1 < prev.len() {
                        assert(batches.deep_view()[k] == prev[k]);
                        assert(batches.deep_view()[k + 1] == prev[k + 1]);
                    } else {
                        assert(batches.deep_view()[k] == prev.last());
                        assert(batches.deep_view()[k + 1] == flushed);
                    }
                }
            }
        }
        let ghost prev_batches = batches.deep_view();
        let ghost pre_cur = cur.deep_view();
        cur.push(args[i].clone());
        cur_size = cur_size + a_len;
        i = i + 1;
        proof {
            assert(batches.deep_view() == prev_batches);
            assert(cur.deep_view() =~= pre_cur.push(all[i - 1]));
            lemma_sum_arg_len_push(pre_cur, all[i - 1]);
            assert(batches.deep_view().flatten() + cur.deep_view() =~= all.take(i as int));
        }
    }
    if cur.len() > 0 {
        let ghost prev = batches.deep_view();
        let ghost flushed = cur.deep_view();
        batches.push(cur);
        proof {
            assert(batches.deep_view() =~= prev.push(flushed));
            assert forall|k: int| 0 <= k && k + 1 < batches.deep_view().len()
                implies sum_arg_len(#[trigger] batches.deep_view()[k])
                    + arg_len(batches.deep_view()[k + 1][0]) > limit by {
                if k + 1 < prev.len() {
                    assert(batches.deep_view()[k] == prev[k]);
                    assert(batches.deep_view()[k + 1] == prev[k + 1]);
                } else {
                    assert(batches.deep_view()[k] == prev.last());
                    assert(batches.deep_view()[k + 1] == flushed);
                }
            }
        }
    }
    proof {
        assert(all.take(args.len() as int) =~= all);
    }
    batches
}

} // verus!
