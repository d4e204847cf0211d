use vstd::prelude::*;

verus! {

/// The indices `i` of `mask` with `mask[i]` set, in increasing order.
pub open spec fn selected_levels(mask: Seq<bool>) -> Seq<usize>
    decreases mask.len(),
{
    if mask.len() == 0 {
        Seq::empty()
    } else {
        let rest = selected_levels(mask.drop_last());
        if mask.last() {
            rest.push((mask.len() - 1) as usize)
        } else {
            rest
        }
    }
}

/// The selection holds exactly the flagged indices, each once, in increasing order.
pub proof fn lemma_selected_levels(mask: Seq<bool>)
    requires
        mask.len() <= usize::MAX,
    ensures
        forall|k: int|
            0 <= k < selected_levels(mask).len() ==> #[trigger] selected_levels(mask)[k] < mask.len()
                && mask[selected_levels(mask)[k] as int],
        forall|k1: int, k2: int|
            0 <= k1 < k2 < selected_levels(mask).len() ==> #[trigger] selected_levels(mask)[k1]
                < #[trigger] selected_levels(mask)[k2],
        forall|i: int| 0 <= i < mask.len() && #[trigger] mask[i] ==> selected_levels(mask).contains(i as usize),
        selected_levels(mask).len() <= mask.len(),
    decreases mask.len(),
{
    if mask.len() > 0 {
        let init = mask.drop_last();
        lemma_selected_levels(init);
        let rest = selected_levels(init);
        assert forall|i: int| 0 <= i < mask.len() && #[trigger] mask[i] implies selected_levels(mask).contains(i as usize) by {
            if i < mask.len() - 1 {
                assert(init[i] == mask[i]);
                assert(rest.contains(i as usize));
                let k = choose|k: int| 0 <= k < rest.len() && rest[k] == i as usize;
                assert(selected_levels(mask)[k] == i as usize);
            } else {
                assert(selected_levels(mask).last() == i as usize);
            }
        }
    }
}

/// The levels whose flag is set, lowest first.
pub fn select_levels(mask: &[bool]) -> (res: Vec<usize>)
    ensures
        res@ == selected_levels(mask@),
        forall|k: int| 0 <= k < res@.len() ==> #[trigger] res@[k] < mask.len() && mask[res@[k] as int],
        forall|k1: int, k2: int| 0 <= k1 < k2 < res@.len() ==> #[trigger] res@[k1] < #[trigger] res@[k2],
        forall|i: int| 0 <= i < mask.len() && #[trigger] mask[i] ==> res@.contains(i as usize),
{
    let n = mask.len();
    let mut res: Vec<usize> = Vec::new();
    let mut i: usize = 0;
    while i < n
        invariant
            n == mask@.len(),
            i <= n,
            res@ == selected_levels(mask@.take(i as int)),
        decreases n - i,
    {
        assert(mask@.take(i + 1).drop_last() =~= mask@.take(i as int));
        if mask[i] {
            res.push(i);
        }
        i = i + 1;
    }
    assert(mask@.take(n as int) =~= mask@);
    proof {
        lemma_selected_levels(mask@);
    }
    res
}

/// The levels averaged into a mixed-layer parcel: those inside the layer,
/// or the lowest level alone when none is.
pub fn mixed_layer_levels(in_layer: &[bool]) -> (res: Vec<usize>)
    ensures
        selected_levels(in_layer@).len() > 0 ==> res@ == selected_levels(in_layer@),
        selected_levels(in_layer@).len() == 0 ==> res@ == seq![0usize],
        res@.len() > 0,
        in_layer.len() >= 1 ==> forall|k: int| 0 <= k < res@.len() ==> #[trigger] res@[k] < in_layer.len(),
        (exists|i: int| 0 <= i < in_layer.len() && #[trigger] in_layer[i]) ==> {
            &&& forall|k: int| 0 <= k < res@.len() ==> #[trigger] res@[k] < in_layer.len() && in_layer[res@[k] as int]
            &&& forall|k1: int, k2: int| 0 <= k1 < k2 < res@.len() ==> #[trigger] res@[k1] < #[trigger] res@[k2]
            &&& forall|i: int| 0 <= i < in_layer.len() && #[trigger] in_layer[i] ==> res@.contains(i as usize)
        },
        (forall|i: int| 0 <= i < in_layer.len() ==> !#[trigger] in_layer[i]) ==> res@ == seq![0usize],
{
    proof {
        assert(in_layer@.len() == in_layer.len());
        lemma_selected_levels(in_layer@);
    }
    let mut res = select_levels(in_layer);
    if res.len() == 0 {
        proof {
            if exists|i: int| 0 <= i < in_layer.len() && #[trigger] in_layer[i] {
                let i = choose|i: int| 0 <= i < in_layer.len() && #[trigger] in_layer[i];
                assert(res@.contains(i as usize));
            }
        }
        res.push(0);
    } else {
        proof {
            let r0 = res@[0];
            assert(in_layer[r0 as int]);
        }
    }
    res
}

/// The number of leading levels whose flag is set: the levels a search that
/// stops at the first unflagged level visits.
pub fn leading_run_len(flags: &[bool]) -> (n: usize)
    ensures
        n <= flags.len(),
        forall|j: int| 0 <= j < n ==> #[trigger] flags[j],
        n < flags.len() ==> !flags[n as int],
{
    let len = flags.len();
    let mut i: usize = 0;
    while i < len
        invariant
            len == flags.len(),
            i <= len,
            forall|j: int| 0 <= j < i ==> #[trigger] flags[j],
        decreases len - i,
    {
        if !flags[i] {
            return i;
        }
        i = i + 1;
    }
    len
}

} // verus!
