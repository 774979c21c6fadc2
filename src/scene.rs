use vstd::prelude::*;

verus! {

/// Position `i` holds the nearest hit of `hits`, the first one among equally near hits.
///
/// `hits[j]` is the distance key of the `j`-th primitive's hit, or `None` when the ray
/// missed it; keys order as the distances they stand for.
pub open spec fn is_nearest(hits: Seq<Option<u32>>, i: int) -> bool {
    &&& 0 <= i < hits.len()
    &&& hits[i] is Some
    &&& forall|j: int|
        0 <= j < hits.len() && #[trigger] hits[j] is Some ==> hits[i].unwrap() <= hits[j].unwrap()
    &&& forall|j: int|
        0 <= j < i && #[trigger] hits[j] is Some ==> hits[i].unwrap() < hits[j].unwrap()
}

/// Linear scan for the nearest hit: the index of the smallest key, the first of equal ones,
/// or `None` when every primitive was missed.
pub fn nearest_index(hits: &Vec<Option<u32>>) -> (r: Option<usize>)
    ensures
        r is None <==> forall|j: int| 0 <= j < hits@.len() ==> #[trigger] hits@[j] is None,
        r matches Some(i) ==> is_nearest(hits@, i as int),
{
    let mut best: Option<usize> = None;
    let mut i: usize = 0;
    while i < hits.len()
        invariant
            i <= hits@.len(),
            best is None ==> forall|j: int| 0 <= j < i ==> #[trigger] hits@[j] is None,
            best matches Some(b) ==> is_nearest(hits@.subrange(0, i as int), b as int),
        decreases hits.len() - i,
    {
        let hit = hits[i];
        match hit {
            Some(t) => {
                match best {
                    None => {
                        best = Some(i);
                    },
                    Some(b) => {
                        if t < hits[b].unwrap() {
                            best = Some(i);
                        }
                    },
                }
            },
            None => {},
        }
        proof {
            let s = hits@.subrange(0, i + 1);
            assert(forall|j: int| 0 <= j < i + 1 ==> s[j] == hits@[j]);
        }
        i = i + 1;
    }
    proof {
        assert(hits@.subrange(0, i as int) =~= hits@);
    }
    best
}

} // verus!
