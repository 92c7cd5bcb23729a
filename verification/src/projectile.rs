//! Projectiles: they fly until they leave their bounds, and are then removed.

use crate::bounds::Crossing;
use vstd::prelude::*;

verus! {

/// Picks the projectiles to remove in this frame: `crossings` holds one entry
/// for each projectile that is there, and the result holds the positions of
/// those that are outside their bounds, ascending, each once.
pub fn despawn_outside(crossings: &Vec<Crossing>) -> (gone: Vec<usize>)
    ensures
        forall|j: int, k: int| 0 <= j < k < gone@.len() ==> gone@[j] < gone@[k],
        forall|j: int| 0 <= j < gone@.len() ==> (#[trigger] gone@[j]) < crossings@.len(),
        forall|i: int|
            0 <= i < crossings@.len() ==> (gone@.contains(i as usize) <==> (
            #[trigger] crossings@[i]).is_outside()),
{
    let n = crossings.len();
    let mut gone: Vec<usize> = Vec::new();
    let mut i: usize = 0;
    while i < n
        invariant
            0 <= i <= n,
            n == crossings@.len(),
            forall|j: int, k: int| 0 <= j < k < gone@.len() ==> gone@[j] < gone@[k],
            forall|j: int| 0 <= j < gone@.len() ==> (#[trigger] gone@[j]) < i,
            forall|k: int|
                0 <= k < i ==> (gone@.contains(k as usize) <==> (#[trigger] crossings@[k]).is_outside()),
        decreases n - i,
    {
        let ghost before = gone@;
        if crossings[i].outside() {
            gone.push(i);
            proof {
                assert(gone@[before.len() as int] == i);
                assert forall|k: int| 0 <= k < i + 1 implies (gone@.contains(k as usize) <==> (
                #[trigger] crossings@[k]).is_outside()) by {
                    if k < i {
                        if before.contains(k as usize) {
                            let j = choose|j: int| 0 <= j < before.len() && before[j] == k as usize;
                            assert(gone@[j] == k as usize);
                        }
                        if gone@.contains(k as usize) {
                            let j = choose|j: int| 0 <= j < gone@.len() && gone@[j] == k as usize;
                            assert(before[j] == k as usize);
                        }
                    }
                }
            }
        } else {
            proof {
                assert forall|k: int| 0 <= k < i + 1 implies (gone@.contains(k as usize) <==> (
                #[trigger] crossings@[k]).is_outside()) by {
                    if k == i && gone@.contains(k as usize) {
                        let j = choose|j: int| 0 <= j < gone@.len() && gone@[j] == k as usize;
                        assert(gone@[j] < i);
                    }
                }
            }
        }
        i = i + 1;
    }
    gone
}

/// Whether a projectile is still there at the start of frame `i`, where
/// `frames[k]` says which edges its position is beyond in frame `k`: it is
/// there in its first frame, and later as long as no earlier frame removed it.
pub open spec fn present(frames: Seq<Crossing>, i: int) -> bool
    decreases i,
{
    if i <= 0 {
        true
    } else {
        present(frames, i - 1) && !frames[i - 1].is_outside()
    }
}

/// Whether frame `i` removes the projectile: it is still there and outside.
pub open spec fn removed_at(frames: Seq<Crossing>, i: int) -> bool {
    0 <= i < frames.len() && present(frames, i) && frames[i].is_outside()
}

/// A projectile that is still there at frame `i` was inside its bounds in
/// every frame before.
pub proof fn lemma_present_means_inside_so_far(frames: Seq<Crossing>, i: int)
    requires
        0 <= i <= frames.len(),
    ensures
        present(frames, i) <==> forall|j: int| 0 <= j < i ==> !(#[trigger] frames[j]).is_outside(),
    decreases i,
{
    if i > 0 {
        lemma_present_means_inside_so_far(frames, i - 1);
    }
}

/// A projectile is removed in the first frame in which it is outside its
/// bounds, and in no other: so at most once, and exactly once if it is ever
/// outside.
pub proof fn lemma_removed_once_when_first_outside(frames: Seq<Crossing>, i: int)
    requires
        0 <= i < frames.len(),
    ensures
        removed_at(frames, i) <==> frames[i].is_outside() && forall|j: int|
            0 <= j < i ==> !(#[trigger] frames[j]).is_outside(),
        removed_at(frames, i) ==> forall|k: int| removed_at(frames, k) ==> k == i,
        frames[i].is_outside() ==> exists|k: int| 0 <= k <= i && removed_at(frames, k),
    decreases i,
{
    lemma_present_means_inside_so_far(frames, i);
    if removed_at(frames, i) {
        assert forall|k: int| removed_at(frames, k) implies k == i by {
            lemma_present_means_inside_so_far(frames, k);
        }
    }
    if frames[i].is_outside() {
        if present(frames, i) {
            assert(removed_at(frames, i));
        } else {
            let j = choose|j: int| 0 <= j < i && frames[j].is_outside();
            lemma_removed_once_when_first_outside(frames, j);
        }
    }
}

} // verus!
