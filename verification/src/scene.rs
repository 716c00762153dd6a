use vstd::prelude::*;
use crate::bubble::Bubble;
use crate::bubble::MAX_DELTA;
use crate::bubble::MAX_EXTENT;
use crate::bubble::spawned_in;
use crate::bubble::updated_from;

verus! {

/// An ordered, fixed collection of bubbles on a screen of the given size.
/// The scene exclusively owns its bubbles: one is never destroyed, only
/// repositioned by the update rule.
pub struct Scene {
    pub bubbles: Vec<Bubble>,
    pub width: i64,
    pub height: i64,
}

impl Scene {
    /// Positive, bounded screen extents, and every bubble inside the ranges
    /// the update rule handles.
    pub open spec fn wf(self) -> bool {
        &&& 0 < self.width <= MAX_EXTENT
        &&& 0 < self.height <= MAX_EXTENT
        &&& forall|i: int|
            0 <= i < self.bubbles@.len() ==> (#[trigger] self.bubbles@[i]).wf()
    }

    /// A scene of exactly `count` bubbles, each spawned with independently
    /// sampled fields, uniform over the screen and the radius and speed
    /// ranges.
    pub fn new(count: usize, width: i64, height: i64) -> (s: Scene)
        requires
            0 < width <= MAX_EXTENT,
            0 < height <= MAX_EXTENT,
        ensures
            s.wf(),
            s.width == width,
            s.height == height,
            s.bubbles@.len() == count,
            forall|i: int|
                0 <= i < count ==> spawned_in(#[trigger] s.bubbles@[i], width as int, height as int),
    {
        let mut bubbles: Vec<Bubble> = Vec::new();
        for n in 0..count
            invariant
                0 < width <= MAX_EXTENT,
                0 < height <= MAX_EXTENT,
                bubbles@.len() == n,
                forall|i: int| 0 <= i < n ==> (#[trigger] bubbles@[i]).wf(),
                forall|i: int|
                    0 <= i < n ==> spawned_in(#[trigger] bubbles@[i], width as int, height as int),
        {
            bubbles.push(Bubble::spawn_random(width, height));
        }
        Scene { bubbles, width, height }
    }

    /// One frame: update every bubble in list order with the same elapsed
    /// time. Each bubble follows the single-bubble rule; none is added,
    /// removed or reordered.
    pub fn update_all(&mut self, delta_time: i64)
        requires
            old(self).wf(),
            0 <= delta_time <= MAX_DELTA,
        ensures
            final(self).wf(),
            final(self).width == old(self).width,
            final(self).height == old(self).height,
            final(self).bubbles@.len() == old(self).bubbles@.len(),
            forall|i: int|
                0 <= i < old(self).bubbles@.len() ==> updated_from(
                    #[trigger] final(self).bubbles@[i],
                    old(self).bubbles@[i],
                    delta_time as int,
                    old(self).height as int,
                ),
    {
        let n: usize = self.bubbles.len();
        let mut updated: Vec<Bubble> = Vec::new();
        for k in 0..n
            invariant
                *self == *old(self),
                self.wf(),
                n == self.bubbles@.len(),
                0 <= delta_time <= MAX_DELTA,
                updated@.len() == k,
                forall|i: int| 0 <= i < k ==> (#[trigger] updated@[i]).wf(),
                forall|i: int|
                    0 <= i < k ==> updated_from(
                        #[trigger] updated@[i],
                        self.bubbles@[i],
                        delta_time as int,
                        self.height as int,
                    ),
        {
            let mut b: Bubble = self.bubbles[k];
            b.update(delta_time, self.height);
            updated.push(b);
        }
        self.bubbles = updated;
    }

    /// Whether the scene lies inside the ranges the update rule handles;
    /// decides `wf`.
    pub fn is_well_formed(&self) -> (r: bool)
        ensures
            r == self.wf(),
    {
        if !(0 < self.width && self.width <= MAX_EXTENT && 0 < self.height
            && self.height <= MAX_EXTENT) {
            return false;
        }
        let n: usize = self.bubbles.len();
        for k in 0..n
            invariant
                n == self.bubbles@.len(),
                forall|i: int| 0 <= i < k ==> (#[trigger] self.bubbles@[i]).wf(),
        {
            if !self.bubbles[k].is_well_formed() {
                return false;
            }
        }
        true
    }
}

} // verus!
