//! The animation: a tree, the two generations of its counters, and its timer.

use crate::dictionary::{counter_of, merged, no_counters, Counters, DriverDictionary};
use crate::timer::{period_elapsed, phase_after, TickTimer};
use crate::tree::SwitchNode;
use vstd::prelude::*;

verus! {

/// Why an animation could not be made.
#[derive(Debug, Clone, Copy, PartialEq, Eq, Structural)]
pub enum ConfigError {
    /// The ticks per second are zero or negative, so there is no period.
    NonPositiveRate,
}

/// An animation. A pass reads the current counters and stages those of the
/// next pass in the pending ones, where callers stage theirs too.
#[derive(Debug)]
pub struct Animation {
    name: String,
    root: SwitchNode,
    prev: DriverDictionary,
    next: DriverDictionary,
    timer: TickTimer,
}

impl Animation {
    /// The characters of the animation's name.
    pub closed spec fn name(&self) -> Seq<char> {
        self.name@
    }

    /// The passes per second.
    pub closed spec fn fps(&self) -> i32 {
        self.timer.rate()
    }

    /// The tree that the passes walk.
    pub closed spec fn root(&self) -> SwitchNode {
        self.root
    }

    /// The counters that the last pass read.
    pub closed spec fn current(&self) -> Counters {
        self.prev@
    }

    /// The counters staged for the next pass.
    pub closed spec fn pending(&self) -> Counters {
        self.next@
    }

    /// What the timer has gathered towards the next pass.
    pub closed spec fn phase(&self) -> u64 {
        self.timer.phase()
    }

    /// Whether this animation has the name, rate and tree of `other`.
    pub open spec fn same_setup(&self, other: Animation) -> bool {
        &&& self.name() == other.name()
        &&& self.fps() == other.fps()
        &&& self.root() == other.root()
    }

    /// Whether this animation has the setup and the counters of `other`.
    pub open spec fn same_counters(&self, other: Animation) -> bool {
        &&& self.same_setup(other)
        &&& self.current() == other.current()
        &&& self.pending() == other.pending()
    }

    /// Whether this animation is `before` after one pass: the pending counters
    /// of `before` are written over its current ones, and the pending counters
    /// are exactly what the pass staged while it read the new current ones.
    pub open spec fn is_pass_of(&self, before: Animation) -> bool {
        &&& self.same_setup(before)
        &&& self.current() == merged(before.current(), before.pending())
        &&& self.pending() == before.root().pass_writes(self.current(), no_counters())
    }

    /// The sheet index of the sprite after a pass of this animation, for a
    /// sprite that showed `sprite` before it. A pass that finds no frame leaves
    /// the sprite as it was.
    pub open spec fn shown_by_pass(&self, sprite: usize) -> usize {
        match self.root().frame_at(merged(self.current(), self.pending())) {
            Some(index) => index,
            None => sprite,
        }
    }

    /// An animation of `fps` passes per second over the tree `root`, with no
    /// counters and a timer that has gathered nothing. A rate of zero or less
    /// is refused; the tree is taken as it is.
    pub fn new(name: String, fps: i32, root: SwitchNode) -> (made: Result<Self, ConfigError>)
        ensures
            made is Ok <==> fps > 0,
            made is Err ==> made == Err::<Self, ConfigError>(ConfigError::NonPositiveRate),
            made matches Ok(animation) ==> {
                &&& animation.name() == name@
                &&& animation.fps() == fps
                &&& animation.root() == root
                &&& animation.current() == no_counters()
                &&& animation.pending() == no_counters()
                &&& animation.phase() == 0
            },
    {
        match TickTimer::new(fps) {
            Some(timer) => Ok(
                Animation {
                    name,
                    root,
                    prev: DriverDictionary::new(),
                    next: DriverDictionary::new(),
                    timer,
                },
            ),
            None => Err(ConfigError::NonPositiveRate),
        }
    }

    /// Runs one pass and shows the frame it selects on `sprite`, the sheet
    /// index of the drawn sprite.
    pub fn animate(&mut self, sprite: &mut usize)
        ensures
            final(self).is_pass_of(*old(self)),
            final(self).phase() == old(self).phase(),
            *final(sprite) == old(self).shown_by_pass(*old(sprite)),
    {
        self.prev.merge(&self.next);
        self.next.clear();

        if let Some(leaf) = self.root.resolve(&self.prev, &mut self.next) {
            let index = leaf.resolve_frame_index(&self.prev, &mut self.next);
            if index < leaf.frames.len() {
                leaf.frames[index].apply(sprite);
            }
        }
    }

    /// Lets `elapsed_nanos` nanoseconds pass. Where that completes a period of
    /// the timer, one pass runs, however many periods went by; otherwise
    /// neither the counters nor the sprite change.
    pub fn update(&mut self, elapsed_nanos: u64, sprite: &mut usize)
        ensures
            final(self).phase() == phase_after(old(self).phase(), elapsed_nanos, old(self).fps()),
            period_elapsed(old(self).phase(), elapsed_nanos, old(self).fps()) ==> {
                &&& final(self).is_pass_of(*old(self))
                &&& *final(sprite) == old(self).shown_by_pass(*old(sprite))
            },
            !period_elapsed(old(self).phase(), elapsed_nanos, old(self).fps()) ==> {
                &&& final(self).same_counters(*old(self))
                &&& *final(sprite) == *old(sprite)
            },
    {
        if self.timer.tick(elapsed_nanos) {
            self.animate(sprite);
        }
    }

    /// Stages `v` as the counter of `k` for the next pass.
    pub fn set(&mut self, k: String, v: usize)
        ensures
            final(self).pending() == old(self).pending().insert(k@, v),
            final(self).current() == old(self).current(),
            final(self).same_setup(*old(self)),
            final(self).phase() == old(self).phase(),
    {
        self.next.insert(k, v);
    }

    /// The counter staged for `k`, or zero where none is staged; what the last
    /// pass read is not looked at. Nothing changes.
    pub fn get(&mut self, k: String) -> (value: usize)
        ensures
            value == counter_of(old(self).pending(), k@),
            *final(self) == *old(self),
    {
        self.next.get(k)
    }
}

} // verus!
