//! The selection tree: switches that pick a child, and leaves that pick a frame.

use crate::dictionary::{no_counters, Counters, DriverDictionary};
use crate::driver::ControlDriver;
use vstd::prelude::*;

verus! {

/// One frame of a leaf.
#[derive(Debug)]
pub struct Frame {
    /// The place of the frame's image in the sprite sheet.
    pub index: usize,
    /// Counters that the frame carries. No pass reads or applies them.
    pub drivers: DriverDictionary,
}

/// A leaf of the tree: the frames of one animation and the driver that runs
/// through them.
#[derive(Debug)]
pub struct AnimationNode {
    pub frames: Vec<Frame>,
    pub driver: ControlDriver,
}

/// A child of a switch.
#[derive(Debug)]
pub enum Node {
    Leaf(AnimationNode),
    Branch(SwitchNode),
}

/// An inner node of the tree: its driver picks one of the children.
#[derive(Debug)]
pub struct SwitchNode {
    pub driver: ControlDriver,
    pub nodes: Vec<Node>,
}

impl Frame {
    /// A frame that shows the image at `index` and carries no counters.
    pub fn new(index: usize) -> (frame: Self)
        ensures
            frame.index == index,
            frame.drivers@ == no_counters(),
    {
        Frame { index, drivers: DriverDictionary::new() }
    }

    /// Shows the frame: `sprite`, the sheet index of the drawn sprite, becomes
    /// the frame's index.
    pub fn apply(&self, sprite: &mut usize)
        ensures
            *final(sprite) == self.index,
    {
        *sprite = self.index;
    }
}

impl AnimationNode {
    /// The sheet index of the frame that a pass reading `prev` shows, where the
    /// leaf has frames.
    pub open spec fn frame_at(&self, prev: Counters) -> Option<usize> {
        if self.frames.len() == 0 {
            None
        } else {
            Some(self.frames[self.driver.index_in(prev, self.frames.len()) as int].index)
        }
    }

    /// Selects a frame by the leaf's own driver.
    pub fn resolve_frame_index(
        &self,
        prev: &DriverDictionary,
        next: &mut DriverDictionary,
    ) -> (index: usize)
        ensures
            index == self.driver.index_in(prev@, self.frames.len()),
            final(next)@ == self.driver.advanced(prev@, old(next)@, self.frames.len()),
            self.frames.len() > 0 ==> index < self.frames.len(),
    {
        self.driver.resolve(prev, next, self.frames.len())
    }
}

impl SwitchNode {
    /// The leaf that the descent from this switch ends in when the counters are
    /// read from `prev`: at each switch the child that the switch's driver
    /// selects. There is none where the descent meets a switch without children.
    pub open spec fn leaf_at(&self, prev: Counters) -> Option<AnimationNode>
        decreases self,
    {
        if self.nodes.len() == 0 {
            None
        } else {
            match self.nodes[self.driver.index_in(prev, self.nodes.len()) as int] {
                Node::Leaf(leaf) => Some(leaf),
                Node::Branch(inner) => inner.leaf_at(prev),
            }
        }
    }

    /// What `next` holds after that descent: the writes of the drivers of the
    /// switches on the way, from this one down.
    pub open spec fn staged(&self, prev: Counters, next: Counters) -> Counters
        decreases self,
    {
        let after = self.driver.advanced(prev, next, self.nodes.len());
        if self.nodes.len() == 0 {
            after
        } else {
            match self.nodes[self.driver.index_in(prev, self.nodes.len()) as int] {
                Node::Leaf(_) => after,
                Node::Branch(inner) => inner.staged(prev, after),
            }
        }
    }

    /// Whether every switch from this one down has a child and every leaf
    /// below it a frame.
    pub open spec fn populated(&self) -> bool
        decreases self,
    {
        &&& self.nodes.len() > 0
        &&& forall|i: int|
            0 <= i < self.nodes.len() ==> match #[trigger] self.nodes[i] {
                Node::Leaf(leaf) => leaf.frames.len() > 0,
                Node::Branch(inner) => inner.populated(),
            }
    }

    /// The sheet index of the frame that a pass from this switch shows when the
    /// counters are read from `prev`. There is none where the descent finds no
    /// leaf, or a leaf without frames.
    pub open spec fn frame_at(&self, prev: Counters) -> Option<usize> {
        match self.leaf_at(prev) {
            Some(leaf) => leaf.frame_at(prev),
            None => None,
        }
    }

    /// What `next` holds after a whole pass from this switch: the writes of the
    /// descent, then that of the driver of the leaf it ends in.
    pub open spec fn pass_writes(&self, prev: Counters, next: Counters) -> Counters {
        match self.leaf_at(prev) {
            Some(leaf) => leaf.driver.advanced(prev, self.staged(prev, next), leaf.frames.len()),
            None => self.staged(prev, next),
        }
    }

    /// Descends from this switch to a leaf. Every driver on the way reads
    /// `prev` and writes to `next`; the driver of the leaf is not resolved.
    pub fn resolve<'a>(
        &'a self,
        prev: &DriverDictionary,
        next: &mut DriverDictionary,
    ) -> (leaf: Option<&'a AnimationNode>)
        ensures
            as_value(leaf) == self.leaf_at(prev@),
            final(next)@ == self.staged(prev@, old(next)@),
        decreases self,
    {
        let next_index = self.driver.resolve(prev, next, self.nodes.len());
        if next_index >= self.nodes.len() {
            return None;
        }
        match &self.nodes[next_index] {
            Node::Branch(node) => node.resolve(prev, next),
            Node::Leaf(node) => Some(node),
        }
    }
}

/// Over a populated tree every pass finds a leaf and shows one of its frames,
/// whatever the counters hold.
pub proof fn lemma_populated_shows_a_frame(root: SwitchNode, prev: Counters)
    requires
        root.populated(),
    ensures
        root.leaf_at(prev) matches Some(leaf) && leaf.frames.len() > 0,
        root.frame_at(prev) is Some,
    decreases root,
{
    let chosen = root.driver.index_in(prev, root.nodes.len()) as int;
    match root.nodes[chosen] {
        Node::Leaf(_) => {},
        Node::Branch(inner) => {
            lemma_populated_shows_a_frame(inner, prev);
        },
    }
}

/// The leaf behind an optional reference.
pub open spec fn as_value(leaf: Option<&AnimationNode>) -> Option<AnimationNode> {
    match leaf {
        Some(node) => Some(*node),
        None => None,
    }
}

} // verus!
