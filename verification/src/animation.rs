use vstd::prelude::*;

use crate::timer::AnimationTimer;

verus! {

/// The inclusive span of atlas indices that one animation cycles through.
#[derive(Clone, Copy, Debug, PartialEq, Eq, Structural)]
pub struct AnimationIndices {
    pub first: usize,
    pub last: usize,
}

/// A renderable reference into a sprite-sheet atlas: a shared handle to the
/// externally owned layout, and the index of the frame currently shown.
///
/// The layout handle is opaque here — only the index is ever read or written,
/// and the handle is carried through untouched.
#[derive(Clone, Debug)]
pub struct TextureAtlas<L> {
    pub layout: L,
    pub index: usize,
}

/// The components that animate one entity: the frame range, the timer that
/// paces the advance, and the atlas reference whose index is advanced.
#[derive(Clone, Debug)]
pub struct AnimationBundle<L> {
    pub timer: AnimationTimer,
    pub indices: AnimationIndices,
    pub atlas: TextureAtlas<L>,
}

/// The frame index after one pass of the advance rule: an index outside
/// `[first, last]` is reset to `first` with no further advance that pass;
/// otherwise, if the timer completed, the index wraps from `last` to `first`
/// and advances by one anywhere below `last`; otherwise it is unchanged.
pub open spec fn spec_next_index(index: usize, first: usize, last: usize, finished: bool) -> usize {
    if index < first || index > last {
        first
    } else if finished {
        if index == last {
            first
        } else {
            (index + 1) as usize
        }
    } else {
        index
    }
}

/// One per-entity, per-update step: advance the timer by the elapsed time,
/// then advance the atlas index under the entity's frame range. Out-of-range
/// indices are self-correcting — they are clamped back to the first frame
/// rather than rejected.
pub fn animate_sprite<L>(
    delta_ns: u64,
    indices: &AnimationIndices,
    timer: &mut AnimationTimer,
    atlas: &mut TextureAtlas<L>,
)
    ensures
        *final(timer) == (*old(timer)).spec_ticked(delta_ns),
        final(atlas).index == spec_next_index(
            old(atlas).index,
            indices.first,
            indices.last,
            (*old(timer)).spec_ticked(delta_ns).finished_this_tick,
        ),
        final(atlas).layout == old(atlas).layout,
{
    timer.tick(delta_ns);
    if atlas.index > indices.last || atlas.index < indices.first {
        atlas.index = indices.first;
        return;
    }
    if timer.just_finished() {
        atlas.index = if atlas.index == indices.last {
            indices.first
        } else {
            atlas.index + 1
        };
    }
}

/// Reassign an entity's animation: overwrite the frame range and reset the
/// timer's period. The current atlas index and the timer's accumulated time
/// are deliberately left alone; an index now outside the new range is caught
/// and clamped by the next `animate_sprite` pass.
pub fn set_animation(
    indices: &mut AnimationIndices,
    timer: &mut AnimationTimer,
    first: usize,
    last: usize,
    duration_ns: u64,
)
    ensures
        *final(indices) == (AnimationIndices { first, last }),
        *final(timer) == (AnimationTimer {
            duration_ns,
            elapsed_ns: old(timer).elapsed_ns,
            finished_this_tick: old(timer).finished_this_tick,
        }),
{
    indices.first = first;
    indices.last = last;
    timer.set_duration(duration_ns);
}

impl<L> AnimationBundle<L> {
    /// Assemble a ready-to-attach bundle: a repeating timer with the given
    /// period, the frame range `{first, last}`, and an atlas reference showing
    /// frame `first` of the given layout.
    pub fn new(duration_ns: u64, first: usize, last: usize, layout: L) -> (b: AnimationBundle<L>)
        ensures
            b.timer == (AnimationTimer {
                duration_ns,
                elapsed_ns: 0,
                finished_this_tick: false,
            }),
            b.indices == (AnimationIndices { first, last }),
            b.atlas.index == first,
            b.atlas.layout == layout,
    {
        AnimationBundle {
            timer: AnimationTimer::from_nanos(duration_ns),
            indices: AnimationIndices { first, last },
            atlas: TextureAtlas { layout, index: first },
        }
    }
}

/// An index inside the frame range does not move on a pass whose timer did
/// not complete.
pub proof fn lemma_in_range_not_finished_keeps_index(index: usize, first: usize, last: usize)
    requires
        first <= index <= last,
    ensures
        spec_next_index(index, first, last, false) == index,
{
}

/// An index outside the frame range is reset to `first`, and advances no
/// further on that same pass even when the timer completed.
pub proof fn lemma_out_of_range_resets(index: usize, first: usize, last: usize, finished: bool)
    requires
        index < first || index > last,
    ensures
        spec_next_index(index, first, last, finished) == first,
{
}

/// When the timer completes with the index at `last`, the index wraps back to
/// `first`.
pub proof fn lemma_wrap_at_last(first: usize, last: usize)
    requires
        first <= last,
    ensures
        spec_next_index(last, first, last, true) == first,
{
}

/// When the timer completes with the index inside the range and below `last`,
/// the index advances by exactly one.
pub proof fn lemma_advance_below_last(index: usize, first: usize, last: usize)
    requires
        first <= index < last,
    ensures
        spec_next_index(index, first, last, true) == index + 1,
{
}

/// A single-frame range holds its index in place: when the bounds coincide
/// and the index is in range, a completed timer leaves the index unchanged —
/// it wraps to itself.
pub proof fn lemma_single_frame_range(index: usize, first: usize, last: usize)
    requires
        first == last,
        first <= index <= last,
    ensures
        spec_next_index(index, first, last, true) == index,
{
}

} // verus!
