//! The queue of sound effects played over the voice output.
//!
//! The samples themselves stay with the audio layer; the queue tracks which effect is playing
//! and how far along it is.

use vstd::prelude::*;

verus! {

/// A sound effect.
#[derive(Clone, Copy, PartialEq, Eq, Structural, Debug)]
pub enum SoundEffect {
    /// Someone joined.
    Join,
    /// Someone left.
    Leave,
}

/// An effect being played and the index of its next sample.
#[derive(Clone, Copy, PartialEq, Eq, Structural, Debug)]
pub struct ActiveEffect {
    pub effect: SoundEffect,
    pub position: usize,
}

/// The effects being played, oldest first.
pub struct EffectQueue {
    pub effects: Vec<ActiveEffect>,
}

impl EffectQueue {
    /// An empty queue.
    pub fn new() -> (r: Self)
        ensures
            r.effects@ == Seq::<ActiveEffect>::empty(),
    {
        EffectQueue { effects: Vec::new() }
    }
}

/// Starts playing `effect` from its first sample, after the effects already playing.
pub fn queue_effect(queue: &mut EffectQueue, effect: SoundEffect)
    ensures
        final(queue).effects@ == old(queue).effects@.push(ActiveEffect { effect, position: 0 }),
{
    queue.effects.push(ActiveEffect { effect, position: 0 });
}

/// Stops every effect.
pub fn clear_effects(queue: &mut EffectQueue)
    ensures
        final(queue).effects@ == Seq::<ActiveEffect>::empty(),
{
    queue.effects.clear();
}

/// Whether any effect is queued.
pub fn is_playing(queue: &EffectQueue) -> (r: bool)
    ensures
        r == (queue.effects@.len() > 0),
{
    queue.effects.len() > 0
}

/// The number of samples of an effect.
pub open spec fn effect_len(effect: SoundEffect, join_len: usize, leave_len: usize) -> usize {
    match effect {
        SoundEffect::Join => join_len,
        SoundEffect::Leave => leave_len,
    }
}

/// One output sample's worth of playback: every effect that still has samples yields the
/// index of its next sample and moves on by one; finished effects leave the queue. Returns the
/// `(effect, sample index)` pairs to mix, in queue order.
pub fn advance_effects(queue: &mut EffectQueue, join_len: usize, leave_len: usize) -> (r: Vec<ActiveEffect>)
    ensures
        r@ == old(queue).effects@.filter(
            |e: ActiveEffect| e.position < effect_len(e.effect, join_len, leave_len),
        ),
        final(queue).effects@ == r@.map_values(
            |e: ActiveEffect| ActiveEffect { effect: e.effect, position: (e.position + 1) as usize },
        ),
{
    let ghost keep = |e: ActiveEffect| e.position < effect_len(e.effect, join_len, leave_len);
    let ghost step = |e: ActiveEffect| ActiveEffect { effect: e.effect, position: (e.position + 1) as usize };
    let mut playing: Vec<ActiveEffect> = Vec::new();
    let mut next: Vec<ActiveEffect> = Vec::new();
    let mut i: usize = 0;
    while i < queue.effects.len()
        invariant
            i <= queue.effects@.len(),
            playing@ == queue.effects@.take(i as int).filter(keep),
            next@ == playing@.map_values(step),
            keep == (|e: ActiveEffect| e.position < effect_len(e.effect, join_len, leave_len)),
            step == (|e: ActiveEffect| ActiveEffect { effect: e.effect, position: (e.position + 1) as usize }),
        decreases queue.effects@.len() - i,
    {
        let e = queue.effects[i];
        let len = match e.effect {
            SoundEffect::Join => join_len,
            SoundEffect::Leave => leave_len,
        };
        proof {
            reveal(Seq::filter);
            assert(queue.effects@.take(i + 1).drop_last() =~= queue.effects@.take(i as int));
        }
        if e.position < len {
            playing.push(e);
            next.push(ActiveEffect { effect: e.effect, position: e.position + 1 });
        }
        assert(next@ =~= playing@.map_values(step));
        i = i + 1;
    }
    assert(queue.effects@.take(i as int) =~= queue.effects@);
    queue.effects = next;
    playing
}

} // verus!
