//! Which frames of a decoded animation are kept, and how long each is shown.

use vstd::prelude::*;

verus! {

/// What the decoder reports of one frame: its size in pixels and its delay, in milliseconds, as
/// a fraction.
#[derive(Clone, Copy)]
pub struct FrameInfo {
    pub width: u32,
    pub height: u32,
    pub delay_numer: u32,
    pub delay_denom: u32,
}

/// The budgets an animation is decoded under. Delays are in microseconds.
#[derive(Clone, Copy)]
pub struct AnimationLimits {
    /// At most this many frames are read.
    pub max_frames: usize,
    /// The decoded frames (four bytes a pixel) may take this many bytes; the first frame is kept
    /// whatever its size.
    pub max_alloc: u64,
    /// The delay of a frame that gives none, or one that is too short.
    pub default_delay: u64,
    /// Delays shorter than this are replaced by the default.
    pub min_delay: u64,
}

/// The bytes a decoded frame takes.
pub open spec fn frame_bytes(f: FrameInfo) -> int {
    f.width * f.height * 4
}

/// How long a frame is shown, in microseconds: its own delay, unless it has none (a zero
/// denominator) or it is shorter than the minimum, when the default is used.
pub open spec fn frame_delay(f: FrameInfo, lim: AnimationLimits) -> u64 {
    if f.delay_denom == 0 {
        lim.default_delay
    } else {
        let d = ((f.delay_numer as int * 1000) / (f.delay_denom as int)) as u64;
        if d < lim.min_delay {
            lim.default_delay
        } else {
            d
        }
    }
}

/// How many frames are kept when the frames from `i` on are read with `alloc` bytes already
/// taken: reading stops at the frame limit, at a frame the decoder failed on (`None`), and at a
/// frame that would take the total past the budget, unless no frame is kept yet.
pub open spec fn kept_from(frames: Seq<Option<FrameInfo>>, lim: AnimationLimits, i: int, alloc: int) -> int
    decreases frames.len() - i,
{
    if i < 0 || i >= frames.len() || i >= lim.max_frames {
        i
    } else {
        match frames[i] {
            None => i,
            Some(f) => {
                let total = alloc + frame_bytes(f);
                if total > lim.max_alloc && i > 0 {
                    i
                } else {
                    kept_from(frames, lim, i + 1, total)
                }
            },
        }
    }
}

proof fn lemma_kept_bounds(frames: Seq<Option<FrameInfo>>, lim: AnimationLimits, i: int, alloc: int)
    requires
        0 <= i <= frames.len(),
    ensures
        i <= kept_from(frames, lim, i, alloc) <= frames.len(),
    decreases frames.len() - i,
{
    if i < frames.len() && i < lim.max_frames {
        match frames[i] {
            None => {},
            Some(f) => {
                let total = alloc + frame_bytes(f);
                if !(total > lim.max_alloc && i > 0) {
                    lemma_kept_bounds(frames, lim, i + 1, total);
                }
            },
        }
    }
}

/// How many frames of an animation are kept (see [`kept_from`]).
pub open spec fn kept(frames: Seq<Option<FrameInfo>>, lim: AnimationLimits) -> int {
    kept_from(frames, lim, 0, 0)
}

/// The delays of the frames of one animation under both budgets: the delay of each frame kept,
/// in order, or `None` when no frame is kept.
pub fn frame_delays(frames: &Vec<Option<FrameInfo>>, lim: AnimationLimits) -> (r: Option<Vec<u64>>)
    ensures
        r is None <==> kept(frames@, lim) == 0,
        r matches Some(delays) ==> delays@.len() == kept(frames@, lim) && (forall|k: int|
            0 <= k < delays@.len() ==> (#[trigger] frames@[k]) is Some) && forall|k: int|
            0 <= k < delays@.len() ==> #[trigger] delays@[k] == frame_delay(frames@[k]->0, lim),
{
    let mut delays: Vec<u64> = Vec::new();
    let mut alloc: u128 = 0;
    let mut i: usize = 0;
    while i < frames.len() && i < lim.max_frames
        invariant_except_break
            kept_from(frames@, lim, i as int, alloc as int) == kept(frames@, lim),
        invariant
            i <= frames@.len(),
            delays@.len() == i,
            alloc <= lim.max_alloc as int + 0x4_0000_0000_0000_0000,
            i == 0 ==> alloc == 0,
            forall|k: int| 0 <= k < i ==> (#[trigger] frames@[k]) is Some,
            forall|k: int| 0 <= k < i ==> #[trigger] delays@[k] == frame_delay(frames@[k]->0, lim),
        ensures
            kept(frames@, lim) == i,
        decreases frames@.len() - i,
    {
        let f = match frames[i] {
            Some(f) => f,
            None => {
                break;
            },
        };
        let w = f.width as u128;
        let h = f.height as u128;
        assert(w * h <= 0xFFFF_FFFF_FFFF_FFFF) by (nonlinear_arith)
            requires
                w <= 0xFFFF_FFFF,
                h <= 0xFFFF_FFFF,
        ;
        let bytes = w * h * 4;
        let total = alloc + bytes;
        if total > lim.max_alloc as u128 && i > 0 {
            break;
        }
        let delay = if f.delay_denom == 0 {
            lim.default_delay
        } else {
            let d = f.delay_numer as u64 * 1000 / f.delay_denom as u64;
            assert(d == ((f.delay_numer as int * 1000) / (f.delay_denom as int)) as u64);
            if d < lim.min_delay {
                lim.default_delay
            } else {
                d
            }
        };
        assert(frames@[i as int] == Some(f));
        assert(delay == frame_delay(f, lim));
        let ghost before = delays@;
        delays.push(delay);
        proof {
            assert forall|k: int| 0 <= k < i + 1 implies #[trigger] delays@[k] == frame_delay(frames@[k]->0, lim) by {
                if k < i {
                    assert(delays@[k] == before[k]);
                }
            }
        }
        alloc = total;
        i = i + 1;
    }
    if delays.len() == 0 {
        None
    } else {
        Some(delays)
    }
}

/// A decoded frame: the picture (of whatever type the image decoder gives) and what the decoder
/// reports of it.
pub struct DecodedFrame<I> {
    pub image: I,
    pub info: FrameInfo,
}

/// A frame of an animation as it is shown: the picture, and how long it is held before the
/// next one, in microseconds.
pub struct ImageFrame<I> {
    pub image: I,
    pub delay: u64,
}

/// What the decoder reports of each frame (`None` where it failed).
pub open spec fn infos_of<I>(frames: Seq<Option<DecodedFrame<I>>>) -> Seq<Option<FrameInfo>> {
    frames.map_values(
        |f: Option<DecodedFrame<I>>|
            match f {
                Some(d) => Some(d.info),
                None => None,
            },
    )
}

/// The frames of one animation under both budgets (see [`kept`] and [`frame_delay`]): the
/// frames kept, in order, each with its delay; `None` when no frame is kept (the picture is then
/// shown as a still image).
pub fn collect_frames<I>(frames: Vec<Option<DecodedFrame<I>>>, lim: AnimationLimits) -> (r: Option<Vec<ImageFrame<I>>>)
    ensures
        r is None <==> kept(infos_of(frames@), lim) == 0,
        r matches Some(out) ==> out@.len() == kept(infos_of(frames@), lim) && forall|k: int|
            0 <= k < out@.len() ==> frames@[k] is Some && (#[trigger] out@[k]).image == frames@[k]->0.image
                && out@[k].delay == frame_delay(frames@[k]->0.info, lim),
{
    let mut infos: Vec<Option<FrameInfo>> = Vec::new();
    let mut i: usize = 0;
    while i < frames.len()
        invariant
            i <= frames@.len(),
            infos@ == infos_of(frames@).take(i as int),
        decreases frames@.len() - i,
    {
        let info = match &frames[i] {
            Some(d) => Some(d.info),
            None => None,
        };
        infos.push(info);
        proof {
            assert(infos_of(frames@).take(i as int + 1) =~= infos_of(frames@).take(i as int).push(info));
        }
        i = i + 1;
    }
    proof {
        assert(infos_of(frames@).take(frames@.len() as int) =~= infos_of(frames@));
    }
    let delays = match frame_delays(&infos, lim) {
        Some(d) => d,
        None => {
            return None;
        },
    };
    proof {
        lemma_kept_bounds(infos@, lim, 0, 0);
    }
    let ghost all = frames@;
    proof {
        assert forall|k: int| 0 <= k < delays@.len() implies (#[trigger] all[k]) is Some && delays@[k] == frame_delay(
            all[k]->0.info,
            lim,
        ) by {
            assert(infos@[k] is Some);
            assert(infos@[k] == infos_of(all)[k]);
            assert(delays@[k] == frame_delay(infos@[k]->0, lim));
        }
    }
    let mut rest = frames;
    rest.truncate(delays.len());
    let mut out: Vec<ImageFrame<I>> = Vec::new();
    let ghost n = delays@.len();
    while rest.len() > 0
        invariant
            delays@.len() == n,
            n <= all.len(),
            rest@ == all.take(rest@.len() as int),
            rest@.len() + out@.len() == n,
            forall|k: int| 0 <= k < n ==> (#[trigger] all[k]) is Some,
            forall|k: int| 0 <= k < n ==> #[trigger] delays@[k] == frame_delay(all[k]->0.info, lim),
            forall|k: int|
                0 <= k < out@.len() ==> (#[trigger] out@[k]).image == all[rest@.len() + k]->0.image && out@[k].delay
                    == frame_delay(all[rest@.len() + k]->0.info, lim),
        decreases rest@.len(),
    {
        let ghost before = out@;
        let last = rest.len() - 1;
        assert(all[last as int] is Some);
        let item = rest.pop().unwrap();
        match item {
            Some(d) => {
                let delay = delays[last];
                out.insert(0, ImageFrame { image: d.image, delay });
            },
            None => {},
        }
        proof {
            assert(rest@ =~= all.take(rest@.len() as int));
        }
    }
    Some(out)
}

} // verus!
