//! The server's side of a screen share: what a muted sharer's packets become, and what each
//! viewer is sent.
//!
//! A viewer that missed a video frame cannot decode the predicted frames after it; it is sent
//! no video until a keyframe comes round. A viewer that just attached starts in the same state.

use vstd::prelude::*;

verus! {

/// The index of the placeholder frame due `elapsed_ms` milliseconds after the share started,
/// the placeholder animation having `frames` frames of `interval_ms` milliseconds each and
/// playing in a loop; `None` when there is no placeholder.
pub fn muted_frame(elapsed_ms: u128, interval_ms: u128, frames: usize) -> (r: Option<usize>)
    requires
        interval_ms > 0,
    ensures
        frames == 0 ==> r is None,
        frames > 0 ==> r == Some(((elapsed_ms / interval_ms) as usize % frames) as usize),
{
    if frames == 0 {
        return None;
    }
    let step = elapsed_ms / interval_ms;
    Some((step as usize) % frames)
}

/// What the share does with a packet that came from the sharer.
#[derive(Clone, Copy, PartialEq, Eq, Structural, Debug)]
pub enum MutedAction {
    /// Forward it to the viewers.
    Forward,
    /// Drop it.
    Drop,
    /// Send the placeholder frame with this index in its place.
    Placeholder(usize),
}

/// Decides what becomes of a packet from the sharer: everything is forwarded while the sharer
/// is not muted; while muted, audio is dropped and video is replaced by the placeholder frame
/// `due` now, unless that frame was the last one sent (or there is none). `last` is the last
/// placeholder frame sent; it is forgotten while the sharer is not muted.
pub fn muted_action(muted: bool, is_audio: bool, due: Option<usize>, last: &mut Option<usize>) -> (r: MutedAction)
    ensures
        !muted ==> r == MutedAction::Forward && *final(last) == None::<usize>,
        muted && is_audio ==> r == MutedAction::Drop && *final(last) == *old(last),
        muted && !is_audio ==> match due {
            None => r == MutedAction::Drop && *final(last) == *old(last),
            Some(f) => if *old(last) == Some(f) {
                r == MutedAction::Drop && *final(last) == *old(last)
            } else {
                r == MutedAction::Placeholder(f) && *final(last) == Some(f)
            },
        },
{
    if !muted {
        *last = None;
        return MutedAction::Forward;
    }
    if is_audio {
        return MutedAction::Drop;
    }
    match due {
        None => MutedAction::Drop,
        Some(f) => {
            let repeat = match *last {
                Some(l) => l == f,
                None => false,
            };
            if repeat {
                MutedAction::Drop
            } else {
                *last = Some(f);
                MutedAction::Placeholder(f)
            }
        },
    }
}

/// A packet of a share, as a viewer's state sees it.
#[derive(Clone, Copy, PartialEq, Eq, Structural, Debug)]
pub enum SharePacket {
    /// A video frame; a keyframe decodes on its own.
    Video { keyframe: bool },
    Audio,
}

/// What the share keeps for one viewer: whether it waits for a keyframe.
#[derive(Clone, Copy, PartialEq, Eq, Structural, Debug)]
pub struct ViewerState {
    pub needs_key: bool,
}

impl ViewerState {
    /// A viewer that just attached: it has no picture to predict from, so it waits for a
    /// keyframe.
    pub fn new() -> (r: Self)
        ensures
            r.needs_key,
    {
        ViewerState { needs_key: true }
    }
}

/// Whether a packet goes to a viewer: not the sharer's own audio back to the sharer, and no
/// predicted video frame to a viewer waiting for a keyframe.
pub open spec fn spec_offered(needs_key: bool, packet: SharePacket, own: bool) -> bool {
    !(own && packet == SharePacket::Audio) && !(needs_key && packet == SharePacket::Video { keyframe: false })
}

/// The viewer's state once a packet was offered and, if it went out, whether it was delivered:
/// a keyframe sent ends the wait; a video frame the viewer's queue could not take starts one.
pub open spec fn spec_viewer_after(needs_key: bool, packet: SharePacket, own: bool, delivered: bool) -> bool {
    if !spec_offered(needs_key, packet, own) {
        needs_key
    } else if packet is Video && !delivered {
        true
    } else if packet is Video {
        false
    } else {
        needs_key
    }
}

/// Offers a packet to a viewer (`own` when the viewer is the sharer itself): whether it is to be
/// sent (see [`spec_offered`]). A keyframe sent to a viewer waiting for one ends the wait.
pub fn offer(viewer: &mut ViewerState, packet: SharePacket, own: bool) -> (send: bool)
    ensures
        send == spec_offered(old(viewer).needs_key, packet, own),
        final(viewer).needs_key == (old(viewer).needs_key && !(send && packet is Video)),
{
    if own && packet == SharePacket::Audio {
        return false;
    }
    match packet {
        SharePacket::Video { keyframe } => {
            if viewer.needs_key {
                if !keyframe {
                    return false;
                }
                viewer.needs_key = false;
            }
            true
        },
        SharePacket::Audio => true,
    }
}

/// Records whether a packet sent to a viewer was taken by its queue: a video frame that was not
/// leaves the viewer waiting for a keyframe.
pub fn delivered(viewer: &mut ViewerState, packet: SharePacket, ok: bool)
    ensures
        final(viewer).needs_key == (old(viewer).needs_key || (!ok && packet is Video)),
{
    let video = match packet {
        SharePacket::Video { .. } => true,
        SharePacket::Audio => false,
    };
    if !ok && video {
        viewer.needs_key = true;
    }
}

/// Whether, fed the packets of `run` (each with whether its delivery succeeded) from the state
/// `needs_key`, a viewer is only ever sent a predicted video frame while it is not waiting for a
/// keyframe.
pub open spec fn never_sent_undecodable(needs_key: bool, run: Seq<(SharePacket, bool)>, own: bool) -> bool
    decreases run.len(),
{
    if run.len() == 0 {
        true
    } else {
        let (packet, ok) = run[0];
        let sent = spec_offered(needs_key, packet, own);
        &&& !(sent && needs_key && packet == SharePacket::Video { keyframe: false })
        &&& never_sent_undecodable(spec_viewer_after(needs_key, packet, own, ok), run.drop_first(), own)
    }
}

/// A viewer that missed a frame, or just attached, is sent no undecodable video: whatever
/// packets come and whichever deliveries fail, no predicted frame goes to a viewer waiting for
/// a keyframe, and the state that [`offer`] and [`delivered`] leave is the one
/// [`spec_viewer_after`] gives.
pub proof fn law_viewer_waits_for_keyframe(needs_key: bool, run: Seq<(SharePacket, bool)>, own: bool)
    ensures
        never_sent_undecodable(needs_key, run, own),
    decreases run.len(),
{
    if run.len() > 0 {
        let (packet, ok) = run[0];
        law_viewer_waits_for_keyframe(spec_viewer_after(needs_key, packet, own, ok), run.drop_first(), own);
    }
}

/// The state `offer` then `delivered` leave is [`spec_viewer_after`].
pub proof fn law_offer_then_delivered(needs_key: bool, packet: SharePacket, own: bool, ok: bool)
    ensures
        ({
            let sent = spec_offered(needs_key, packet, own);
            let after_offer = needs_key && !(sent && packet is Video);
            let after = if sent {
                after_offer || (!ok && packet is Video)
            } else {
                after_offer
            };
            after == spec_viewer_after(needs_key, packet, own, ok)
        }),
{
}

/// Whether the client `client` is still attached to the share by the attachment `token`, given
/// every attached client and the token of its attachment.
pub open spec fn spec_still_attached(entries: Seq<(usize, [u8; 32])>, client: usize, token: [u8; 32]) -> bool {
    exists|i: int| 0 <= i < entries.len() && entries[i].0 == client && entries[i].1@ == token@
}

/// Whether a viewer's task is still wanted (see [`spec_still_attached`]); one that is not is
/// retired.
pub fn still_attached(entries: &Vec<(usize, [u8; 32])>, client: usize, token: &[u8; 32]) -> (r: bool)
    ensures
        r == spec_still_attached(entries@, client, *token),
{
    let mut i: usize = 0;
    while i < entries.len()
        invariant
            i <= entries@.len(),
            forall|j: int| 0 <= j < i ==> !(entries@[j].0 == client && entries@[j].1@ == token@),
        decreases entries@.len() - i,
    {
        let (e, t) = entries[i];
        if e == client && same_token(&t, token) {
            assert(entries@[i as int].0 == client && entries@[i as int].1@ == token@);
            return true;
        }
        i = i + 1;
    }
    false
}

/// Whether two tokens are equal.
fn same_token(a: &[u8; 32], b: &[u8; 32]) -> (r: bool)
    ensures
        r == (a@ == b@),
{
    let mut i: usize = 0;
    while i < 32
        invariant
            i <= 32,
            forall|j: int| 0 <= j < i ==> a@[j] == b@[j],
        decreases 32 - i,
    {
        if a[i] != b[i] {
            assert(a@[i as int] != b@[i as int]);
            return false;
        }
        i = i + 1;
    }
    assert(a@ =~= b@);
    true
}

} // verus!
