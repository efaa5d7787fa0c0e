use vstd::prelude::*;
use crate::session::AudioSession;
use crate::session::VOLUME_SCALE;
use crate::session::session_wf;
use crate::session::volume_of_percent;

verus! {

/// The snapshot after the volume write that a planned volume action
/// performs on the session at `i`.
pub open spec fn write_volume(sessions: Seq<AudioSession>, i: int, v: u32) -> Seq<AudioSession> {
    sessions.update(i, AudioSession { volume: v, ..sessions[i] })
}

/// The snapshot after the mute write that a planned mute action performs on
/// the session at `i`.
pub open spec fn write_mute(sessions: Seq<AudioSession>, i: int, m: bool) -> Seq<AudioSession> {
    sessions.update(i, AudioSession { muted: m, ..sessions[i] })
}

/// Round-trip law: on a non-empty snapshot, writing the master volume for a
/// percentage `p` leaves the master session reading back exactly p/100 of
/// full scale (the written value `v` satisfies v * 100 == p * VOLUME_SCALE),
/// keeps the volume well formed, and touches no other session.
pub proof fn lemma_master_volume_round_trip(sessions: Seq<AudioSession>, percent: u8)
    requires
        percent <= 100,
        sessions.len() > 0,
    ensures
        ({
            let v = volume_of_percent(percent as nat) as u32;
            let after = write_volume(sessions, 0, v);
            &&& after.len() == sessions.len()
            &&& after[0].volume == v
            &&& (v as nat) * 100 == (percent as nat) * (VOLUME_SCALE as nat)
            &&& session_wf(after[0])
            &&& forall|j: int| 1 <= j < sessions.len() ==> after[j] == sessions[j]
        }),
{
}

/// Idempotence law: muting the master twice leaves the mute state true and
/// yields the same snapshot as muting it once. The confirmation is the same
/// each time: `mute_master_volume` pins it to the one sequence
/// `mute_msg(true)` on every non-empty snapshot.
pub proof fn lemma_mute_master_idempotent(sessions: Seq<AudioSession>)
    requires
        sessions.len() > 0,
    ensures
        write_mute(sessions, 0, true)[0].muted == true,
        write_mute(write_mute(sessions, 0, true), 0, true) == write_mute(sessions, 0, true),
{
    let once = write_mute(sessions, 0, true);
    let twice = write_mute(once, 0, true);
    assert(twice[0] == once[0]);
    assert(twice =~= once);
}

} // verus!
