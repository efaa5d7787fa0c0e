use vstd::prelude::*;

verus! {

/// Full-scale value of the integer volume representation: a session's volume
/// is held in units of 1/10000 of the [0.0, 1.0] linear scalar that the audio
/// subsystem works with, so 10000 stands for full volume.
pub const VOLUME_SCALE: u32 = 10000;

/// One entry of an enumeration snapshot as the subsystem layer hands it over:
/// process id, executable path, and the volume and mute values read through
/// the session handle, the volume already scaled to `VOLUME_SCALE`.
pub struct RawSession {
    pub pid: u32,
    pub path: String,
    pub volume: u32,
    pub muted: bool,
}

/// A fully enriched session record: the raw entry plus the derived
/// application name and the resolved icon payload.
pub struct AudioSession {
    pub pid: u32,
    pub path: String,
    pub volume: u32,
    pub muted: bool,
    pub app_name: String,
    pub app_icon: String,
}

/// A raw entry is well formed when its volume lies inside [0, VOLUME_SCALE];
/// the subsystem clamps out-of-range values before they reach the registry.
pub open spec fn raw_wf(s: RawSession) -> bool {
    s.volume <= VOLUME_SCALE
}

/// A session record is well formed when its volume lies inside [0, VOLUME_SCALE].
pub open spec fn session_wf(s: AudioSession) -> bool {
    s.volume <= VOLUME_SCALE
}

/// The scaled volume that a caller-facing percentage normalizes to.
pub open spec fn volume_of_percent(p: nat) -> nat {
    p * 100
}

/// Normalizes a 0..=100 percentage onto the scaled [0, VOLUME_SCALE] range.
pub fn percent_to_volume(percent: u8) -> (v: u32)
    requires
        percent <= 100,
    ensures
        v == volume_of_percent(percent as nat),
        v <= VOLUME_SCALE,
{
    percent as u32 * 100
}

} // verus!
