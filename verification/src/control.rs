use vstd::prelude::*;
use crate::matching::session_matches;
use crate::messages::app_volume_message;
use crate::messages::app_volume_msg;
use crate::messages::master_volume_message;
use crate::messages::master_volume_msg;
use crate::messages::mute_message;
use crate::messages::mute_msg;
use crate::messages::no_master_message;
use crate::messages::no_master_msg;
use crate::messages::not_found_message;
use crate::messages::not_found_msg;
use crate::session::AudioSession;
use crate::session::percent_to_volume;
use crate::session::volume_of_percent;
use crate::registry::resolve_by_name;
use crate::registry::resolve_master;

verus! {

/// The outcome of planning a volume write against a snapshot: either the
/// scaled volume to write through the handle at `index`, with the
/// confirmation to report once the write succeeds, or the benign message
/// that nothing was found to act on.
pub enum VolumeAction {
    Write { index: usize, volume: u32, confirmation: String },
    NotFound { message: String },
}

/// The outcome of planning a mute write, in the same shape.
pub enum MuteAction {
    Write { index: usize, mute: bool, confirmation: String },
    NotFound { message: String },
}

/// Plans a master volume write: the target is the first enumerated session
/// and the written value is the normalized percentage; an empty snapshot
/// yields the benign not-found message, never an error.
pub fn set_master_volume(sessions: &Vec<AudioSession>, percent: u8) -> (r: VolumeAction)
    requires
        percent <= 100,
    ensures
        sessions@.len() == 0 ==> (r matches VolumeAction::NotFound { message } && message@
            == no_master_msg()),
        sessions@.len() > 0 ==> (r matches VolumeAction::Write { index, volume, confirmation }
            && index == 0 && volume == volume_of_percent(percent as nat) && confirmation@
            == master_volume_msg(percent as nat)),
{
    match resolve_master(sessions) {
        Option::Some(i) => VolumeAction::Write {
            index: i,
            volume: percent_to_volume(percent),
            confirmation: master_volume_message(percent),
        },
        Option::None => VolumeAction::NotFound { message: no_master_message() },
    }
}

/// Plans a master mute write: the target is the first enumerated session; an
/// empty snapshot yields the benign not-found message, never an error.
pub fn mute_master_volume(sessions: &Vec<AudioSession>, mute: bool) -> (r: MuteAction)
    ensures
        sessions@.len() == 0 ==> (r matches MuteAction::NotFound { message } && message@
            == no_master_msg()),
        sessions@.len() > 0 ==> (r matches MuteAction::Write { index, mute: m, confirmation }
            && index == 0 && m == mute && confirmation@ == mute_msg(mute)),
{
    match resolve_master(sessions) {
        Option::Some(i) => MuteAction::Write {
            index: i,
            mute,
            confirmation: mute_message(mute),
        },
        Option::None => MuteAction::NotFound { message: no_master_message() },
    }
}

/// Plans a per-application volume write: the target is the first session, in
/// enumeration order, whose path contains the name case-insensitively, and
/// the written value is the normalized percentage; when no session matches,
/// the benign not-found message names the application.
pub fn set_app_volume(sessions: &Vec<AudioSession>, app_name: &str, percent: u8) -> (r:
    VolumeAction)
    requires
        percent <= 100,
    ensures
        match r {
            VolumeAction::Write { index, volume, confirmation } => {
                &&& (index as int) < sessions@.len()
                &&& session_matches(sessions@[index as int].path@, app_name@)
                &&& forall|j: int|
                    0 <= j < index ==> !session_matches(sessions@[j].path@, app_name@)
                &&& volume == volume_of_percent(percent as nat)
                &&& confirmation@ == app_volume_msg(app_name@, percent as nat)
            },
            VolumeAction::NotFound { message } => {
                &&& forall|j: int|
                    0 <= j < sessions@.len() ==> !session_matches(sessions@[j].path@, app_name@)
                &&& message@ == not_found_msg(app_name@)
            },
        },
{
    match resolve_by_name(sessions, app_name) {
        Option::Some(i) => VolumeAction::Write {
            index: i,
            volume: percent_to_volume(percent),
            confirmation: app_volume_message(app_name, percent),
        },
        Option::None => VolumeAction::NotFound { message: not_found_message(app_name) },
    }
}

} // verus!
