use vstd::prelude::*;
use crate::app_name::app_name_of;
use crate::app_name::derive_app_name;
use crate::matching::path_matches;
use crate::matching::session_matches;
use crate::session::AudioSession;
use crate::session::RawSession;
use crate::session::raw_wf;
use crate::session::session_wf;

verus! {

/// The view of an optional icon lookup outcome.
pub open spec fn opt_view(o: Option<String>) -> Option<Seq<char>> {
    match o {
        Option::Some(s) => Option::Some(s@),
        Option::None => Option::None,
    }
}

/// The icon a session ends up with: the path-based lookup result when it
/// succeeded, else the process-id-based result, else empty.
pub open spec fn icon_of(by_path: Option<Seq<char>>, by_pid: Option<Seq<char>>) -> Seq<char> {
    match by_path {
        Option::Some(p) => p,
        Option::None => match by_pid {
            Option::Some(q) => q,
            Option::None => Seq::empty(),
        },
    }
}

/// Resolves a session icon from the two lookup outcomes: path-based first,
/// process-id-based as fallback, empty when both failed; total failure is
/// never an error.
pub fn resolve_icon(by_path: Option<String>, by_pid: Option<String>) -> (r: String)
    ensures
        r@ == icon_of(opt_view(by_path), opt_view(by_pid)),
{
    match by_path {
        Option::Some(p) => p,
        Option::None => match by_pid {
            Option::Some(q) => q,
            Option::None => String::new(),
        },
    }
}

/// How one registry row relates to the raw entry and the icon lookup
/// outcomes it was built from.
pub open spec fn built_from(
    s: AudioSession,
    r: RawSession,
    by_path: Option<Seq<char>>,
    by_pid: Option<Seq<char>>,
) -> bool {
    &&& s.pid == r.pid
    &&& s.path@ == r.path@
    &&& s.volume == r.volume
    &&& s.muted == r.muted
    &&& s.app_name@ == app_name_of(r.path@)
    &&& s.app_icon@ == icon_of(by_path, by_pid)
}

/// Clones an optional icon payload.
fn clone_opt_string(o: &Option<String>) -> (r: Option<String>)
    ensures
        opt_view(r) == opt_view(*o),
{
    match o {
        Option::Some(s) => Option::Some(s.clone()),
        Option::None => Option::None,
    }
}

/// Materializes the registry snapshot for one listing call: every enumerated
/// entry becomes one session record, in enumeration order, enriched with its
/// derived application name and its resolved icon. Entries are neither
/// dropped, deduplicated nor reordered.
pub fn list_audio_sessions(
    raw: &Vec<RawSession>,
    icons: &Vec<(Option<String>, Option<String>)>,
) -> (r: Vec<AudioSession>)
    requires
        icons@.len() == raw@.len(),
        forall|i: int| 0 <= i < raw@.len() ==> raw_wf(raw@[i]),
    ensures
        r@.len() == raw@.len(),
        forall|i: int|
            0 <= i < raw@.len() ==> built_from(
                r@[i],
                raw@[i],
                opt_view(icons@[i].0),
                opt_view(icons@[i].1),
            ),
        forall|i: int| 0 <= i < r@.len() ==> session_wf(r@[i]),
{
    let n = raw.len();
    let mut out: Vec<AudioSession> = Vec::new();
    let mut idx: usize = 0;
    while idx < n
        invariant
            n == raw@.len(),
            icons@.len() == n,
            forall|i: int| 0 <= i < n ==> raw_wf(raw@[i]),
            idx <= n,
            out@.len() == idx,
            forall|i: int|
                0 <= i < idx ==> built_from(
                    out@[i],
                    raw@[i],
                    opt_view(icons@[i].0),
                    opt_view(icons@[i].1),
                ),
            forall|i: int| 0 <= i < idx ==> session_wf(out@[i]),
        decreases n - idx,
    {
        let entry = &raw[idx];
        let path = entry.path.clone();
        let app_name = derive_app_name(path.as_str());
        let pair = &icons[idx];
        let by_path = clone_opt_string(&pair.0);
        let by_pid = clone_opt_string(&pair.1);
        let app_icon = resolve_icon(by_path, by_pid);
        out.push(
            AudioSession {
                pid: entry.pid,
                path,
                volume: entry.volume,
                muted: entry.muted,
                app_name,
                app_icon,
            },
        );
        idx = idx + 1;
    }
    out
}

/// The master session of a snapshot: by this system's convention the first
/// enumerated entry; none when the snapshot is empty.
pub fn resolve_master(sessions: &Vec<AudioSession>) -> (r: Option<usize>)
    ensures
        sessions@.len() == 0 ==> r is None,
        sessions@.len() > 0 ==> r == Option::Some(0usize),
{
    if sessions.len() > 0 {
        Option::Some(0)
    } else {
        Option::None
    }
}

/// The first session, in enumeration order, whose executable path contains
/// the fragment case-insensitively; none when no session matches.
pub fn resolve_by_name(sessions: &Vec<AudioSession>, fragment: &str) -> (r: Option<usize>)
    ensures
        match r {
            Option::Some(i) => {
                &&& (i as int) < sessions@.len()
                &&& session_matches(sessions@[i as int].path@, fragment@)
                &&& forall|j: int|
                    0 <= j < i ==> !session_matches(sessions@[j].path@, fragment@)
            },
            Option::None => forall|j: int|
                0 <= j < sessions@.len() ==> !session_matches(sessions@[j].path@, fragment@),
        },
{
    let n = sessions.len();
    let mut i: usize = 0;
    while i < n
        invariant
            n == sessions@.len(),
            i <= n,
            forall|j: int| 0 <= j < i ==> !session_matches(sessions@[j].path@, fragment@),
        decreases n - i,
    {
        if path_matches(sessions[i].path.as_str(), fragment) {
            return Option::Some(i);
        }
        i = i + 1;
    }
    Option::None
}

} // verus!
