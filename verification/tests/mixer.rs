use winmixer::control::MuteAction;
use winmixer::control::VolumeAction;
use winmixer::control::mute_master_volume;
use winmixer::control::set_app_volume;
use winmixer::control::set_master_volume;
use winmixer::app_name::derive_app_name;
use winmixer::matching::path_matches;
use winmixer::registry::list_audio_sessions;
use winmixer::registry::resolve_by_name;
use winmixer::registry::resolve_icon;
use winmixer::registry::resolve_master;
use winmixer::session::AudioSession;
use winmixer::session::RawSession;
use winmixer::session::VOLUME_SCALE;
use winmixer::session::percent_to_volume;

fn session(pid: u32, path: &str, volume: u32, muted: bool) -> AudioSession {
    AudioSession {
        pid,
        path: path.to_string(),
        volume,
        muted,
        app_name: derive_app_name(path),
        app_icon: String::new(),
    }
}

fn raw(pid: u32, path: &str, volume: u32, muted: bool) -> RawSession {
    RawSession { pid, path: path.to_string(), volume, muted }
}

#[test]
fn app_name_windows_path() {
    assert_eq!(derive_app_name("C:\\Apps\\Spotify.exe"), "Spotify");
}

#[test]
fn app_name_empty_path() {
    assert_eq!(derive_app_name(""), "");
}

#[test]
fn app_name_without_dot() {
    assert_eq!(derive_app_name("noext"), "noext");
}

#[test]
fn app_name_posix_path() {
    assert_eq!(derive_app_name("/usr/bin/chrome"), "chrome");
}

#[test]
fn app_name_strips_last_extension_only() {
    assert_eq!(derive_app_name("C:\\Tools\\tool.v2.exe"), "tool.v2");
}

#[test]
fn app_name_trailing_separator() {
    assert_eq!(derive_app_name("C:\\Apps\\"), "");
}

#[test]
fn percent_normalization() {
    assert_eq!(percent_to_volume(0), 0);
    assert_eq!(percent_to_volume(37), 3700);
    assert_eq!(percent_to_volume(100), VOLUME_SCALE);
}

#[test]
fn match_is_case_insensitive_lower_query() {
    let sessions = vec![session(4, "C:\\Program Files\\Chrome.exe", 5000, false)];
    assert_eq!(resolve_by_name(&sessions, "chrome"), Some(0));
}

#[test]
fn match_is_case_insensitive_upper_query() {
    let sessions = vec![session(4, "C:\\Program Files\\Chrome.exe", 5000, false)];
    assert_eq!(resolve_by_name(&sessions, "CHROME"), Some(0));
}

#[test]
fn path_matching_folds_case() {
    assert!(path_matches("C:\\Program Files\\Chrome.exe", "CHROME"));
    assert!(!path_matches("C:\\Program Files\\Chrome.exe", "firefox"));
}

#[test]
fn first_enumeration_order_match_wins() {
    let sessions = vec![
        session(1, "C:\\one\\app_one.exe", 100, false),
        session(2, "C:\\two\\app_two.exe", 200, false),
    ];
    assert_eq!(resolve_by_name(&sessions, "app"), Some(0));
}

#[test]
fn no_match_yields_none() {
    let sessions = vec![session(1, "C:\\one\\app_one.exe", 100, false)];
    assert_eq!(resolve_by_name(&sessions, "zzz"), None);
}

#[test]
fn master_of_empty_snapshot() {
    let sessions: Vec<AudioSession> = Vec::new();
    assert_eq!(resolve_master(&sessions), None);
}

#[test]
fn master_is_first_entry() {
    let sessions = vec![
        session(7, "C:\\a.exe", 0, false),
        session(8, "C:\\b.exe", 0, false),
    ];
    assert_eq!(resolve_master(&sessions), Some(0));
}

#[test]
fn set_master_volume_on_empty_snapshot() {
    let sessions: Vec<AudioSession> = Vec::new();
    match set_master_volume(&sessions, 50) {
        VolumeAction::NotFound { message } => {
            assert_eq!(message, "No master session found");
        }
        VolumeAction::Write { .. } => panic!("expected the not-found reply"),
    }
}

#[test]
fn mute_master_on_empty_snapshot() {
    let sessions: Vec<AudioSession> = Vec::new();
    match mute_master_volume(&sessions, true) {
        MuteAction::NotFound { message } => {
            assert_eq!(message, "No master session found");
        }
        MuteAction::Write { .. } => panic!("expected the not-found reply"),
    }
}

#[test]
fn set_app_volume_on_empty_snapshot() {
    let sessions: Vec<AudioSession> = Vec::new();
    match set_app_volume(&sessions, "spotify", 50) {
        VolumeAction::NotFound { message } => {
            assert_eq!(message, "Could not find an application named 'spotify'");
        }
        VolumeAction::Write { .. } => panic!("expected the not-found reply"),
    }
}

#[test]
fn set_master_volume_plans_write() {
    let sessions = vec![
        session(1, "C:\\a.exe", 0, false),
        session(2, "C:\\b.exe", 0, false),
    ];
    match set_master_volume(&sessions, 45) {
        VolumeAction::Write { index, volume, confirmation } => {
            assert_eq!(index, 0);
            assert_eq!(volume, 4500);
            assert_eq!(confirmation, "Master volume set to 45% (normalized: 0.45)");
        }
        VolumeAction::NotFound { .. } => panic!("expected a write"),
    }
}

#[test]
fn set_master_volume_full_scale() {
    let sessions = vec![session(1, "C:\\a.exe", 0, false)];
    match set_master_volume(&sessions, 100) {
        VolumeAction::Write { index, volume, confirmation } => {
            assert_eq!(index, 0);
            assert_eq!(volume, VOLUME_SCALE);
            assert_eq!(confirmation, "Master volume set to 100% (normalized: 1.00)");
        }
        VolumeAction::NotFound { .. } => panic!("expected a write"),
    }
}

#[test]
fn set_master_volume_zero() {
    let sessions = vec![session(1, "C:\\a.exe", 9999, true)];
    match set_master_volume(&sessions, 0) {
        VolumeAction::Write { volume, confirmation, .. } => {
            assert_eq!(volume, 0);
            assert_eq!(confirmation, "Master volume set to 0% (normalized: 0.00)");
        }
        VolumeAction::NotFound { .. } => panic!("expected a write"),
    }
}

#[test]
fn set_master_volume_single_digit() {
    let sessions = vec![session(1, "C:\\a.exe", 0, false)];
    match set_master_volume(&sessions, 5) {
        VolumeAction::Write { volume, confirmation, .. } => {
            assert_eq!(volume, 500);
            assert_eq!(confirmation, "Master volume set to 5% (normalized: 0.05)");
        }
        VolumeAction::NotFound { .. } => panic!("expected a write"),
    }
}

#[test]
fn mute_master_messages() {
    let sessions = vec![session(1, "C:\\a.exe", 0, false)];
    match mute_master_volume(&sessions, true) {
        MuteAction::Write { index, mute, confirmation } => {
            assert_eq!(index, 0);
            assert!(mute);
            assert_eq!(confirmation, "Master volume muted: true");
        }
        MuteAction::NotFound { .. } => panic!("expected a write"),
    }
    match mute_master_volume(&sessions, false) {
        MuteAction::Write { confirmation, .. } => {
            assert_eq!(confirmation, "Master volume muted: false");
        }
        MuteAction::NotFound { .. } => panic!("expected a write"),
    }
}

#[test]
fn mute_master_twice_is_idempotent() {
    let mut sessions = vec![session(1, "C:\\a.exe", 0, false)];
    let first = mute_master_volume(&sessions, true);
    let (i1, m1, c1) = match first {
        MuteAction::Write { index, mute, confirmation } => (index, mute, confirmation),
        MuteAction::NotFound { .. } => panic!("expected a write"),
    };
    sessions[i1].muted = m1;
    let second = mute_master_volume(&sessions, true);
    let (i2, m2, c2) = match second {
        MuteAction::Write { index, mute, confirmation } => (index, mute, confirmation),
        MuteAction::NotFound { .. } => panic!("expected a write"),
    };
    sessions[i2].muted = m2;
    assert!(sessions[0].muted);
    assert_eq!(c1, c2);
    assert_eq!(c1, "Master volume muted: true");
}

#[test]
fn set_app_volume_targets_matching_session() {
    let sessions = vec![
        session(1, "C:\\x\\Other.exe", 0, false),
        session(2, "C:\\Apps\\Spotify.exe", 0, false),
    ];
    match set_app_volume(&sessions, "spotify", 30) {
        VolumeAction::Write { index, volume, confirmation } => {
            assert_eq!(index, 1);
            assert_eq!(volume, 3000);
            assert_eq!(confirmation, "Volume for 'spotify' set to 30% (normalized: 0.30)");
        }
        VolumeAction::NotFound { .. } => panic!("expected a write"),
    }
}

#[test]
fn icon_path_lookup_wins() {
    let icon = resolve_icon(Some("path-icon".to_string()), Some("pid-icon".to_string()));
    assert_eq!(icon, "path-icon");
}

#[test]
fn icon_falls_back_to_process_id() {
    let icon = resolve_icon(None, Some("pid-icon".to_string()));
    assert_eq!(icon, "pid-icon");
}

#[test]
fn icon_empty_when_both_fail() {
    let icon = resolve_icon(None, None);
    assert_eq!(icon, "");
}

#[test]
fn listing_builds_one_row_per_entry() {
    let raws = vec![
        raw(10, "C:\\Apps\\Spotify.exe", 2500, false),
        raw(11, "C:\\Program Files\\Chrome.exe", 10000, true),
        raw(12, "", 0, false),
    ];
    let icons = vec![
        (Some("spotify-icon".to_string()), None),
        (None, Some("chrome-icon".to_string())),
        (None, None),
    ];
    let sessions = list_audio_sessions(&raws, &icons);
    assert_eq!(sessions.len(), 3);
    for (i, s) in sessions.iter().enumerate() {
        assert!(s.volume <= VOLUME_SCALE);
        assert_eq!(s.pid, raws[i].pid);
        assert_eq!(s.path, raws[i].path);
        assert_eq!(s.volume, raws[i].volume);
        assert_eq!(s.muted, raws[i].muted);
    }
    assert_eq!(sessions[0].app_name, "Spotify");
    assert_eq!(sessions[0].app_icon, "spotify-icon");
    assert_eq!(sessions[1].app_name, "Chrome");
    assert_eq!(sessions[1].app_icon, "chrome-icon");
    assert_eq!(sessions[2].app_name, "");
    assert_eq!(sessions[2].app_icon, "");
}

#[test]
fn listing_of_empty_snapshot() {
    let raws: Vec<RawSession> = Vec::new();
    let icons: Vec<(Option<String>, Option<String>)> = Vec::new();
    let sessions = list_audio_sessions(&raws, &icons);
    assert!(sessions.is_empty());
}

#[test]
fn volume_round_trip_scalar() {
    for p in 0u8..=100 {
        let sessions = vec![session(1, "C:\\a.exe", 0, false)];
        match set_master_volume(&sessions, p) {
            VolumeAction::Write { volume, .. } => {
                let scalar = volume as f32 / VOLUME_SCALE as f32;
                let expected = p as f32 / 100.0;
                assert!((scalar - expected).abs() < 1e-6);
            }
            VolumeAction::NotFound { .. } => panic!("expected a write"),
        }
    }
}
