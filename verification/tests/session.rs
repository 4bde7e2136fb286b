use roblox_discord_presence::log_parser::{LogFile, LogTarget};
use roblox_discord_presence::paths::RobloxType;
use roblox_discord_presence::roblox_api::{GameDetails, LookupError};
use roblox_discord_presence::session::{
    format_num, game_presence, loading_presence, lookup_feedback, Command, Feedback,
    LookupRequest, Presence, Session,
};
use roblox_discord_presence::watcher::WatcherEvent;

fn details() -> GameDetails {
    GameDetails {
        name: "Tower Race".to_string(),
        thumbnail_url: "https://img.example/icon.png".to_string(),
        playing: 1234567,
        max_players: 40,
        creator_name: "Builder".to_string(),
    }
}

fn active(roblox_type: RobloxType) -> Session {
    let mut session = Session::new();
    session.on_watcher_event(WatcherEvent::RobloxStarted(roblox_type));
    session.on_log_opened("a.log");
    session
}

#[test]
fn format_num_groups_by_three() {
    assert_eq!(format_num(0), "0");
    assert_eq!(format_num(7), "7");
    assert_eq!(format_num(999), "999");
    assert_eq!(format_num(1000), "1,000");
    assert_eq!(format_num(1001), "1,001");
    assert_eq!(format_num(12345), "12,345");
    assert_eq!(format_num(100000), "100,000");
    assert_eq!(format_num(1234567), "1,234,567");
    assert_eq!(format_num(1000000000), "1,000,000,000");
    assert_eq!(format_num(u64::MAX), "18,446,744,073,709,551,615");
}

#[test]
fn a_new_session_is_idle() {
    let session = Session::new();
    assert_eq!(session.current_roblox_type(), None);
    assert_eq!(session.last_place_id(), "");
    assert_eq!(session.log_path(), None);
    assert!(!session.is_active());
}

#[test]
fn start_shows_the_loading_presence_of_the_variant() {
    let mut session = Session::new();
    let command = session.on_watcher_event(WatcherEvent::RobloxStarted(RobloxType::Player));
    assert_eq!(
        command,
        Command::UpdatePresence(Presence {
            details: "Roblox".to_string(),
            state: "Loading".to_string(),
            large_image: "roblox_logo".to_string(),
            small_text: None,
        })
    );
    assert!(session.is_active());
    let command = session.on_watcher_event(WatcherEvent::RobloxStarted(RobloxType::Studio));
    assert_eq!(
        command,
        Command::UpdatePresence(Presence {
            details: "Roblox Studio".to_string(),
            state: "Developing".to_string(),
            large_image: "roblox_studio".to_string(),
            small_text: None,
        })
    );
    assert_eq!(command, Command::UpdatePresence(loading_presence(RobloxType::Studio)));
    assert_eq!(session.current_roblox_type(), Some(RobloxType::Studio));
}

#[test]
fn close_clears_presence_and_log_even_when_idle() {
    let mut session = Session::new();
    assert_eq!(session.on_watcher_event(WatcherEvent::RobloxClosed), Command::ClearPresence);
    assert!(!session.is_active());
    let mut session = active(RobloxType::Player);
    assert_eq!(session.log_path(), Some("a.log"));
    assert_eq!(session.on_log_chunk(b"placeid:5\npart"), Some(LookupRequest {
        place_id: "5".to_string(),
        roblox_type: RobloxType::Player,
    }));
    assert_eq!(session.on_watcher_event(WatcherEvent::RobloxClosed), Command::ClearPresence);
    assert_eq!(session.current_roblox_type(), None);
    assert_eq!(session.last_place_id(), "");
    assert_eq!(session.log_path(), None);
}

#[test]
fn no_state_leaks_across_sessions() {
    let mut session = Session::new();
    session.on_watcher_event(WatcherEvent::RobloxStarted(RobloxType::Player));
    session.on_log_opened("a.log");
    assert!(session.on_log_chunk(b"Launching experience at 42\n").is_some());
    assert_eq!(session.last_place_id(), "42");
    session.on_watcher_event(WatcherEvent::RobloxClosed);
    session.on_watcher_event(WatcherEvent::RobloxStarted(RobloxType::Studio));
    assert_eq!(session.last_place_id(), "");
    assert_eq!(session.current_roblox_type(), Some(RobloxType::Studio));
    assert_eq!(session.log_path(), None);
    // The place of the session before is looked up again in the new one.
    session.on_log_opened("b.log");
    assert_eq!(session.on_log_chunk(b"Launching experience at 42\n"), Some(LookupRequest {
        place_id: "42".to_string(),
        roblox_type: RobloxType::Studio,
    }));
}

#[test]
fn a_start_without_a_close_begins_anew_too() {
    let mut session = active(RobloxType::Player);
    assert!(session.on_log_chunk(b"placeid:1\n").is_some());
    session.on_watcher_event(WatcherEvent::RobloxStarted(RobloxType::Studio));
    assert_eq!(session.last_place_id(), "");
    assert_eq!(session.current_roblox_type(), Some(RobloxType::Studio));
    // The log stays the one followed.
    assert_eq!(session.log_path(), Some("a.log"));
}

#[test]
fn the_same_identifier_twice_is_looked_up_once() {
    let mut session = active(RobloxType::Player);
    let first = session.on_log_chunk(b"Launching experience at 42\n");
    assert_eq!(first, Some(LookupRequest {
        place_id: "42".to_string(),
        roblox_type: RobloxType::Player,
    }));
    assert_eq!(session.on_log_chunk(b"Launching experience at 42\n"), None);
    assert_eq!(session.on_log_chunk(b"placeId:42\n"), None);
    assert_eq!(session.on_log_chunk(b""), None);
    assert_eq!(session.last_place_id(), "42");
}

#[test]
fn a_failed_lookup_does_not_block_the_next_identifier() {
    let mut session = active(RobloxType::Player);
    let request = session.on_log_chunk(b"placeid:1\n").unwrap();
    let failure: Result<GameDetails, LookupError> =
        Err(LookupError { message: "timed out".to_string() });
    let feedback = lookup_feedback(request.roblox_type, &failure);
    assert_eq!(feedback, Feedback::Notify {
        title: "Game Details Error".to_string(),
        message: "Failed to fetch details: timed out".to_string(),
    });
    // The failed identifier counts as seen: it is not tried again ...
    assert_eq!(session.last_place_id(), "1");
    assert_eq!(session.on_log_chunk(b"placeid:1\n"), None);
    // ... but another one is looked up.
    assert_eq!(session.on_log_chunk(b"placeid:2\n"), Some(LookupRequest {
        place_id: "2".to_string(),
        roblox_type: RobloxType::Player,
    }));
    // And so is the first, once it comes after another.
    assert_eq!(session.on_log_chunk(b"placeid:1\n"), Some(LookupRequest {
        place_id: "1".to_string(),
        roblox_type: RobloxType::Player,
    }));
}

#[test]
fn outside_a_session_the_log_is_not_looked_at() {
    let mut session = Session::new();
    session.on_log_opened("a.log");
    assert_eq!(session.log_path(), None);
    assert_eq!(session.on_log_chunk(b"placeid:1\n"), None);
    assert_eq!(session.last_place_id(), "");
}

#[test]
fn session_decides_which_log_to_open() {
    let mut session = Session::new();
    session.on_watcher_event(WatcherEvent::RobloxStarted(RobloxType::Player));
    let files = vec![
        LogFile { path: "a.log".to_string(), extension: Some("log".to_string()), modified: 2 },
        LogFile { path: "b.log".to_string(), extension: Some("log".to_string()), modified: 1 },
    ];
    assert_eq!(session.log_target(&files), LogTarget::Switch(0));
    session.on_log_opened("a.log");
    assert_eq!(session.log_target(&files), LogTarget::Current);
    assert_eq!(session.log_target(&Vec::new()), LogTarget::Missing);
}

#[test]
fn player_presence_shows_creator_and_numbers() {
    assert_eq!(
        game_presence(RobloxType::Player, &details()),
        Presence {
            details: "Tower Race".to_string(),
            state: "by Builder".to_string(),
            large_image: "https://img.example/icon.png".to_string(),
            small_text: Some("Playing: 1,234,567 | Capacity: 40".to_string()),
        }
    );
    let mut big = details();
    big.playing = 5;
    big.max_players = 12000;
    assert_eq!(
        game_presence(RobloxType::Player, &big).small_text,
        Some("Playing: 5 | Capacity: 12000".to_string())
    );
}

#[test]
fn studio_presence_shows_editing() {
    assert_eq!(
        game_presence(RobloxType::Studio, &details()),
        Presence {
            details: "Tower Race".to_string(),
            state: "Editing".to_string(),
            large_image: "https://img.example/icon.png".to_string(),
            small_text: Some("Developing".to_string()),
        }
    );
}

#[test]
fn a_successful_lookup_is_shown() {
    let ok: Result<GameDetails, LookupError> = Ok(details());
    assert_eq!(
        lookup_feedback(RobloxType::Studio, &ok),
        Feedback::UpdatePresence(game_presence(RobloxType::Studio, &details()))
    );
    assert_eq!(
        lookup_feedback(RobloxType::Player, &ok),
        Feedback::UpdatePresence(game_presence(RobloxType::Player, &details()))
    );
}

#[test]
fn an_identifier_is_looked_up_when_it_differs_from_the_last() {
    let mut session = Session::new();
    // Outside a session nothing is looked up.
    assert_eq!(session.on_identifier(Some("1".to_string())), None);
    assert_eq!(session.last_place_id(), "");
    session.on_watcher_event(WatcherEvent::RobloxStarted(RobloxType::Studio));
    assert_eq!(session.on_identifier(None), None);
    assert_eq!(session.on_identifier(Some("1".to_string())), Some(LookupRequest {
        place_id: "1".to_string(),
        roblox_type: RobloxType::Studio,
    }));
    assert_eq!(session.on_identifier(Some("1".to_string())), None);
    assert_eq!(session.on_identifier(None), None);
    assert_eq!(session.last_place_id(), "1");
    assert_eq!(session.on_identifier(Some("01".to_string())), Some(LookupRequest {
        place_id: "01".to_string(),
        roblox_type: RobloxType::Studio,
    }));
    // An empty identifier equals the empty memory of a fresh session.
    session.on_watcher_event(WatcherEvent::RobloxStarted(RobloxType::Player));
    assert_eq!(session.on_identifier(Some(String::new())), None);
}

#[test]
fn grouping_changes_nothing_but_the_commas() {
    let samples = [
        0u64, 1, 12, 123, 1234, 12345, 123456, 1234567, 1000, 10000, 100000, 1000000, 999999,
        1000001, 4294967295, 4294967296, u64::MAX, u64::MAX - 1, 9999999999999999999,
    ];
    for n in samples {
        let grouped = format_num(n);
        assert_eq!(grouped.replace(',', ""), n.to_string());
        // From the right, every fourth character is a comma and no other is.
        for (i, c) in grouped.chars().rev().enumerate() {
            assert_eq!(c == ',', i % 4 == 3, "{} at {}", grouped, i);
        }
        assert!(!grouped.starts_with(','));
    }
}
