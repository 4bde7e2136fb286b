use roblox_discord_presence::log_parser::{first_place_id_in, get_place_id_from_line, RULE_COUNT};

fn id(text: &str) -> Option<String> {
    Some(text.to_string())
}

#[test]
fn launching_experience_names_the_place() {
    assert_eq!(get_place_id_from_line("Launching experience at 12345"), id("12345"));
}

#[test]
fn launching_experience_inside_a_longer_line() {
    let line = "2024-05-01T10:00:00.123Z,1.2,abcd [FLog::Output] Launching experience at 606849621 now";
    assert_eq!(get_place_id_from_line(line), id("606849621"));
}

#[test]
fn line_without_identifier_names_nothing() {
    assert_eq!(get_place_id_from_line("nothing of interest here"), None);
    assert_eq!(get_place_id_from_line(""), None);
    assert_eq!(get_place_id_from_line("Launching experience at home"), None);
}

#[test]
fn joining_game_with_exclamation_mark() {
    let line = "! Joining game 'f3a0' place 920587237 at 10.0.0.1";
    assert_eq!(get_place_id_from_line(line), id("920587237"));
}

#[test]
fn joining_game_without_exclamation_mark() {
    let line = "Joining game 'f3a0' place 4924922222 at 10.0.0.1";
    assert_eq!(get_place_id_from_line(line), id("4924922222"));
}

#[test]
fn joining_game_takes_the_last_place_on_the_line() {
    // `.*` is greedy: the numeral after the last " place " is captured.
    let line = "Joining game a place 1 then place 22";
    assert_eq!(get_place_id_from_line(line), id("22"));
}

#[test]
fn key_value_forms() {
    assert_eq!(get_place_id_from_line("x placeid:111 y"), id("111"));
    assert_eq!(get_place_id_from_line("x placeId:222 y"), id("222"));
    assert_eq!(get_place_id_from_line("x PlaceId=333 y"), id("333"));
    assert_eq!(get_place_id_from_line("x universeId:444 y"), id("444"));
}

#[test]
fn keys_are_case_sensitive() {
    assert_eq!(get_place_id_from_line("PLACEID:111"), None);
    assert_eq!(get_place_id_from_line("Placeid:111"), None);
    assert_eq!(get_place_id_from_line("placeid=111"), None);
    assert_eq!(get_place_id_from_line("PlaceId:333"), None);
    assert_eq!(get_place_id_from_line("placeId=222"), None);
    assert_eq!(get_place_id_from_line("UniverseId:444"), None);
    assert_eq!(get_place_id_from_line("launching experience at 5"), None);
}

#[test]
fn the_first_rule_in_priority_order_wins() {
    // The launch phrase outranks the key forms, wherever they stand.
    let line = "placeid:1 universeId:2 Launching experience at 3";
    assert_eq!(get_place_id_from_line(line), id("3"));
    // `placeid` outranks `placeId`, which outranks `PlaceId`, then `universeId`.
    assert_eq!(get_place_id_from_line("universeId:4 PlaceId=3 placeId:2 placeid:1"), id("1"));
    assert_eq!(get_place_id_from_line("universeId:4 PlaceId=3 placeId:2"), id("2"));
    assert_eq!(get_place_id_from_line("universeId:4 PlaceId=3"), id("3"));
}

#[test]
fn the_numeral_is_handed_out_unmodified() {
    assert_eq!(get_place_id_from_line("placeid:000123"), id("000123"));
    assert_eq!(
        get_place_id_from_line("Launching experience at 123456789012345678901234567890"),
        id("123456789012345678901234567890")
    );
}

#[test]
fn the_identifier_is_not_the_line() {
    let line = "Launching experience at 77";
    let found = get_place_id_from_line(line).unwrap();
    assert_ne!(found, line);
    assert_eq!(found, "77");
}

#[test]
fn there_are_seven_rules() {
    assert_eq!(RULE_COUNT, 7);
}

#[test]
fn first_identifier_of_a_batch() {
    let lines = vec![
        "no id".to_string(),
        "placeid:10".to_string(),
        "Launching experience at 20".to_string(),
    ];
    assert_eq!(first_place_id_in(&lines), id("10"));
    assert_eq!(first_place_id_in(&vec!["a".to_string(), "b".to_string()]), None);
    assert_eq!(first_place_id_in(&Vec::new()), None);
}
