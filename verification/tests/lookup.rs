use roblox_discord_presence::roblox_api::{
    after_games, games_url, get_game_details, thumbnail_of, thumbnails_url, universe_url,
    unknown_game, CreatorInfo, GameDetails, GameInfo, GamesResponse, LookupStep, ThumbnailInfo,
    ThumbnailsResponse, UniverseIdResponse,
};

fn game() -> GameInfo {
    GameInfo {
        name: "Tower Race".to_string(),
        playing: 12,
        max_players: 40,
        creator: CreatorInfo { name: "Builder".to_string() },
    }
}

fn thumbnail(state: &str, url: &str) -> ThumbnailInfo {
    ThumbnailInfo { state: state.to_string(), image_url: url.to_string() }
}

#[test]
fn addresses_are_exact() {
    assert_eq!(
        universe_url("606849621"),
        "https://apis.roblox.com/universes/v1/places/606849621/universe"
    );
    assert_eq!(games_url(245662005), "https://games.roblox.com/v1/games?universeIds=245662005");
    assert_eq!(games_url(0), "https://games.roblox.com/v1/games?universeIds=0");
    assert_eq!(
        thumbnails_url(245662005),
        "https://thumbnails.roblox.com/v1/games/icons?universeIds=245662005&size=512x512&format=Png&isCircular=false"
    );
    assert_eq!(
        games_url(u64::MAX),
        "https://games.roblox.com/v1/games?universeIds=18446744073709551615"
    );
}

#[test]
fn universe_answer_leads_to_the_games_address() {
    let answer = UniverseIdResponse { universe_id: 77 };
    assert_eq!(games_url(answer.universe_id), "https://games.roblox.com/v1/games?universeIds=77");
}

#[test]
fn unknown_game_has_stock_values() {
    assert_eq!(
        unknown_game(),
        GameDetails {
            name: "Unknown Game".to_string(),
            thumbnail_url: "roblox_logo".to_string(),
            playing: 0,
            max_players: 0,
            creator_name: "Unknown".to_string(),
        }
    );
}

#[test]
fn without_a_game_the_lookup_ends_early() {
    let none = GamesResponse { data: Vec::new() };
    assert_eq!(after_games(5, &none), LookupStep::Done(unknown_game()));
    let some = GamesResponse { data: vec![game()] };
    assert_eq!(after_games(5, &some), LookupStep::Fetch(thumbnails_url(5)));
}

#[test]
fn a_finished_icon_is_used() {
    let thumbs = ThumbnailsResponse {
        data: vec![thumbnail("Completed", "https://img/1.png"), thumbnail("Completed", "https://img/2.png")],
    };
    assert_eq!(thumbnail_of(&thumbs), "https://img/1.png");
}

#[test]
fn an_unfinished_or_missing_icon_gives_the_logo() {
    let pending = ThumbnailsResponse { data: vec![thumbnail("Pending", "https://img/1.png")] };
    assert_eq!(thumbnail_of(&pending), "roblox_logo");
    let lower = ThumbnailsResponse { data: vec![thumbnail("completed", "https://img/1.png")] };
    assert_eq!(thumbnail_of(&lower), "roblox_logo");
    let later = ThumbnailsResponse {
        data: vec![thumbnail("Error", "https://img/1.png"), thumbnail("Completed", "https://img/2.png")],
    };
    assert_eq!(thumbnail_of(&later), "roblox_logo");
    assert_eq!(thumbnail_of(&ThumbnailsResponse { data: Vec::new() }), "roblox_logo");
}

#[test]
fn details_come_from_the_first_game() {
    let mut second = game();
    second.name = "Other".to_string();
    let games = GamesResponse { data: vec![game(), second] };
    let thumbs = ThumbnailsResponse { data: vec![thumbnail("Completed", "https://img/1.png")] };
    assert_eq!(
        get_game_details(&games, &thumbs),
        GameDetails {
            name: "Tower Race".to_string(),
            thumbnail_url: "https://img/1.png".to_string(),
            playing: 12,
            max_players: 40,
            creator_name: "Builder".to_string(),
        }
    );
    let no_thumbs = ThumbnailsResponse { data: Vec::new() };
    assert_eq!(get_game_details(&games, &no_thumbs).thumbnail_url, "roblox_logo");
}

#[test]
fn details_without_a_game_are_the_unknown_game() {
    let games = GamesResponse { data: Vec::new() };
    let thumbs = ThumbnailsResponse { data: vec![thumbnail("Completed", "https://img/1.png")] };
    assert_eq!(get_game_details(&games, &thumbs), unknown_game());
}
