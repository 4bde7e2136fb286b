//! Looking up what is known of a place: the addresses to ask, the shape of
//! the answers, and what is made of them.

use vstd::prelude::*;
use vstd::string::StringExecFns;

use crate::text::{decimal, push_decimal};

verus! {

/// The answer to the question which universe a place belongs to.
#[derive(Debug, Clone, PartialEq, Eq)]
pub struct UniverseIdResponse {
    pub universe_id: u64,
}

/// Who made a game.
#[derive(Debug, Clone, PartialEq, Eq)]
pub struct CreatorInfo {
    pub name: String,
}

/// What the games service tells of one game.
#[derive(Debug, Clone, PartialEq, Eq)]
pub struct GameInfo {
    pub name: String,
    pub playing: u64,
    pub max_players: u64,
    pub creator: CreatorInfo,
}

/// The answer of the games service.
#[derive(Debug, Clone, PartialEq, Eq)]
pub struct GamesResponse {
    pub data: Vec<GameInfo>,
}

/// What the thumbnail service tells of one icon.
#[derive(Debug, Clone, PartialEq, Eq)]
pub struct ThumbnailInfo {
    pub state: String,
    pub image_url: String,
}

/// The answer of the thumbnail service.
#[derive(Debug, Clone, PartialEq, Eq)]
pub struct ThumbnailsResponse {
    pub data: Vec<ThumbnailInfo>,
}

/// What the agent shows of a game.
#[derive(Debug, Clone, PartialEq, Eq)]
pub struct GameDetails {
    pub name: String,
    pub thumbnail_url: String,
    pub playing: u64,
    pub max_players: u64,
    pub creator_name: String,
}

/// A lookup that failed, at whatever stage, with the reason in words.
#[derive(Debug, Clone, PartialEq, Eq)]
pub struct LookupError {
    pub message: String,
}

/// The content of a `GameDetails`.
pub struct GameDetailsView {
    pub name: Seq<char>,
    pub thumbnail_url: Seq<char>,
    pub playing: u64,
    pub max_players: u64,
    pub creator_name: Seq<char>,
}

impl View for GameDetails {
    type V = GameDetailsView;

    open spec fn view(&self) -> GameDetailsView {
        GameDetailsView {
            name: self.name@,
            thumbnail_url: self.thumbnail_url@,
            playing: self.playing,
            max_players: self.max_players,
            creator_name: self.creator_name@,
        }
    }
}

/// The address that tells which universe the place `place_id` belongs to.
pub open spec fn universe_url_text(place_id: Seq<char>) -> Seq<char> {
    "https://apis.roblox.com/universes/v1/places/"@ + place_id + "/universe"@
}

/// The address that describes the games of the universe `universe_id`.
pub open spec fn games_url_text(universe_id: u64) -> Seq<char> {
    "https://games.roblox.com/v1/games?universeIds="@ + decimal(universe_id as nat)
}

/// The address that lists the icons of the universe `universe_id`.
pub open spec fn thumbnails_url_text(universe_id: u64) -> Seq<char> {
    "https://thumbnails.roblox.com/v1/games/icons?universeIds="@ + decimal(universe_id as nat)
        + "&size=512x512&format=Png&isCircular=false"@
}

/// What is shown of a game of which the games service knows nothing.
pub open spec fn unknown_game_view() -> GameDetailsView {
    GameDetailsView {
        name: "Unknown Game"@,
        thumbnail_url: "roblox_logo"@,
        playing: 0,
        max_players: 0,
        creator_name: "Unknown"@,
    }
}

/// The image to show for a game: the address of the first icon listed if
/// that icon is ready, else the stock logo.
pub open spec fn thumbnail_text(thumbnails: Seq<ThumbnailInfo>) -> Seq<char> {
    if thumbnails.len() > 0 && thumbnails[0].state@ == "Completed"@ {
        thumbnails[0].image_url@
    } else {
        "roblox_logo"@
    }
}

/// What is shown of a game, given the two services' answers: the first
/// game listed, with the image chosen by `thumbnail_text`; the unknown game
/// where none is listed.
pub open spec fn game_details_view(
    games: Seq<GameInfo>,
    thumbnails: Seq<ThumbnailInfo>,
) -> GameDetailsView {
    if games.len() == 0 {
        unknown_game_view()
    } else {
        GameDetailsView {
            name: games[0].name@,
            thumbnail_url: thumbnail_text(thumbnails),
            playing: games[0].playing,
            max_players: games[0].max_players,
            creator_name: games[0].creator.name@,
        }
    }
}

/// The address to ask first: which universe the place belongs to.
pub fn universe_url(place_id: &str) -> (url: String)
    ensures
        url@ == universe_url_text(place_id@),
{
    let mut url = "https://apis.roblox.com/universes/v1/places/".to_owned();
    url.append(place_id);
    url.append("/universe");
    url
}

/// The address to ask next: the games of the universe.
pub fn games_url(universe_id: u64) -> (url: String)
    ensures
        url@ == games_url_text(universe_id),
{
    let mut url = "https://games.roblox.com/v1/games?universeIds=".to_owned();
    push_decimal(&mut url, universe_id);
    url
}

/// The address to ask last: the icons of the universe.
pub fn thumbnails_url(universe_id: u64) -> (url: String)
    ensures
        url@ == thumbnails_url_text(universe_id),
{
    let mut url = "https://thumbnails.roblox.com/v1/games/icons?universeIds=".to_owned();
    push_decimal(&mut url, universe_id);
    url.append("&size=512x512&format=Png&isCircular=false");
    url
}

/// What is shown of a game of which the games service knows nothing.
pub fn unknown_game() -> (details: GameDetails)
    ensures
        details@ == unknown_game_view(),
{
    GameDetails {
        name: "Unknown Game".to_owned(),
        thumbnail_url: "roblox_logo".to_owned(),
        playing: 0,
        max_players: 0,
        creator_name: "Unknown".to_owned(),
    }
}

/// How a lookup goes on once the games service has answered.
#[derive(Debug, Clone, PartialEq, Eq)]
pub enum LookupStep {
    /// The game is known: its icons are to be asked for at this address.
    Fetch(String),
    /// No game is listed: the lookup ends with these details.
    Done(GameDetails),
}

/// Decides how the lookup goes on once the games service has answered for
/// the universe `universe_id`.
pub fn after_games(universe_id: u64, game_body: &GamesResponse) -> (step: LookupStep)
    ensures
        match step {
            LookupStep::Fetch(url) => game_body.data@.len() > 0 && url@ == thumbnails_url_text(
                universe_id,
            ),
            LookupStep::Done(details) => game_body.data@.len() == 0 && details@
                == unknown_game_view(),
        },
{
    if game_body.data.len() == 0 {
        LookupStep::Done(unknown_game())
    } else {
        LookupStep::Fetch(thumbnails_url(universe_id))
    }
}

/// The image to show for a game, given the thumbnail service's answer.
pub fn thumbnail_of(thumb_body: &ThumbnailsResponse) -> (url: String)
    ensures
        url@ == thumbnail_text(thumb_body.data@),
{
    if thumb_body.data.len() > 0 {
        let completed = "Completed".to_owned();
        if thumb_body.data[0].state == completed {
            return thumb_body.data[0].image_url.clone();
        }
    }
    "roblox_logo".to_owned()
}

/// What is shown of a game, given the two services' answers.
pub fn get_game_details(game_body: &GamesResponse, thumb_body: &ThumbnailsResponse) -> (details:
    GameDetails)
    ensures
        details@ == game_details_view(game_body.data@, thumb_body.data@),
{
    if game_body.data.len() == 0 {
        return unknown_game();
    }
    let game_info = &game_body.data[0];
    GameDetails {
        name: game_info.name.clone(),
        thumbnail_url: thumbnail_of(thumb_body),
        playing: game_info.playing,
        max_players: game_info.max_players,
        creator_name: game_info.creator.name.clone(),
    }
}

} // verus!
