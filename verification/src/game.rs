//! One game of the catalog, and the part of it that a listing shows.

use crate::json::{array, array_text, json_string, json_strings, quote, quote_all};
use crate::text::copy_texts;
use vstd::prelude::*;

verus! {

/// What the catalog knows of one game. The executable and its arguments
/// serve the launcher alone; no listing shows them.
#[derive(Debug, Clone, PartialEq)]
pub struct Game {
    pub name: String,
    pub description: String,
    pub genres: Vec<String>,
    pub thumbnail_path: String,
    pub exe_path: String,
    pub exe_args: Vec<String>,
}

/// What a game holds.
pub struct GameView {
    pub name: Seq<char>,
    pub description: Seq<char>,
    pub genres: Seq<Seq<char>>,
    pub thumbnail_path: Seq<char>,
    pub exe_path: Seq<char>,
    pub exe_args: Seq<Seq<char>>,
}

impl View for Game {
    type V = GameView;

    open spec fn view(&self) -> GameView {
        GameView {
            name: self.name@,
            description: self.description@,
            genres: self.genres.deep_view(),
            thumbnail_path: self.thumbnail_path@,
            exe_path: self.exe_path@,
            exe_args: self.exe_args.deep_view(),
        }
    }
}

/// The part of a game that a listing shows.
#[derive(Debug, Clone, PartialEq)]
pub struct GameListing {
    pub name: String,
    pub description: String,
    pub genres: Vec<String>,
    pub thumbnail_path: String,
}

/// What a listing holds of one game.
pub struct GameListingView {
    pub name: Seq<char>,
    pub description: Seq<char>,
    pub genres: Seq<Seq<char>>,
    pub thumbnail_path: Seq<char>,
}

impl View for GameListing {
    type V = GameListingView;

    open spec fn view(&self) -> GameListingView {
        GameListingView {
            name: self.name@,
            description: self.description@,
            genres: self.genres.deep_view(),
            thumbnail_path: self.thumbnail_path@,
        }
    }
}

/// The listed part of a game: every field but the executable and its
/// arguments, each as the game has it.
pub open spec fn listed(game: GameView) -> GameListingView {
    GameListingView {
        name: game.name,
        description: game.description,
        genres: game.genres,
        thumbnail_path: game.thumbnail_path,
    }
}

/// The JSON object of a listed game, given the JSON texts of its four
/// fields.
pub open spec fn game_object(
    name: Seq<char>,
    description: Seq<char>,
    genres: Seq<char>,
    thumbnail_path: Seq<char>,
) -> Seq<char> {
    "{\"name\":"@ + name + ",\"description\":"@ + description + ",\"genres\":"@ + genres
        + ",\"thumbnail_path\":"@ + thumbnail_path + "}"@
}

/// The JSON object of a listed game: the members `name`, `description`,
/// `genres` and `thumbnail_path`, in that order, and no other.
pub open spec fn game_json(game: GameListingView) -> Seq<char> {
    game_object(
        json_string(game.name),
        json_string(game.description),
        array(json_strings(game.genres)),
        json_string(game.thumbnail_path),
    )
}

/// The JSON object of a listed game, given the JSON texts of its four
/// fields.
pub fn game_object_text(name: &str, description: &str, genres: &str, thumbnail_path: &str) -> (text:
    String)
    ensures
        text@ == game_object(name@, description@, genres@, thumbnail_path@),
{
    let mut text: String = String::from_str("{\"name\":");
    text.append(name);
    text.append(",\"description\":");
    text.append(description);
    text.append(",\"genres\":");
    text.append(genres);
    text.append(",\"thumbnail_path\":");
    text.append(thumbnail_path);
    text.append("}");
    text
}

impl Game {
    /// The path of the game's executable.
    pub fn exe_path(&self) -> (path: String)
        ensures
            path@ == self@.exe_path,
    {
        self.exe_path.clone()
    }

    /// The arguments the executable is started with, in order.
    pub fn exe_args(&self) -> (args: Vec<String>)
        ensures
            args.deep_view() == self@.exe_args,
    {
        copy_texts(&self.exe_args)
    }

    /// A copy of the game.
    pub fn duplicate(&self) -> (copy: Game)
        ensures
            copy@ == self@,
    {
        Game {
            name: self.name.clone(),
            description: self.description.clone(),
            genres: copy_texts(&self.genres),
            thumbnail_path: self.thumbnail_path.clone(),
            exe_path: self.exe_path.clone(),
            exe_args: copy_texts(&self.exe_args),
        }
    }

    /// The part of the game that a listing shows.
    pub fn listing(&self) -> (shown: GameListing)
        ensures
            shown@ == listed(self@),
    {
        GameListing {
            name: self.name.clone(),
            description: self.description.clone(),
            genres: copy_texts(&self.genres),
            thumbnail_path: self.thumbnail_path.clone(),
        }
    }
}

impl GameListing {
    /// The listing as a JSON object with the members `name`, `description`,
    /// `genres` and `thumbnail_path`, in that order.
    pub fn to_json(&self) -> (text: String)
        ensures
            text@ == game_json(self@),
    {
        let name: String = quote(self.name.as_str());
        let description: String = quote(self.description.as_str());
        let genres: String = array_text(&quote_all(&self.genres));
        let thumbnail_path: String = quote(self.thumbnail_path.as_str());
        game_object_text(
            name.as_str(),
            description.as_str(),
            genres.as_str(),
            thumbnail_path.as_str(),
        )
    }
}

} // verus!
