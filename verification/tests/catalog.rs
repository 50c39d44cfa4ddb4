use arclightning_backend::catalog::{listing_text, GameCatalog};
use arclightning_backend::game::{game_object_text, Game, GameListing};
use arclightning_backend::json::{array_text, join, member_text, object_text, quote, quote_all};

fn touhou() -> Game {
    Game {
        name: "Touhou".to_owned(),
        description: "bullet hell with waifus".to_owned(),
        genres: vec!["bullet hell".to_owned(), "anime".to_owned()],
        thumbnail_path: r"path\to\touhou\thumbnail".to_owned(),
        exe_path: r"test_files\touhou_game.exe".to_owned(),
        exe_args: vec!["arg1".to_owned(), "arg2".to_owned()],
    }
}

fn melty_blood() -> Game {
    Game {
        name: "Melty Blood".to_owned(),
        description: "fighter with waifus".to_owned(),
        genres: vec!["fighter".to_owned(), "anime".to_owned(), "2d".to_owned()],
        thumbnail_path: r"path\to\melty_blood\thumbnail".to_owned(),
        exe_path: r"test_files\melty_blood_game.exe".to_owned(),
        exe_args: vec!["arg1".to_owned(), "arg2".to_owned()],
    }
}

fn two_games() -> GameCatalog {
    let mut games = GameCatalog::new();
    assert_eq!(games.insert("touhou_123".to_owned(), touhou()), None);
    assert_eq!(games.insert("melty_blood".to_owned(), melty_blood()), None);
    games
}

#[test]
fn a_new_catalog_is_empty() {
    let games = GameCatalog::new();
    assert_eq!(games.len(), 0);
    assert!(games.entries().is_empty());
    assert!(games.lookup("touhou_123").is_none());
    assert!(!games.contains("touhou_123"));
    assert!(games.list().is_empty());
    assert_eq!(games.to_json(), "{}");
}

#[test]
fn lookup_finds_what_was_inserted() {
    let games = two_games();
    assert_eq!(games.len(), 2);
    assert_eq!(games.lookup("touhou_123"), Some(&touhou()));
    assert_eq!(games.lookup("melty_blood"), Some(&melty_blood()));
    assert!(games.contains("touhou_123"));
    assert!(games.contains("melty_blood"));
}

#[test]
fn lookup_takes_the_identifier_exactly() {
    let games = two_games();
    assert_eq!(games.lookup("touhou"), None);
    assert_eq!(games.lookup("touhou_1234"), None);
    assert_eq!(games.lookup("Touhou_123"), None);
    assert_eq!(games.lookup(""), None);
    assert_eq!(games.lookup("Touhou"), None);
    assert!(!games.contains("test_files\\touhou_game.exe"));
}

#[test]
fn insert_replaces_the_game_under_a_known_identifier() {
    let mut games = two_games();
    let replaced = games.insert("touhou_123".to_owned(), melty_blood());
    assert_eq!(replaced, Some(touhou()));
    assert_eq!(games.len(), 2);
    assert_eq!(games.lookup("touhou_123"), Some(&melty_blood()));
    assert_eq!(games.lookup("melty_blood"), Some(&melty_blood()));
    // The entry kept its place.
    assert_eq!(games.entries()[0].id, "touhou_123");
    assert_eq!(games.entries()[1].id, "melty_blood");
}

#[test]
fn insert_replaces_the_last_entry_in_place() {
    let mut games = two_games();
    let replaced = games.insert("melty_blood".to_owned(), touhou());
    assert_eq!(replaced, Some(melty_blood()));
    assert_eq!(games.len(), 2);
    assert_eq!(games.entries()[0].id, "touhou_123");
    assert_eq!(games.entries()[0].game, touhou());
    assert_eq!(games.entries()[1].id, "melty_blood");
    assert_eq!(games.entries()[1].game, touhou());
}

#[test]
fn identifiers_stay_unique() {
    let mut games = GameCatalog::new();
    for _ in 0..5 {
        games.insert("a".to_owned(), touhou());
        games.insert("b".to_owned(), melty_blood());
    }
    assert_eq!(games.len(), 2);
    let ids: Vec<String> = games.entries().iter().map(|e| e.id.clone()).collect();
    assert_eq!(ids, vec!["a".to_owned(), "b".to_owned()]);
}

#[test]
fn getters_give_the_launch_fields() {
    let game = touhou();
    assert_eq!(game.exe_path(), r"test_files\touhou_game.exe");
    assert_eq!(game.exe_args(), vec!["arg1".to_owned(), "arg2".to_owned()]);
    assert_eq!(game.duplicate(), game);
}

#[test]
fn listing_keeps_the_four_shown_fields() {
    let shown = touhou().listing();
    assert_eq!(
        shown,
        GameListing {
            name: "Touhou".to_owned(),
            description: "bullet hell with waifus".to_owned(),
            genres: vec!["bullet hell".to_owned(), "anime".to_owned()],
            thumbnail_path: r"path\to\touhou\thumbnail".to_owned(),
        }
    );
}

#[test]
fn list_follows_the_catalog() {
    let list = two_games().list();
    assert_eq!(list.len(), 2);
    assert_eq!(list[0].0, "touhou_123");
    assert_eq!(list[0].1, touhou().listing());
    assert_eq!(list[1].0, "melty_blood");
    assert_eq!(list[1].1, melty_blood().listing());
}

#[test]
fn game_listing_json_is_exact() {
    let json = touhou().listing().to_json();
    assert_eq!(
        json,
        "{\"name\":\"Touhou\",\
         \"description\":\"bullet hell with waifus\",\
         \"genres\":[\"bullet hell\",\"anime\"],\
         \"thumbnail_path\":\"path\\\\to\\\\touhou\\\\thumbnail\"}"
    );
    let json = melty_blood().listing().to_json();
    assert_eq!(
        json,
        "{\"name\":\"Melty Blood\",\
         \"description\":\"fighter with waifus\",\
         \"genres\":[\"fighter\",\"anime\",\"2d\"],\
         \"thumbnail_path\":\"path\\\\to\\\\melty_blood\\\\thumbnail\"}"
    );
}

#[test]
fn catalog_json_is_exact() {
    let mut games = GameCatalog::new();
    games.insert("touhou_123".to_owned(), touhou());
    assert_eq!(
        games.to_json(),
        "{\"touhou_123\":{\"name\":\"Touhou\",\
         \"description\":\"bullet hell with waifus\",\
         \"genres\":[\"bullet hell\",\"anime\"],\
         \"thumbnail_path\":\"path\\\\to\\\\touhou\\\\thumbnail\"}}"
    );
    games.insert("melty_blood".to_owned(), melty_blood());
    let json = games.to_json();
    assert!(json.starts_with("{\"touhou_123\":{\"name\":\"Touhou\","));
    assert!(json.contains("},\"melty_blood\":{\"name\":\"Melty Blood\","));
    assert!(json.ends_with("\"thumbnail_path\":\"path\\\\to\\\\melty_blood\\\\thumbnail\"}}"));
}

#[test]
fn catalog_json_never_shows_the_launch_fields() {
    let json = two_games().to_json();
    assert!(!json.contains("exe_path"));
    assert!(!json.contains("exe_args"));
    assert!(!json.contains("touhou_game.exe"));
    assert!(!json.contains("arg1"));
    let parsed: serde_json::Value = serde_json::from_str(&json).unwrap();
    let object = parsed.as_object().unwrap();
    assert_eq!(object.len(), 2);
    for (_, game) in object.iter() {
        let game = game.as_object().unwrap();
        let mut keys: Vec<&str> = game.keys().map(|k| k.as_str()).collect();
        keys.sort();
        assert_eq!(keys, vec!["description", "genres", "name", "thumbnail_path"]);
    }
}

#[test]
fn catalog_json_reads_back_field_for_field() {
    let games = two_games();
    let parsed: serde_json::Value = serde_json::from_str(&games.to_json()).unwrap();
    for entry in games.entries().iter() {
        let shown = parsed.get(entry.id.as_str()).unwrap();
        assert_eq!(shown.get("name").unwrap().as_str().unwrap(), entry.game.name);
        assert_eq!(shown.get("description").unwrap().as_str().unwrap(), entry.game.description);
        assert_eq!(
            shown.get("thumbnail_path").unwrap().as_str().unwrap(),
            entry.game.thumbnail_path
        );
        let genres: Vec<String> = shown
            .get("genres")
            .unwrap()
            .as_array()
            .unwrap()
            .iter()
            .map(|g| g.as_str().unwrap().to_owned())
            .collect();
        assert_eq!(genres, entry.game.genres);
        assert!(shown.get("exe_path").is_none());
        assert!(shown.get("exe_args").is_none());
    }
}

#[test]
fn catalog_json_does_not_depend_on_the_launch_fields() {
    let mut plain = GameCatalog::new();
    plain.insert("touhou_123".to_owned(), touhou());
    let mut other = GameCatalog::new();
    let mut game = touhou();
    game.exe_path = "/somewhere/else".to_owned();
    game.exe_args = vec!["--windowed".to_owned()];
    other.insert("touhou_123".to_owned(), game);
    assert_eq!(plain.to_json(), other.to_json());
    assert_eq!(plain.list(), other.list());
}

#[test]
fn json_escapes_what_needs_escaping() {
    let mut games = GameCatalog::new();
    let mut game = touhou();
    game.name = "He said \"hi\"\n".to_owned();
    game.genres = vec![];
    game.description = "tab\there, exe_path".to_owned();
    games.insert("id \"1\"".to_owned(), game);
    let json = games.to_json();
    assert_eq!(
        json,
        "{\"id \\\"1\\\"\":{\"name\":\"He said \\\"hi\\\"\\n\",\
         \"description\":\"tab\\there, exe_path\",\
         \"genres\":[],\
         \"thumbnail_path\":\"path\\\\to\\\\touhou\\\\thumbnail\"}}"
    );
    let parsed: serde_json::Value = serde_json::from_str(&json).unwrap();
    let shown = parsed.get("id \"1\"").unwrap();
    assert_eq!(shown.get("name").unwrap().as_str().unwrap(), "He said \"hi\"\n");
    assert!(shown.get("exe_path").is_none());
}

#[test]
fn quote_writes_a_json_string_literal() {
    assert_eq!(quote(""), "\"\"");
    assert_eq!(quote("Touhou"), "\"Touhou\"");
    assert_eq!(quote("a\"b\\c"), "\"a\\\"b\\\\c\"");
    assert_eq!(quote("line\nbreak"), "\"line\\nbreak\"");
    assert_eq!(quote("\u{1}"), "\"\\u0001\"");
    assert_eq!(quote("\u{7f}\u{0}"), "\"\u{7f}\\u0000\"");
    assert_eq!(quote("東方"), "\"東方\"");
}

#[test]
fn quote_all_keeps_the_order() {
    assert_eq!(quote_all(&vec![]), Vec::<String>::new());
    assert_eq!(
        quote_all(&vec!["b".to_owned(), "a".to_owned(), "b".to_owned()]),
        vec!["\"b\"".to_owned(), "\"a\"".to_owned(), "\"b\"".to_owned()]
    );
}

#[test]
fn join_puts_commas_between() {
    assert_eq!(join(&vec![]), "");
    assert_eq!(join(&vec!["1".to_owned()]), "1");
    assert_eq!(join(&vec!["1".to_owned(), "2".to_owned()]), "1,2");
    assert_eq!(join(&vec!["".to_owned(), "".to_owned(), "x".to_owned()]), ",,x");
}

#[test]
fn arrays_objects_and_members() {
    assert_eq!(array_text(&vec![]), "[]");
    assert_eq!(array_text(&vec!["1".to_owned(), "\"a\"".to_owned()]), "[1,\"a\"]");
    assert_eq!(object_text(&vec![]), "{}");
    assert_eq!(member_text("\"k\"", "1"), "\"k\":1");
    assert_eq!(
        object_text(&vec![member_text("\"k\"", "1"), member_text("\"l\"", "[]")]),
        "{\"k\":1,\"l\":[]}"
    );
}

#[test]
fn game_object_text_frames_the_four_members() {
    assert_eq!(
        game_object_text("\"n\"", "\"d\"", "[\"g\"]", "\"t\""),
        "{\"name\":\"n\",\"description\":\"d\",\"genres\":[\"g\"],\"thumbnail_path\":\"t\"}"
    );
}

#[test]
fn listing_text_of_a_given_list() {
    assert_eq!(listing_text(&vec![]), "{}");
    let list = vec![
        ("b".to_owned(), touhou().listing()),
        ("a".to_owned(), touhou().listing()),
    ];
    let json = listing_text(&list);
    let touhou_json = touhou().listing().to_json();
    assert_eq!(json, format!("{{\"b\":{},\"a\":{}}}", touhou_json, touhou_json));
}
