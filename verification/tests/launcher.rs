use arclightning_backend::catalog::GameCatalog;
use arclightning_backend::error::PanelError;
use arclightning_backend::game::Game;
use arclightning_backend::launcher::{launch_outcome, plan, start, LaunchPlan};

fn game(exe_path: &str, exe_args: &[&str]) -> Game {
    Game {
        name: "Touhou".to_owned(),
        description: "bullet hell with waifus".to_owned(),
        genres: vec!["bullet hell".to_owned()],
        thumbnail_path: "thumbnail".to_owned(),
        exe_path: exe_path.to_owned(),
        exe_args: exe_args.iter().map(|a| (*a).to_owned()).collect(),
    }
}

fn catalog() -> GameCatalog {
    let mut games = GameCatalog::new();
    games.insert("touhou_123".to_owned(), game("games/touhou/th06.exe", &["arg1", "arg2"]));
    games.insert("bare".to_owned(), game("th07.exe", &[]));
    games.insert("rootless".to_owned(), game("", &["x"]));
    games
}

#[test]
fn start_plans_from_the_catalog_entry() {
    assert_eq!(
        start("touhou_123", &catalog()),
        Ok(LaunchPlan {
            program: "games/touhou/th06.exe".to_owned(),
            working_dir: "games/touhou".to_owned(),
            args: vec!["arg1".to_owned(), "arg2".to_owned()],
        })
    );
}

#[test]
fn start_in_the_current_directory() {
    assert_eq!(
        start("bare", &catalog()),
        Ok(LaunchPlan { program: "th07.exe".to_owned(), working_dir: "".to_owned(), args: vec![] })
    );
}

#[test]
fn start_fails_for_an_unknown_identifier() {
    assert_eq!(start("absent", &catalog()), Err(PanelError::GameNotFound));
    assert_eq!(start("", &catalog()), Err(PanelError::GameNotFound));
    assert_eq!(start("games/touhou/th06.exe", &catalog()), Err(PanelError::GameNotFound));
    assert_eq!(start("touhou_123", &GameCatalog::new()), Err(PanelError::GameNotFound));
}

#[test]
fn start_fails_without_a_parent_directory() {
    assert_eq!(
        start("rootless", &catalog()),
        Err(PanelError::LaunchFailed("the executable has no parent directory".to_owned()))
    );
}

#[test]
fn start_does_not_take_paths_from_the_identifier() {
    let mut games = GameCatalog::new();
    games.insert("/bin/sh".to_owned(), game("games/touhou/th06.exe", &["arg1"]));
    games.insert("../../etc".to_owned(), game("games/touhou/th06.exe", &["arg1"]));
    let expected = LaunchPlan {
        program: "games/touhou/th06.exe".to_owned(),
        working_dir: "games/touhou".to_owned(),
        args: vec!["arg1".to_owned()],
    };
    assert_eq!(start("/bin/sh", &games), Ok(expected.clone()));
    assert_eq!(start("../../etc", &games), Ok(expected));
}

#[test]
fn start_gives_the_same_plan_each_time() {
    assert_eq!(start("touhou_123", &catalog()), start("touhou_123", &catalog()));
    assert_eq!(start("bare", &catalog()), start("bare", &catalog()));
}

#[test]
fn plan_takes_the_directory_it_is_given() {
    let touhou = game("games/touhou/th06.exe", &["arg1"]);
    assert_eq!(
        plan(&touhou, Some("elsewhere".to_owned())),
        Ok(LaunchPlan {
            program: "games/touhou/th06.exe".to_owned(),
            working_dir: "elsewhere".to_owned(),
            args: vec!["arg1".to_owned()],
        })
    );
    assert_eq!(
        plan(&touhou, None),
        Err(PanelError::LaunchFailed("the executable has no parent directory".to_owned()))
    );
}

#[test]
fn launch_outcome_keeps_the_refusal() {
    assert_eq!(launch_outcome(None), Ok(()));
    assert_eq!(
        launch_outcome(Some("Permission denied (os error 13)".to_owned())),
        Err(PanelError::LaunchFailed("Permission denied (os error 13)".to_owned()))
    );
}
