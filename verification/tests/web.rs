use arclightning_backend::catalog::GameCatalog;
use arclightning_backend::error::PanelError;
use arclightning_backend::game::Game;
use arclightning_backend::http::{Method, Response};
use arclightning_backend::splash::select_random_image;
use arclightning_backend::web::{WebEndpoint, WebRouter};

fn games() -> GameCatalog {
    let mut games = GameCatalog::new();
    games.insert(
        "touhou_123".to_owned(),
        Game {
            name: "Touhou".to_owned(),
            description: String::new(),
            genres: vec![],
            thumbnail_path: String::new(),
            exe_path: "th06.exe".to_owned(),
            exe_args: vec![],
        },
    );
    games
}

#[test]
fn web_router_keeps_its_games() {
    let router = WebRouter::new(games());
    assert_eq!(router.games_list(), &games());
}

#[test]
fn web_router_routes_the_five_endpoints() {
    let router = WebRouter::new(games());
    assert_eq!(router.route(Method::Post, "/api/v1/register"), WebEndpoint::Register);
    assert_eq!(router.route(Method::Post, "/api/v1/signin"), WebEndpoint::Signin);
    assert_eq!(router.route(Method::Post, "/api/v1/check_in"), WebEndpoint::CheckIn);
    assert_eq!(router.route(Method::Post, "/api/v1/check_out"), WebEndpoint::CheckOut);
    assert_eq!(router.route(Method::Post, "/api/v1/check_settings"), WebEndpoint::CheckSettings);
}

#[test]
fn web_router_knows_nothing_else() {
    let router = WebRouter::new(games());
    assert_eq!(router.route(Method::Get, "/api/v1/register"), WebEndpoint::Invalid);
    assert_eq!(router.route(Method::Other, "/api/v1/signin"), WebEndpoint::Invalid);
    assert_eq!(router.route(Method::Post, "/api/v1/list_games"), WebEndpoint::Invalid);
    assert_eq!(router.route(Method::Post, "/api/v1/register/"), WebEndpoint::Invalid);
    assert_eq!(router.route(Method::Post, "/"), WebEndpoint::Invalid);
    assert_eq!(router.route(Method::Get, "/"), WebEndpoint::Invalid);
}

#[test]
fn web_router_answers_404() {
    let router = WebRouter::new(GameCatalog::new());
    assert_eq!(
        router.invalid_endpoint(),
        Response { status: 404, headers: vec![], body: "uwu 404 not foundu hiss".to_owned() }
    );
}

#[test]
fn select_random_image_picks_one_of_the_images() {
    let images = vec!["a.png".to_owned(), "b.png".to_owned(), "c.png".to_owned()];
    let mut seen = [false; 3];
    for _ in 0..200 {
        let chosen = select_random_image(&images).unwrap();
        let at = images.iter().position(|i| *i == chosen).unwrap();
        seen[at] = true;
    }
    assert_eq!(seen, [true; 3]);
}

#[test]
fn select_random_image_of_one_or_none() {
    assert_eq!(select_random_image(&vec![]), None);
    assert_eq!(select_random_image(&vec!["only.png".to_owned()]), Some("only.png".to_owned()));
}

#[test]
fn each_failure_has_its_status() {
    assert_eq!(PanelError::Unauthorized.status(), 403);
    assert_eq!(PanelError::GameNotFound.status(), 500);
    assert_eq!(PanelError::LaunchFailed("x".to_owned()).status(), 500);
    assert_eq!(PanelError::LockFailure.status(), 500);
    assert_eq!(PanelError::SerializationFailure.status(), 500);
    assert_eq!(PanelError::MalformedRequestBody.status(), 500);
    assert_eq!(PanelError::MalformedHash.status(), 500);
    assert_eq!(PanelError::HashingFailed.status(), 500);
}

#[test]
fn failures_are_answered_without_detail() {
    assert_eq!(Response::failure(&PanelError::Unauthorized), Response::forbidden());
    for e in [
        PanelError::GameNotFound,
        PanelError::LaunchFailed("/secret/path: permission denied".to_owned()),
        PanelError::LockFailure,
        PanelError::SerializationFailure,
        PanelError::MalformedRequestBody,
        PanelError::MalformedHash,
        PanelError::HashingFailed,
    ] {
        let response = Response::failure(&e);
        assert_eq!(response.status, e.status());
        assert_eq!(response.body, "Internal server error");
        assert!(response.headers.is_empty());
    }
}

#[test]
fn listing_response_carries_the_text() {
    let response = Response::listing("{}".to_owned());
    assert_eq!(response.status, 200);
    assert_eq!(response.body, "{}");
    assert_eq!(response.headers.len(), 1);
    assert_eq!(response.headers[0].name, "content-type");
    assert_eq!(response.headers[0].value, "application/json");
    assert_eq!(Response::listing("{\"a\":1}".to_owned()).body, "{\"a\":1}");
}

#[test]
fn login_response_carries_the_token_twice() {
    let yes = Response::login(true, "abc");
    assert_eq!(yes.status, 200);
    assert_eq!(yes.body, "{\"success\":true}");
    assert_eq!(yes.headers[0].name, "set-cookie");
    assert_eq!(yes.headers[0].value, "abc");
    assert_eq!(yes.headers[1].name, "sam-token");
    assert_eq!(yes.headers[1].value, "abc");
    let no = Response::login(false, "abc");
    assert_eq!(no.status, 200);
    assert_eq!(no.body, "{\"success\":false}");
    assert_eq!(no.headers, yes.headers);
}
