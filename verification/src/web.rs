//! The account router: the endpoints of the sign-in service, by method and
//! path.

use crate::catalog::{CatalogView, GameCatalog};
use crate::http::{not_found, Method, Response};
use crate::text::same_text;
use vstd::prelude::*;

verus! {

/// The handlers of the account router.
#[derive(Debug, Clone, Copy, PartialEq, Eq, Structural)]
pub enum WebEndpoint {
    Register,
    Signin,
    CheckIn,
    CheckOut,
    CheckSettings,
    /// Answers that there is no such endpoint.
    Invalid,
}

/// The handler for a method and a path: each of the five endpoints takes
/// `POST` on its own path, and nothing else exists.
pub open spec fn web_endpoint_for(method: Method, path: Seq<char>) -> WebEndpoint {
    if method != Method::Post {
        WebEndpoint::Invalid
    } else if path == "/api/v1/register"@ {
        WebEndpoint::Register
    } else if path == "/api/v1/signin"@ {
        WebEndpoint::Signin
    } else if path == "/api/v1/check_in"@ {
        WebEndpoint::CheckIn
    } else if path == "/api/v1/check_out"@ {
        WebEndpoint::CheckOut
    } else if path == "/api/v1/check_settings"@ {
        WebEndpoint::CheckSettings
    } else {
        WebEndpoint::Invalid
    }
}

/// The account router, over the list of games.
#[derive(Debug)]
pub struct WebRouter {
    games_list: GameCatalog,
}

impl View for WebRouter {
    type V = CatalogView;

    closed spec fn view(&self) -> CatalogView {
        self.games_list@
    }
}

impl WebRouter {
    /// A router over `games_list`.
    pub fn new(games_list: GameCatalog) -> (router: Self)
        ensures
            router@ == games_list@,
    {
        WebRouter { games_list }
    }

    /// The list of games.
    pub fn games_list(&self) -> (games: &GameCatalog)
        ensures
            games@ == self@,
    {
        &self.games_list
    }

    /// The handler for a request, by its method and its path.
    pub fn route(&self, method: Method, path: &str) -> (endpoint: WebEndpoint)
        ensures
            endpoint == web_endpoint_for(method, path@),
    {
        if method != Method::Post {
            WebEndpoint::Invalid
        } else if same_text(path, "/api/v1/register") {
            WebEndpoint::Register
        } else if same_text(path, "/api/v1/signin") {
            WebEndpoint::Signin
        } else if same_text(path, "/api/v1/check_in") {
            WebEndpoint::CheckIn
        } else if same_text(path, "/api/v1/check_out") {
            WebEndpoint::CheckOut
        } else if same_text(path, "/api/v1/check_settings") {
            WebEndpoint::CheckSettings
        } else {
            WebEndpoint::Invalid
        }
    }

    /// The answer to a request for no endpoint: 404.
    pub fn invalid_endpoint(&self) -> (response: Response)
        ensures
            response@ == not_found(),
    {
        Response::not_found()
    }
}

} // verus!
