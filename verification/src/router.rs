//! The request router: which handler answers a request, and what each
//! handler answers.

use crate::catalog::{game_of, has_id, listing_json, listing_of, CatalogView, GameCatalog};
use crate::config::Config;
use crate::cookie::{cookie_round_trip, cookie_value, session_cookie};
use crate::error::PanelError;
use crate::http::{
    failure, forbidden, internal_error, listing, login, starting, Method, Response,
    ResponseView, OK,
};
use crate::launcher::{path_parent, plan_for, start, LaunchPlan};
use crate::hexcode::is_hex_digit;
use crate::password::{bcrypt_verdict, verify};
use crate::session::{after_issue, validates, AccessKeyView, SessionStore};
use crate::static_files::{resolve, target_for, StaticTarget, StaticTargetView};
use crate::text::{same_text, text_of};
use crate::token::{is_session_token, new_session_token, session_token_shape};
use vstd::prelude::*;

verus! {

/// The body of a request to start a game.
#[derive(Debug, Clone, PartialEq)]
pub struct StartGameRequest {
    pub id: String,
}

/// The body of a request to check a password.
#[derive(Debug, Clone, PartialEq)]
pub struct PasswordRequest {
    pub password: String,
}

/// The handlers a request can be dispatched to.
#[derive(Debug, Clone, Copy, PartialEq, Eq, Structural)]
pub enum Endpoint {
    /// Lists the catalog.
    ListGames,
    /// Starts a game.
    StartGame,
    /// Checks a password and opens a session.
    CheckPassword,
    /// Turns an API request away for want of the current session.
    ApiFail,
    /// Serves a static file.
    StaticFile,
    /// Answers that there is no such endpoint.
    Invalid,
}

/// The body of a request, as far as the router reads it.
#[derive(Debug, Clone, PartialEq)]
pub enum Body {
    /// No body was read.
    Unread,
    /// The body of a request to start a game.
    StartGame(StartGameRequest),
    /// The body of a request to check a password.
    Password(PasswordRequest),
    /// The body is not the JSON document that the endpoint takes.
    Malformed,
}

/// A request, as far as the router reads it: the method, the path, the
/// `Cookie` header where there is one, and the body.
#[derive(Debug, Clone, PartialEq)]
pub struct Request {
    pub method: Method,
    pub path: String,
    pub cookie: Option<String>,
    pub body: Body,
}

/// What the router wants done about a request.
#[derive(Debug, Clone, PartialEq)]
pub enum Action {
    /// Send this response.
    Respond(Response),
    /// Start this executable, then answer with `Router::after_launch`.
    Launch(LaunchPlan),
    /// Send this static file.
    Serve(StaticTarget),
}

/// The handler for a method and a path, given whether the request is
/// authorized. The two catalog endpoints ask for authorization, the
/// password check does not, every other `GET` goes to the static files,
/// and nothing else exists.
pub open spec fn endpoint_for(method: Method, path: Seq<char>, authorized: bool) -> Endpoint {
    if method == Method::Get && path == "/api/v1/list_games"@ {
        if authorized {
            Endpoint::ListGames
        } else {
            Endpoint::ApiFail
        }
    } else if method == Method::Post && path == "/api/v1/start_game"@ {
        if authorized {
            Endpoint::StartGame
        } else {
            Endpoint::ApiFail
        }
    } else if method == Method::Post && path == "/api/v1/check_password"@ {
        Endpoint::CheckPassword
    } else if method == Method::Get {
        Endpoint::StaticFile
    } else {
        Endpoint::Invalid
    }
}

/// What checking a `Cookie` header gives: whether the cookie value is the
/// current token, or `Unauthorized` where there is no header or no value
/// in it.
pub open spec fn header_check(session: Option<AccessKeyView>, cookie: Option<Seq<char>>) -> Result<
    bool,
    PanelError,
> {
    match cookie {
        Some(header) => match cookie_value(header) {
            Some(value) => Ok(validates(session, value)),
            None => Err(PanelError::Unauthorized),
        },
        None => Err(PanelError::Unauthorized),
    }
}

/// Whether a request with the given `Cookie` header is authorized: only
/// if the header carries the current token.
pub open spec fn authorizes(session: Option<AccessKeyView>, cookie: Option<Seq<char>>) -> bool {
    header_check(session, cookie) == Ok::<bool, PanelError>(true)
}

/// The request to start a game that a body holds; any other body is
/// malformed.
pub open spec fn start_request(body: Body) -> Result<StartGameRequest, PanelError> {
    match body {
        Body::StartGame(request) => Ok(request),
        _ => Err(PanelError::MalformedRequestBody),
    }
}

/// The request to check a password that a body holds; any other body is
/// malformed.
pub open spec fn password_request(body: Body) -> Result<PasswordRequest, PanelError> {
    match body {
        Body::Password(request) => Ok(request),
        _ => Err(PanelError::MalformedRequestBody),
    }
}

impl Body {
    /// The request to start a game that the body holds, or
    /// `MalformedRequestBody`.
    pub fn into_start_request(self) -> (request: Result<StartGameRequest, PanelError>)
        ensures
            request == start_request(self),
    {
        match self {
            Body::StartGame(request) => Ok(request),
            _ => Err(PanelError::MalformedRequestBody),
        }
    }

    /// The request to check a password that the body holds, or
    /// `MalformedRequestBody`.
    pub fn into_password_request(self) -> (request: Result<PasswordRequest, PanelError>)
        ensures
            request == password_request(self),
    {
        match self {
            Body::Password(request) => Ok(request),
            _ => Err(PanelError::MalformedRequestBody),
        }
    }
}

/// The decision on a request to start a game. A launch is planned for an
/// identifier of the catalog whose executable has a parent directory, and
/// then the plan is the catalog's: its executable, started in that
/// directory, with its arguments. Everything else is turned down with
/// status 500, and a body that could not be read with the answer to its
/// failure.
pub open spec fn start_decided(
    games: CatalogView,
    request: Result<StartGameRequest, PanelError>,
    decision: Action,
) -> bool {
    match request {
        Ok(body) => if !has_id(games, body.id@) {
            decision matches Action::Respond(response) && response@ == internal_error()
        } else {
            match path_parent(game_of(games, body.id@).exe_path) {
                Some(dir) => decision matches Action::Launch(p) && p@ == plan_for(
                    game_of(games, body.id@),
                    dir,
                ),
                None => decision matches Action::Respond(response) && response@
                    == internal_error(),
            }
        },
        Err(e) => decision matches Action::Respond(response) && response@ == failure(e),
    }
}

/// What holds of a password check: the answer, and the session it leaves.
/// The token of the answer is the first header's value.
pub open spec fn password_checked(
    before: Option<AccessKeyView>,
    stored_hash: Seq<char>,
    request: Result<PasswordRequest, PanelError>,
    now: u64,
    response: ResponseView,
    after: Option<AccessKeyView>,
) -> bool {
    match request {
        Ok(body) => match bcrypt_verdict(body.password@, stored_hash) {
            Some(matches) => {
                &&& response.headers.len() == 2
                &&& is_session_token(response.headers[0].1)
                &&& response == login(matches, response.headers[0].1)
                &&& after == if matches {
                    after_issue(before, response.headers[0].1, now)
                } else {
                    before
                }
                &&& matches ==> validates(after, response.headers[0].1)
            },
            None => response == internal_error() && after == before,
        },
        Err(e) => response == failure(e) && after == before,
    }
}

/// The text of an optional header.
pub open spec fn header_text(cookie: Option<&str>) -> Option<Seq<char>> {
    match cookie {
        Some(header) => Some(header@),
        None => None,
    }
}

/// The session that a login attempt leaves: the new token's session where
/// the password matched, the earlier state otherwise.
pub open spec fn session_after_login(
    before: Option<AccessKeyView>,
    verdict: Result<bool, PanelError>,
    token: Seq<char>,
    now: u64,
) -> Option<AccessKeyView> {
    if verdict == Ok::<bool, PanelError>(true) {
        after_issue(before, token, now)
    } else {
        before
    }
}

/// A request that presents a session token, as the value of a cookie of any
/// name, is authorized right after that token was issued.
pub proof fn issued_cookie_authorizes(
    before: Option<AccessKeyView>,
    name: Seq<char>,
    token: Seq<char>,
    now: u64,
)
    requires
        is_session_token(token),
        !name.contains('='),
    ensures
        authorizes(after_issue(before, token, now), Some(name + seq!['='] + token)),
{
    session_token_shape(token);
    assert(!token.contains('=')) by {
        if token.contains('=') {
            let i = choose|i: int| 0 <= i < token.len() && token[i] == '=';
            assert(is_hex_digit(token[i]));
        }
    }
    cookie_round_trip(name, token);
}

/// A request that presents a session token right after it was issued
/// reaches the catalog: the listing with `GET`, the launch with `POST`.
pub proof fn issued_cookie_reaches_the_catalog(
    before: Option<AccessKeyView>,
    name: Seq<char>,
    token: Seq<char>,
    now: u64,
)
    requires
        is_session_token(token),
        !name.contains('='),
    ensures
        endpoint_for(
            Method::Get,
            "/api/v1/list_games"@,
            authorizes(after_issue(before, token, now), Some(name + seq!['='] + token)),
        ) == Endpoint::ListGames,
        endpoint_for(
            Method::Post,
            "/api/v1/start_game"@,
            authorizes(after_issue(before, token, now), Some(name + seq!['='] + token)),
        ) == Endpoint::StartGame,
{
    issued_cookie_authorizes(before, name, token, now);
    dispatch_table(Method::Get, name, true);
}

/// What is launched follows the catalog entry alone: two requests whose
/// identifiers stand for the same game are decided alike, whatever else
/// tells them apart.
pub proof fn launch_follows_the_catalog(
    games: CatalogView,
    one: StartGameRequest,
    other: StartGameRequest,
    decision: Action,
)
    requires
        has_id(games, one.id@),
        has_id(games, other.id@),
        game_of(games, one.id@) == game_of(games, other.id@),
        start_decided(games, Ok(one), decision),
    ensures
        start_decided(games, Ok(other), decision),
{
}

/// Without a session no request is authorized, whatever its cookie.
pub proof fn no_session_no_access(cookie: Option<Seq<char>>)
    ensures
        !authorizes(None, cookie),
{
}

/// The catalog endpoints are reached only by authorized requests: the
/// dispatch picks neither the listing nor the launch for any other.
pub proof fn catalog_needs_authorization(method: Method, path: Seq<char>)
    ensures
        endpoint_for(method, path, false) != Endpoint::ListGames,
        endpoint_for(method, path, false) != Endpoint::StartGame,
{
}

/// The dispatch table, row by row.
pub proof fn dispatch_table(method: Method, path: Seq<char>, authorized: bool)
    ensures
        endpoint_for(Method::Get, "/api/v1/list_games"@, true) == Endpoint::ListGames,
        endpoint_for(Method::Get, "/api/v1/list_games"@, false) == Endpoint::ApiFail,
        endpoint_for(Method::Post, "/api/v1/start_game"@, true) == Endpoint::StartGame,
        endpoint_for(Method::Post, "/api/v1/start_game"@, false) == Endpoint::ApiFail,
        endpoint_for(Method::Post, "/api/v1/check_password"@, authorized)
            == Endpoint::CheckPassword,
        path != "/api/v1/list_games"@ ==> endpoint_for(Method::Get, path, authorized)
            == Endpoint::StaticFile,
        path != "/api/v1/start_game"@ && path != "/api/v1/check_password"@ ==> endpoint_for(
            Method::Post,
            path,
            authorized,
        ) == Endpoint::Invalid,
        endpoint_for(Method::Other, path, authorized) == Endpoint::Invalid,
{
    reveal_strlit("/api/v1/list_games");
    reveal_strlit("/api/v1/start_game");
    reveal_strlit("/api/v1/check_password");
    assert("/api/v1/start_game"@.len() != "/api/v1/check_password"@.len());
}

/// The stored password hash reaches a client through the verdict alone:
/// what holds of a password check under one hash holds under every hash
/// that gives the same verdict on the password.
pub proof fn hash_is_not_echoed(
    before: Option<AccessKeyView>,
    stored_hash: Seq<char>,
    other_hash: Seq<char>,
    request: Result<PasswordRequest, PanelError>,
    now: u64,
    response: ResponseView,
    after: Option<AccessKeyView>,
)
    requires
        password_checked(before, stored_hash, request, now, response, after),
        request matches Ok(body) ==> bcrypt_verdict(body.password@, stored_hash)
            == bcrypt_verdict(body.password@, other_hash),
    ensures
        password_checked(before, other_hash, request, now, response, after),
{
}

/// Whether a checked header authorizes: only where the check went
/// through and found the current token. A check that failed, for whatever
/// reason, authorizes nothing.
pub fn grants(checked: &Result<bool, PanelError>) -> (yes: bool)
    ensures
        yes == (*checked == Ok::<bool, PanelError>(true)),
{
    match checked {
        Ok(valid) => *valid,
        Err(_) => false,
    }
}

/// The handler for a method, a path and an authorization.
pub fn dispatch(method: Method, path: &str, authorized: bool) -> (endpoint: Endpoint)
    ensures
        endpoint == endpoint_for(method, path@, authorized),
{
    if method == Method::Get && same_text(path, "/api/v1/list_games") {
        if authorized {
            Endpoint::ListGames
        } else {
            Endpoint::ApiFail
        }
    } else if method == Method::Post && same_text(path, "/api/v1/start_game") {
        if authorized {
            Endpoint::StartGame
        } else {
            Endpoint::ApiFail
        }
    } else if method == Method::Post && same_text(path, "/api/v1/check_password") {
        Endpoint::CheckPassword
    } else if method == Method::Get {
        Endpoint::StaticFile
    } else {
        Endpoint::Invalid
    }
}

/// The router: the catalog, the static root, the session store and the
/// stored password hash.
#[derive(Debug)]
pub struct Router {
    games: GameCatalog,
    static_dir: String,
    access_key: SessionStore,
    password: String,
}

/// What a router holds.
pub struct RouterView {
    pub games: CatalogView,
    pub static_dir: Seq<char>,
    pub session: Option<AccessKeyView>,
    pub password: Seq<char>,
}

impl View for Router {
    type V = RouterView;

    closed spec fn view(&self) -> RouterView {
        RouterView {
            games: self.games@,
            static_dir: self.static_dir@,
            session: self.access_key@,
            password: self.password@,
        }
    }
}

impl Router {
    /// A router over the configuration's catalog, static root and password
    /// hash, without a session. A configuration without a password gives an
    /// empty hash, which no password verifies against.
    pub fn new(config: Config) -> (router: Self)
        ensures
            router@.games == config.games@,
            router@.static_dir == config.static_dir@,
            router@.session is None,
            router@.password == match config.password {
                Some(hash) => hash@,
                None => Seq::<char>::empty(),
            },
    {
        Router {
            games: config.games,
            static_dir: config.static_dir,
            access_key: SessionStore::new(),
            password: match config.password {
                Some(hash) => hash,
                None => String::new(),
            },
        }
    }

    /// The catalog.
    pub fn games(&self) -> (games: &GameCatalog)
        ensures
            games@ == self@.games,
    {
        &self.games
    }

    /// The directory that static files are served from.
    pub fn static_dir(&self) -> (dir: &String)
        ensures
            dir@ == self@.static_dir,
    {
        &self.static_dir
    }

    /// The session store.
    pub fn sessions(&self) -> (store: &SessionStore)
        ensures
            store@ == self@.session,
    {
        &self.access_key
    }

    /// Checks the `Cookie` header of a request against the session store.
    pub fn check_header(&self, cookie: Option<&str>) -> (checked: Result<bool, PanelError>)
        ensures
            checked == header_check(self@.session, header_text(cookie)),
    {
        match cookie {
            Some(header) => match session_cookie(header) {
                Some(value) => Ok(self.access_key.validate(value.as_str())),
                None => Err(PanelError::Unauthorized),
            },
            None => Err(PanelError::Unauthorized),
        }
    }

    /// Whether a request with the given `Cookie` header is authorized. A
    /// header that cannot be checked authorizes nothing.
    pub fn authorized(&self, cookie: Option<&str>) -> (yes: bool)
        ensures
            yes == authorizes(self@.session, header_text(cookie)),
    {
        grants(&self.check_header(cookie))
    }

    /// The handler for a request, by its method, its path and its `Cookie`
    /// header.
    pub fn route(&self, method: Method, path: &str, cookie: Option<&str>) -> (endpoint: Endpoint)
        ensures
            endpoint == endpoint_for(
                method,
                path@,
                authorizes(self@.session, header_text(cookie)),
            ),
    {
        let correct_cookie: bool = self.authorized(cookie);
        dispatch(method, path, correct_cookie)
    }

    /// Turns an API request away: 403.
    pub fn api_fail(&self) -> (response: Response)
        ensures
            response@ == forbidden(),
    {
        Response::forbidden()
    }

    /// Lists the catalog as a JSON object keyed by game identifier. Each
    /// game shows its name, description, genres and thumbnail path, and
    /// neither its executable nor its arguments.
    pub fn list_games(&self) -> (response: Response)
        ensures
            response@ == listing(listing_json(listing_of(self@.games))),
            response@.status == OK,
    {
        Response::listing(self.games.to_json())
    }

    /// Decides on a request to start a game, given its parsed body or why
    /// there is none. A launch is planned for every identifier of the
    /// catalog whose executable has a parent directory, and only from what
    /// the catalog holds for it; everything else is turned down with a
    /// status other than 200.
    pub fn start_game(&self, request: Result<StartGameRequest, PanelError>) -> (decision: Action)
        ensures
            start_decided(self@.games, request, decision),
            request matches Ok(body) && !has_id(self@.games, body.id@) ==> (decision matches
                Action::Respond(response) && response@.status != OK),
    {
        match request {
            Ok(body) => Router::launch_or_refuse(start(body.id.as_str(), &self.games)),
            Err(e) => Action::Respond(Response::failure(&e)),
        }
    }

    /// Turns the outcome of planning a launch into a decision: the plan
    /// where there is one, the response to the failure otherwise.
    pub fn launch_or_refuse(planned: Result<LaunchPlan, PanelError>) -> (decision: Action)
        ensures
            match planned {
                Ok(p) => decision == Action::Launch(p),
                Err(e) => decision matches Action::Respond(response) && response@ == failure(e),
            },
    {
        match planned {
            Ok(p) => Action::Launch(p),
            Err(e) => Action::Respond(Response::failure(&e)),
        }
    }

    /// Answers a request to start a game once the launch was tried: 200
    /// where the game started, the response to the failure otherwise.
    pub fn after_launch(outcome: Result<(), PanelError>) -> (response: Response)
        ensures
            match outcome {
                Ok(_) => response@ == starting(),
                Err(e) => response@ == failure(e),
            },
    {
        match outcome {
            Ok(_) => Response::starting(),
            Err(e) => Response::failure(&e),
        }
    }

    /// Concludes a password check, given the verdict on the password and
    /// a fresh token. Where the password matched, the token becomes the
    /// session and any earlier session is gone; otherwise the
    /// session store stays as it was.
    pub fn conclude_login(
        &mut self,
        verdict: Result<bool, PanelError>,
        token: String,
        now: u64,
    ) -> (response: Response)
        ensures
            final(self)@.games == old(self)@.games,
            final(self)@.static_dir == old(self)@.static_dir,
            final(self)@.password == old(self)@.password,
            final(self)@.session == session_after_login(old(self)@.session, verdict, token@, now),
            match verdict {
                Ok(matches) => response@ == login(matches, token@),
                Err(e) => response@ == failure(e),
            },
    {
        match verdict {
            Ok(matches) => {
                let response: Response = Response::login(matches, token.as_str());
                if matches {
                    self.access_key.install(token, now);
                }
                response
            },
            Err(e) => Response::failure(&e),
        }
    }

    /// Checks the password of a request, given its parsed body or why it
    /// could not be parsed, and the time in seconds since the Unix epoch.
    ///
    /// With the right password the answer is `{"success":true}`, and the
    /// token in its `set-cookie` header is the new session: it validates
    /// from now on, and the token of any earlier session no longer does.
    /// With a wrong password the answer is `{"success":false}` and the
    /// session store stays as it was; the token in the headers is then good
    /// for nothing. A body that could not be parsed, or a stored hash that is
    /// none, gives status 500 and changes nothing.
    pub fn check_password(
        &mut self,
        request: Result<PasswordRequest, PanelError>,
        now: u64,
    ) -> (response: Response)
        ensures
            final(self)@.games == old(self)@.games,
            final(self)@.static_dir == old(self)@.static_dir,
            final(self)@.password == old(self)@.password,
            password_checked(
                old(self)@.session,
                old(self)@.password,
                request,
                now,
                response@,
                final(self)@.session,
            ),
    {
        match request {
            Ok(body) => {
                let token: String = new_session_token();
                let verdict: Result<bool, PanelError> = verify(
                    body.password.as_str(),
                    self.password.as_str(),
                );
                self.conclude_login(verdict, token, now)
            },
            Err(e) => Response::failure(&e),
        }
    }

    /// Decides on a request: the one way in for everything that comes from
    /// outside. `valid_files` are the files below the static root, `now`
    /// is the time in seconds since the Unix epoch.
    ///
    /// The request is dispatched by method, path and authorization, and
    /// the handler's decision is the action. Nothing is launched, and the
    /// catalog is not listed, for a request without the current session
    /// token; the session changes only through a password check.
    pub fn handle(&mut self, request: Request, valid_files: &Vec<String>, now: u64) -> (action:
        Action)
        ensures
            final(self)@.games == old(self)@.games,
            final(self)@.static_dir == old(self)@.static_dir,
            final(self)@.password == old(self)@.password,
            match endpoint_for(
                request.method,
                request.path@,
                authorizes(old(self)@.session, text_of(request.cookie)),
            ) {
                Endpoint::ListGames => action matches Action::Respond(response) && response@
                    == listing(listing_json(listing_of(old(self)@.games))) && final(self)@.session
                    == old(self)@.session,
                Endpoint::ApiFail => action matches Action::Respond(response) && response@
                    == forbidden() && final(self)@.session == old(self)@.session,
                Endpoint::StartGame => start_decided(
                    old(self)@.games,
                    start_request(request.body),
                    action,
                ) && final(self)@.session == old(self)@.session,
                Endpoint::CheckPassword => action matches Action::Respond(response)
                    && password_checked(
                    old(self)@.session,
                    old(self)@.password,
                    password_request(request.body),
                    now,
                    response@,
                    final(self)@.session,
                ),
                Endpoint::StaticFile => action matches Action::Serve(target) && target@
                    == target_for(valid_files.deep_view(), request.path@) && final(self)@.session
                    == old(self)@.session,
                Endpoint::Invalid => action matches Action::Serve(target) && target@
                    == StaticTargetView::NotFound && final(self)@.session == old(self)@.session,
            },
            action is Launch ==> authorizes(old(self)@.session, text_of(request.cookie)),
            final(self)@.session != old(self)@.session ==> request.method == Method::Post
                && request.path@ == "/api/v1/check_password"@,
    {
        let cookie: Option<&str> = match &request.cookie {
            Some(header) => Some(header.as_str()),
            None => None,
        };
        match self.route(request.method, request.path.as_str(), cookie) {
            Endpoint::ListGames => Action::Respond(self.list_games()),
            Endpoint::ApiFail => Action::Respond(self.api_fail()),
            Endpoint::StartGame => self.start_game(request.body.into_start_request()),
            Endpoint::CheckPassword => Action::Respond(
                self.check_password(request.body.into_password_request(), now),
            ),
            Endpoint::StaticFile => Action::Serve(
                self.serve_static_file(valid_files, request.path.as_str()),
            ),
            Endpoint::Invalid => Action::Serve(self.invalid_endpoint()),
        }
    }

    /// The static file that answers a request path, given the files
    /// below the static root.
    pub fn serve_static_file(&self, valid_files: &Vec<String>, path: &str) -> (target: StaticTarget)
        ensures
            target@ == target_for(valid_files.deep_view(), path@),
    {
        resolve(valid_files, path)
    }

    /// The static file that answers a request for no endpoint: the
    /// not-found page.
    pub fn invalid_endpoint(&self) -> (target: StaticTarget)
        ensures
            target@ == StaticTargetView::NotFound,
    {
        StaticTarget::NotFound
    }
}

} // verus!
