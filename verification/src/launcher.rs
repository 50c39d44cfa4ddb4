//! The launch protocol: from a game identifier to what must be started.

use crate::catalog::{game_of, has_id, GameCatalog};
use crate::error::PanelError;
use crate::game::{Game, GameView};
use crate::text::text_of;
use vstd::prelude::*;

verus! {

/// What to start for a game: the executable, the directory to start it in,
/// and its arguments in order.
#[derive(Debug, Clone, PartialEq)]
pub struct LaunchPlan {
    pub program: String,
    pub working_dir: String,
    pub args: Vec<String>,
}

/// What a launch plan holds.
pub struct LaunchPlanView {
    pub program: Seq<char>,
    pub working_dir: Seq<char>,
    pub args: Seq<Seq<char>>,
}

impl View for LaunchPlan {
    type V = LaunchPlanView;

    open spec fn view(&self) -> LaunchPlanView {
        LaunchPlanView {
            program: self.program@,
            working_dir: self.working_dir@,
            args: self.args.deep_view(),
        }
    }
}

/// The plan for a game in a working directory: the game's executable with
/// the game's arguments. Nothing in a plan comes from anywhere but the
/// catalog entry and its path.
pub open spec fn plan_for(game: GameView, working_dir: Seq<char>) -> LaunchPlanView {
    LaunchPlanView { program: game.exe_path, working_dir, args: game.exe_args }
}

/// The parent of a path, as `std::path::Path::parent` gives it: the path
/// without its last part, or nothing where it has none to drop.
pub uninterp spec fn path_parent(path: Seq<char>) -> Option<Seq<char>>;

/// `std::path::Path::parent` on `path`, as text. The parent depends on the
/// text of the path alone; the contract names it and claims nothing else.
#[verifier::external_body]
fn parent_of(path: &str) -> (parent: Option<String>)
    ensures
        text_of(parent) == path_parent(path@),
{
    std::path::Path::new(path).parent().and_then(|dir| dir.to_str()).map(|dir| dir.to_owned())
}

/// What planning a launch gives, for a game and the parent of its
/// executable's path: the plan to start the game there, or `LaunchFailed`
/// where there is no parent to start it in.
pub open spec fn planned(
    game: GameView,
    parent: Option<Seq<char>>,
    outcome: Result<LaunchPlan, PanelError>,
) -> bool {
    match parent {
        Some(dir) => outcome matches Ok(p) && p@ == plan_for(game, dir),
        None => outcome matches Err(PanelError::LaunchFailed(why)) && why@
            == "the executable has no parent directory"@,
    }
}

/// The plan for `game`, given the parent directory of its executable.
/// Without a parent directory there is nowhere to start the game, and the
/// launch fails.
pub fn plan(game: &Game, parent: Option<String>) -> (outcome: Result<LaunchPlan, PanelError>)
    ensures
        planned(game@, text_of(parent), outcome),
{
    match parent {
        Some(dir) => Ok(
            LaunchPlan { program: game.exe_path(), working_dir: dir, args: game.exe_args() },
        ),
        None => Err(
            PanelError::LaunchFailed(String::from_str("the executable has no parent directory")),
        ),
    }
}

/// The plan for the game under `id`: its executable, started in the
/// parent directory of the executable with the game's arguments. An
/// identifier that the catalog lacks gives `GameNotFound` and no plan; an
/// executable without a parent directory gives `LaunchFailed`. Program,
/// directory and arguments all come from the catalog entry, none from `id`.
pub fn start(id: &str, catalog: &GameCatalog) -> (outcome: Result<LaunchPlan, PanelError>)
    ensures
        !has_id(catalog@, id@) ==> outcome == Err::<LaunchPlan, PanelError>(
            PanelError::GameNotFound,
        ),
        has_id(catalog@, id@) ==> planned(
            game_of(catalog@, id@),
            path_parent(game_of(catalog@, id@).exe_path),
            outcome,
        ),
{
    match catalog.lookup(id) {
        Some(game) => plan(game, parent_of(game.exe_path.as_str())),
        None => Err(PanelError::GameNotFound),
    }
}

/// What became of a launch, given what the operating system reported when
/// the executable was started: nothing, or the text of its refusal.
pub fn launch_outcome(refusal: Option<String>) -> (outcome: Result<(), PanelError>)
    ensures
        match refusal {
            None => outcome is Ok,
            Some(text) => outcome == Err::<(), PanelError>(PanelError::LaunchFailed(text)),
        },
{
    match refusal {
        None => Ok(()),
        Some(text) => Err(PanelError::LaunchFailed(text)),
    }
}

} // verus!
