//! Serving a page: which page a request is for, what has to be fetched for
//! it, and what it shows in the end.

use crate::error::ErrorView;
use crate::model::{
    tournament_views, Hole, HoleView, ShortTournament, ShortTournamentView, TournamentView,
};
use crate::page::{
    hole_url, optional_text, resolve, resolved, tournament_url, tournaments_url, PageIdentity,
    PageIdentityView, SelectHolePage, SelectTournamentPage, ViewHolePage,
};
use crate::render::{is_active, select_hole_page, select_tournament_page, view_hole_page};
use crate::upstream::{failure, Action, ActionView, Event, EventView};
use vstd::prelude::*;

verus! {

/// The parameters of a request for a page, as its query string gives them.
#[derive(Debug, PartialEq, Eq)]
pub struct QueryParams {
    /// `u`: whose tournaments these are.
    pub user: String,
    /// `t`: the identifier of a tournament.
    pub tournament: Option<String>,
    /// `h`: the number of a hole.
    pub hole: Option<u8>,
}

/// All that is needed to serve a request for a page.
#[derive(Debug, PartialEq, Eq)]
pub struct Params {
    /// The address of the scoring service, without a slash at its end.
    pub server: String,
    pub query_args: QueryParams,
}

/// How far the serving of a page has come.
#[derive(Debug, PartialEq, Eq)]
pub enum GetState {
    /// The tournaments for the tournament selection have been asked for.
    ListingTournaments(SelectTournamentPage),
    /// The tournaments are here, and the time has been asked for.
    TimingTournaments(SelectTournamentPage, Vec<ShortTournament>),
    /// The tournament for the hole selection has been asked for.
    LoadingTournament(SelectHolePage),
    /// The hole has been asked for, from the scoring service at the address given.
    LoadingHole(String, ViewHolePage),
    /// The hole is here, and the tournaments of the user have been asked
    /// for, to see whether scores are still taken.
    CheckingActivity(ViewHolePage, Hole),
    /// The request has ended.
    Done,
}

/// What a [`GetState`] stands for.
pub ghost enum GetStateView {
    ListingTournaments { user: Seq<char> },
    TimingTournaments { user: Seq<char>, list: Seq<ShortTournamentView> },
    LoadingTournament { user: Seq<char>, tournament: Seq<char> },
    LoadingHole { server: Seq<char>, user: Seq<char>, tournament: Seq<char>, hole: nat },
    CheckingActivity { user: Seq<char>, tournament: Seq<char>, answer: HoleView },
    Done,
}

impl View for GetState {
    type V = GetStateView;

    open spec fn view(&self) -> GetStateView {
        match self {
            GetState::ListingTournaments(page) => GetStateView::ListingTournaments {
                user: page.user@,
            },
            GetState::TimingTournaments(page, list) => GetStateView::TimingTournaments {
                user: page.user@,
                list: tournament_views(list@),
            },
            GetState::LoadingTournament(page) => GetStateView::LoadingTournament {
                user: page.user@,
                tournament: page.tournament@,
            },
            GetState::LoadingHole(server, page) => GetStateView::LoadingHole {
                server: server@,
                user: page.user@,
                tournament: page.tournament@,
                hole: page.hole as nat,
            },
            GetState::CheckingActivity(page, hole) => GetStateView::CheckingActivity {
                user: page.user@,
                tournament: page.tournament@,
                answer: hole@,
            },
            GetState::Done => GetStateView::Done,
        }
    }
}

impl GetStateView {
    /// How many answers the request may still have to wait for.
    pub open spec fn steps_left(self) -> nat {
        match self {
            GetStateView::ListingTournaments { .. } => 2,
            GetStateView::TimingTournaments { .. } => 1,
            GetStateView::LoadingTournament { .. } => 1,
            GetStateView::LoadingHole { .. } => 2,
            GetStateView::CheckingActivity { .. } => 1,
            GetStateView::Done => 0,
        }
    }
}

/// How the serving of a page begins: with the one thing that the page that
/// the parameters single out needs first.
pub open spec fn get_start(
    server: Seq<char>,
    user: Seq<char>,
    tournament: Option<Seq<char>>,
    hole: Option<u8>,
) -> (GetStateView, ActionView) {
    match resolved(user, tournament, hole) {
        PageIdentityView::SelectTournament { user } => (
            GetStateView::ListingTournaments { user },
            ActionView::ListTournaments { url: tournaments_url(server, user) },
        ),
        PageIdentityView::SelectHole { user, tournament } => (
            GetStateView::LoadingTournament { user, tournament },
            ActionView::GetTournament { url: tournament_url(server, user, tournament) },
        ),
        PageIdentityView::ViewHole { user, tournament, hole } => (
            GetStateView::LoadingHole { server, user, tournament, hole },
            ActionView::GetHole { url: hole_url(server, user, tournament, hole) },
        ),
    }
}

/// How the serving of a page goes on when `event` comes in `state`.
///
/// The tournament selection needs the tournaments and then the time. The
/// hole selection needs its tournament. A hole needs the hole and then the
/// tournaments of its user, which say whether scores are still taken. An
/// event that is a failure, or not the answer to what was asked, ends the
/// request.
pub open spec fn get_step(state: GetStateView, event: EventView) -> (GetStateView, ActionView) {
    match (state, event) {
        (GetStateView::ListingTournaments { user }, EventView::Tournaments(list)) => (
            GetStateView::TimingTournaments { user, list },
            ActionView::ReadClock,
        ),
        (GetStateView::TimingTournaments { user, list }, EventView::Clock(now)) => (
            GetStateView::Done,
            ActionView::Respond(select_tournament_page(user, list, now)),
        ),
        (GetStateView::LoadingTournament { user, tournament }, EventView::Tournament(answer)) => (
            GetStateView::Done,
            ActionView::Respond(select_hole_page(user, tournament, answer)),
        ),
        (GetStateView::LoadingHole { server, user, tournament, hole }, EventView::Hole(answer)) => (
            GetStateView::CheckingActivity { user, tournament, answer },
            ActionView::ListTournaments { url: tournaments_url(server, user) },
        ),
        (GetStateView::CheckingActivity { user, tournament, answer }, EventView::Tournaments(list)) => (
            GetStateView::Done,
            ActionView::Respond(
                view_hole_page(user, tournament, answer, is_active(tournament, list)),
            ),
        ),
        (_, event) => (GetStateView::Done, failure(event)),
    }
}

/// Begins to serve the page that `params` ask for: says what to fetch first,
/// and how far that brings the request.
pub fn get(params: Params) -> (begun: (GetState, Action))
    ensures
        (begun.0@, begun.1@) == get_start(
            params.server@,
            params.query_args.user@,
            optional_text(params.query_args.tournament),
            params.query_args.hole,
        ),
{
    let Params { server, query_args } = params;
    let QueryParams { user, tournament, hole } = query_args;
    match resolve(user, tournament, hole) {
        PageIdentity::SelectTournament(page) => {
            let url = page.url(server.as_str());
            (GetState::ListingTournaments(page), Action::ListTournaments { url })
        },
        PageIdentity::SelectHole(page) => {
            let url = page.url(server.as_str());
            (GetState::LoadingTournament(page), Action::GetTournament { url })
        },
        PageIdentity::ViewHole(page) => {
            let url = page.url(server.as_str());
            (GetState::LoadingHole(server, page), Action::GetHole { url })
        },
    }
}

impl GetState {
    /// Goes on with the serving of a page when `event` has come in: says what
    /// to do next, and how far that brings the request.
    pub fn advance(self, event: Event) -> (next: (GetState, Action))
        ensures
            (next.0@, next.1@) == get_step(self@, event@),
    {
        match (self, event) {
            (GetState::ListingTournaments(page), Event::Tournaments(list)) => (
                GetState::TimingTournaments(page, list),
                Action::ReadClock,
            ),
            (GetState::TimingTournaments(page, list), Event::Clock(now)) => (
                GetState::Done,
                Action::Respond(page.render(&list, now)),
            ),
            (GetState::LoadingTournament(page), Event::Tournament(answer)) => (
                GetState::Done,
                Action::Respond(page.render(&answer)),
            ),
            (GetState::LoadingHole(server, page), Event::Hole(answer)) => {
                let url = SelectTournamentPage::from(&page).url(server.as_str());
                (GetState::CheckingActivity(page, answer), Action::ListTournaments { url })
            },
            (GetState::CheckingActivity(page, answer), Event::Tournaments(list)) => {
                let active = page.active(&list);
                (GetState::Done, Action::Respond(page.render(&answer, active)))
            },
            (_, event) => (GetState::Done, event.into_failure()),
        }
    }
}

/// The serving of a page ends: each step either ends the request, or asks for
/// one thing more and leaves fewer steps than there were, so that no request
/// asks for more than two things.
pub proof fn lemma_get_ends(state: GetStateView, event: EventView)
    ensures
        get_step(state, event).1.is_final() <==> get_step(state, event).0 is Done,
        !(state is Done) ==> get_step(state, event).0.steps_left() < state.steps_left(),
        state.steps_left() <= 2,
{
}

/// A failure is never made up for: whatever has been fetched, a failure ends
/// the request, and the user is told of that very failure.
pub proof fn lemma_get_failure_ends(state: GetStateView, error: ErrorView)
    ensures
        get_step(state, EventView::Failed(error)) == (
            GetStateView::Done,
            ActionView::Fail(error),
        ),
{
}

/// A request without a tournament, with or without a hole, is served in
/// three steps: the tournaments of the user are fetched, the clock is read,
/// and the tournament selection for that list and that time is shown.
pub proof fn lemma_tournament_selection_is_served(
    server: Seq<char>,
    user: Seq<char>,
    hole: Option<u8>,
    list: Seq<ShortTournamentView>,
    now: nat,
)
    ensures
        ({
            let (begun, first) = get_start(server, user, None, hole);
            let (listed, second) = get_step(begun, EventView::Tournaments(list));
            let (ended, third) = get_step(listed, EventView::Clock(now));
            &&& first == ActionView::ListTournaments { url: tournaments_url(server, user) }
            &&& second == ActionView::ReadClock
            &&& third == ActionView::Respond(select_tournament_page(user, list, now))
            &&& ended is Done
        }),
{
}

/// A request with a tournament and without a hole is served in two steps:
/// the tournament is fetched, and the hole selection for it is shown.
pub proof fn lemma_hole_selection_is_served(
    server: Seq<char>,
    user: Seq<char>,
    tournament: Seq<char>,
    answer: TournamentView,
)
    ensures
        ({
            let (begun, first) = get_start(server, user, Some(tournament), None);
            let (ended, second) = get_step(begun, EventView::Tournament(answer));
            &&& first == ActionView::GetTournament { url: tournament_url(server, user, tournament) }
            &&& second == ActionView::Respond(select_hole_page(user, tournament, answer))
            &&& ended is Done
        }),
{
}

/// A request with a tournament and a hole is served in three steps: the
/// hole is fetched, then the tournaments of the user, and the hole is shown
/// with the link to the form exactly if the first entry of that list with
/// the identifier of the tournament is active.
pub proof fn lemma_hole_is_served(
    server: Seq<char>,
    user: Seq<char>,
    tournament: Seq<char>,
    hole: u8,
    answer: HoleView,
    list: Seq<ShortTournamentView>,
)
    ensures
        ({
            let (begun, first) = get_start(server, user, Some(tournament), Some(hole));
            let (loaded, second) = get_step(begun, EventView::Hole(answer));
            let (ended, third) = get_step(loaded, EventView::Tournaments(list));
            &&& first == ActionView::GetHole { url: hole_url(server, user, tournament, hole as nat) }
            &&& second == ActionView::ListTournaments { url: tournaments_url(server, user) }
            &&& third == ActionView::Respond(
                view_hole_page(user, tournament, answer, is_active(tournament, list)),
            )
            &&& ended is Done
        }),
{
}

} // verus!
