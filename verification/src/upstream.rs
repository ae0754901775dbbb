//! What is asked of the surroundings while a request is served, and what
//! they answer.
//!
//! Serving a request is a chain of steps. Each step ends in an [`Action`].
//! Unless the action ends the request, the surroundings carry it out and
//! hand back an [`Event`], which starts the next step. Nothing is ever asked
//! twice: what fails, fails the request.

use crate::content::{ElementView, Page};
use crate::error::{Error, ErrorView};
use crate::model::{
    tournament_views, Hole, HoleView, Score, ScoreView, ShortTournament, ShortTournamentView,
    Tournament, TournamentView,
};
use vstd::prelude::*;

verus! {

/// The name of the header that goes with [`Action::GetTournament`].
pub const NO_HOLE_IMAGES: &'static str = "No-Hole-Images";

/// The value of the header that goes with [`Action::GetTournament`].
pub const NO_HOLE_IMAGES_VALUE: &'static str = "true";

/// The text of the failure when an event is not the answer to what was asked.
pub const UNEXPECTED_EVENT: &'static str = "the answer does not fit what was asked for";

/// What to do next.
#[derive(Debug, PartialEq, Eq)]
pub enum Action {
    /// Get the list of a user's tournaments from `url`; the answer is
    /// [`Event::Tournaments`].
    ListTournaments { url: String },
    /// Get a tournament from `url`, with the header [`NO_HOLE_IMAGES`] set to
    /// [`NO_HOLE_IMAGES_VALUE`], which lets the service leave the pictures of
    /// the holes out; the answer is [`Event::Tournament`].
    GetTournament { url: String },
    /// Get a hole from `url`; the answer is [`Event::Hole`].
    GetHole { url: String },
    /// Post `score` to `url`; the answer is [`Event::Posted`].
    PostScore { url: String, score: Score },
    /// Read the wall clock; the answer is [`Event::Clock`].
    ReadClock,
    /// The request ends: show the page.
    Respond(Page),
    /// The request ends: send this redirect.
    Redirect(String),
    /// The request ends: tell the user about the error.
    Fail(Error),
}

/// What an [`Action`] stands for.
pub ghost enum ActionView {
    ListTournaments { url: Seq<char> },
    GetTournament { url: Seq<char> },
    GetHole { url: Seq<char> },
    PostScore { url: Seq<char>, score: ScoreView },
    ReadClock,
    Respond(Seq<ElementView>),
    Redirect(Seq<char>),
    Fail(ErrorView),
}

impl View for Action {
    type V = ActionView;

    open spec fn view(&self) -> ActionView {
        match self {
            Action::ListTournaments { url } => ActionView::ListTournaments { url: url@ },
            Action::GetTournament { url } => ActionView::GetTournament { url: url@ },
            Action::GetHole { url } => ActionView::GetHole { url: url@ },
            Action::PostScore { url, score } => ActionView::PostScore { url: url@, score: score@ },
            Action::ReadClock => ActionView::ReadClock,
            Action::Respond(page) => ActionView::Respond(page@),
            Action::Redirect(text) => ActionView::Redirect(text@),
            Action::Fail(error) => ActionView::Fail(error@),
        }
    }
}

impl ActionView {
    /// Whether the action ends the request.
    pub open spec fn is_final(self) -> bool {
        self is Respond || self is Redirect || self is Fail
    }
}

/// What came of the last action.
#[derive(Debug, PartialEq, Eq)]
pub enum Event {
    /// The tournaments of a user, in the order of the scoring service.
    Tournaments(Vec<ShortTournament>),
    /// A tournament.
    Tournament(Tournament),
    /// A hole.
    Hole(Hole),
    /// The score was taken.
    Posted,
    /// The whole seconds since the epoch.
    Clock(u64),
    /// The action failed.
    Failed(Error),
}

/// What an [`Event`] stands for.
pub ghost enum EventView {
    Tournaments(Seq<ShortTournamentView>),
    Tournament(TournamentView),
    Hole(HoleView),
    Posted,
    Clock(nat),
    Failed(ErrorView),
}

impl View for Event {
    type V = EventView;

    open spec fn view(&self) -> EventView {
        match self {
            Event::Tournaments(list) => EventView::Tournaments(tournament_views(list@)),
            Event::Tournament(tournament) => EventView::Tournament(tournament@),
            Event::Hole(hole) => EventView::Hole(hole@),
            Event::Posted => EventView::Posted,
            Event::Clock(secs) => EventView::Clock(*secs as nat),
            Event::Failed(error) => EventView::Failed(error@),
        }
    }
}

/// How a step ends when the event is a failure, or not the answer to what
/// was asked: with the failure itself, or with a fault of the surroundings.
pub open spec fn failure(event: EventView) -> ActionView {
    match event {
        EventView::Failed(error) => ActionView::Fail(error),
        _ => ActionView::Fail(ErrorView::CriticalServer(UNEXPECTED_EVENT@)),
    }
}

impl Event {
    /// Ends a step on an event that is a failure, or not the answer to what
    /// was asked.
    pub fn into_failure(self) -> (action: Action)
        ensures
            action@ == failure(self@),
    {
        match self {
            Event::Failed(error) => Action::Fail(error),
            _ => Action::Fail(Error::CriticalServer(UNEXPECTED_EVENT.to_owned())),
        }
    }
}

} // verus!
