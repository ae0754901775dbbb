//! The values exchanged with the scoring service, and their mathematical views.

use vstd::prelude::*;
use vstd::std_specs::cmp::PartialEqSpecImpl;

verus! {

/// One entry of a hole's leaderboard.
///
/// `player_score` is a distance in hundredths of a metre, so that scores are
/// compared and told apart exactly; a lower score is a better one.
#[derive(Debug)]
pub struct Score {
    pub player_name: String,
    pub player_score: u64,
}

/// What a [`Score`] stands for.
pub ghost struct ScoreView {
    pub player_name: Seq<char>,
    pub player_score: nat,
}

impl View for Score {
    type V = ScoreView;

    open spec fn view(&self) -> ScoreView {
        ScoreView { player_name: self.player_name@, player_score: self.player_score as nat }
    }
}

impl PartialEq for Score {
    /// Two scores are equal when both the name and the value agree.
    fn eq(&self, other: &Score) -> (r: bool) {
        self.player_name == other.player_name && self.player_score == other.player_score
    }
}

impl Eq for Score {

}

impl PartialEqSpecImpl for Score {
    open spec fn obeys_eq_spec() -> bool {
        true
    }

    open spec fn eq_spec(&self, other: &Score) -> bool {
        self@ == other@
    }
}

/// The views of a leaderboard's entries, in the same order.
pub open spec fn score_views(scores: Seq<Score>) -> Seq<ScoreView> {
    scores.map_values(|s: Score| s@)
}

/// One hole of a tournament with its leaderboard.
///
/// The order of `scores` is the ranking, best first, exactly as the scoring
/// service gave it.
#[derive(Debug, PartialEq, Eq)]
pub struct Hole {
    pub hole_number: u8,
    /// May be empty.
    pub hole_text: String,
    /// May be empty.
    pub hole_sponsor: String,
    pub scores: Vec<Score>,
}

/// What a [`Hole`] stands for.
pub ghost struct HoleView {
    pub hole_number: nat,
    pub hole_text: Seq<char>,
    pub hole_sponsor: Seq<char>,
    pub scores: Seq<ScoreView>,
}

impl View for Hole {
    type V = HoleView;

    open spec fn view(&self) -> HoleView {
        HoleView {
            hole_number: self.hole_number as nat,
            hole_text: self.hole_text@,
            hole_sponsor: self.hole_sponsor@,
            scores: score_views(self.scores@),
        }
    }
}

/// The views of a tournament's holes, in the same order.
pub open spec fn hole_views(holes: Seq<Hole>) -> Seq<HoleView> {
    holes.map_values(|h: Hole| h@)
}

/// A tournament with its holes, in the order the scoring service gave them.
#[derive(Debug, PartialEq, Eq)]
pub struct Tournament {
    pub tournament_name: String,
    /// May be empty.
    pub tournament_sponsor: String,
    pub holes: Vec<Hole>,
}

/// What a [`Tournament`] stands for.
pub ghost struct TournamentView {
    pub tournament_name: Seq<char>,
    pub tournament_sponsor: Seq<char>,
    pub holes: Seq<HoleView>,
}

impl View for Tournament {
    type V = TournamentView;

    open spec fn view(&self) -> TournamentView {
        TournamentView {
            tournament_name: self.tournament_name@,
            tournament_sponsor: self.tournament_sponsor@,
            holes: hole_views(self.holes@),
        }
    }
}

/// One line of a user's list of tournaments. Times are seconds since the epoch.
#[derive(Debug, PartialEq, Eq)]
pub struct ShortTournament {
    pub active: bool,
    pub t_start: u64,
    pub t_end: u64,
    pub tournament_id: String,
    pub tournament_name: String,
}

/// What a [`ShortTournament`] stands for.
pub ghost struct ShortTournamentView {
    pub active: bool,
    pub t_start: nat,
    pub t_end: nat,
    pub tournament_id: Seq<char>,
    pub tournament_name: Seq<char>,
}

impl View for ShortTournament {
    type V = ShortTournamentView;

    open spec fn view(&self) -> ShortTournamentView {
        ShortTournamentView {
            active: self.active,
            t_start: self.t_start as nat,
            t_end: self.t_end as nat,
            tournament_id: self.tournament_id@,
            tournament_name: self.tournament_name@,
        }
    }
}

/// The views of a list of tournaments, in the same order.
pub open spec fn tournament_views(list: Seq<ShortTournament>) -> Seq<ShortTournamentView> {
    list.map_values(|t: ShortTournament| t@)
}

} // verus!
