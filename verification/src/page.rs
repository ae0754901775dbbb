//! The three pages, and how the parameters of a request single one out.

use crate::text::{decimal, decimal_string};
use vstd::prelude::*;
use vstd::string::StringExecFns;

verus! {

/// The page on which a user picks a tournament.
#[derive(Debug, PartialEq, Eq)]
pub struct SelectTournamentPage {
    pub user: String,
}

/// The page on which a user picks a hole of a tournament.
#[derive(Debug, PartialEq, Eq)]
pub struct SelectHolePage {
    pub user: String,
    pub tournament: String,
}

/// The page that shows one hole with its leaderboard.
///
/// A score is always submitted from this page, so it also says where a
/// submitted score belongs.
#[derive(Debug, PartialEq, Eq)]
pub struct ViewHolePage {
    pub user: String,
    pub tournament: String,
    pub hole: u8,
}

/// Exactly one of the three pages, with what that page needs and no more.
#[derive(Debug, PartialEq, Eq)]
pub enum PageIdentity {
    SelectTournament(SelectTournamentPage),
    SelectHole(SelectHolePage),
    ViewHole(ViewHolePage),
}

/// What a [`PageIdentity`] stands for.
pub ghost enum PageIdentityView {
    SelectTournament { user: Seq<char> },
    SelectHole { user: Seq<char>, tournament: Seq<char> },
    ViewHole { user: Seq<char>, tournament: Seq<char>, hole: nat },
}

impl View for SelectTournamentPage {
    type V = PageIdentityView;

    open spec fn view(&self) -> PageIdentityView {
        PageIdentityView::SelectTournament { user: self.user@ }
    }
}

impl View for SelectHolePage {
    type V = PageIdentityView;

    open spec fn view(&self) -> PageIdentityView {
        PageIdentityView::SelectHole { user: self.user@, tournament: self.tournament@ }
    }
}

impl View for ViewHolePage {
    type V = PageIdentityView;

    open spec fn view(&self) -> PageIdentityView {
        PageIdentityView::ViewHole {
            user: self.user@,
            tournament: self.tournament@,
            hole: self.hole as nat,
        }
    }
}

impl View for PageIdentity {
    type V = PageIdentityView;

    open spec fn view(&self) -> PageIdentityView {
        match self {
            PageIdentity::SelectTournament(page) => page@,
            PageIdentity::SelectHole(page) => page@,
            PageIdentity::ViewHole(page) => page@,
        }
    }
}

/// The text of an optional string.
pub open spec fn optional_text(text: Option<String>) -> Option<Seq<char>> {
    match text {
        Some(t) => Some(t@),
        None => None,
    }
}

/// The page that the parameters single out: without a tournament the
/// tournament selection, whatever the hole; with a tournament and no hole the
/// hole selection; with both the hole itself.
pub open spec fn resolved(
    user: Seq<char>,
    tournament: Option<Seq<char>>,
    hole: Option<u8>,
) -> PageIdentityView {
    match tournament {
        None => PageIdentityView::SelectTournament { user },
        Some(t) => match hole {
            None => PageIdentityView::SelectHole { user, tournament: t },
            Some(h) => PageIdentityView::ViewHole { user, tournament: t, hole: h as nat },
        },
    }
}

/// Singles out the page for the parameters of a request. It never fails: a
/// hole that comes without a tournament is dropped.
pub fn resolve(user: String, tournament: Option<String>, hole: Option<u8>) -> (page: PageIdentity)
    ensures
        page@ == resolved(user@, optional_text(tournament), hole),
{
    match tournament {
        None => PageIdentity::SelectTournament(SelectTournamentPage { user }),
        Some(tournament) => match hole {
            None => PageIdentity::SelectHole(SelectHolePage { user, tournament }),
            Some(hole) => PageIdentity::ViewHole(ViewHolePage { user, tournament, hole }),
        },
    }
}

/// Without a tournament the hole plays no part: any two requests of one user
/// resolve to the same page, the tournament selection.
pub proof fn lemma_hole_ignored_without_tournament(
    user: Seq<char>,
    hole: Option<u8>,
    other_hole: Option<u8>,
)
    ensures
        resolved(user, None, hole) == resolved(user, None, other_hole),
        resolved(user, None, hole) == (PageIdentityView::SelectTournament { user }),
{
}

/// The page tells the parameters it was resolved from, up to a dropped hole:
/// pages are equal only if users, tournaments and, where a tournament is
/// given, holes are.
pub proof fn lemma_resolved_injective(
    user: Seq<char>,
    tournament: Option<Seq<char>>,
    hole: Option<u8>,
    other_user: Seq<char>,
    other_tournament: Option<Seq<char>>,
    other_hole: Option<u8>,
)
    requires
        resolved(user, tournament, hole) == resolved(other_user, other_tournament, other_hole),
    ensures
        user == other_user,
        tournament == other_tournament,
        tournament is Some ==> hole == other_hole,
{
}

/// The query string that leads to the hole selection of a tournament.
pub open spec fn tournament_query(user: Seq<char>, tournament: Seq<char>) -> Seq<char> {
    "?u="@ + user + "&t="@ + tournament
}

/// The query string that leads to a hole.
pub open spec fn hole_query(user: Seq<char>, tournament: Seq<char>, hole: nat) -> Seq<char> {
    tournament_query(user, tournament) + "&h="@ + decimal(hole)
}

/// Where the scoring service lists the tournaments of a user.
pub open spec fn tournaments_url(server: Seq<char>, user: Seq<char>) -> Seq<char> {
    server + "/"@ + user
}

/// Where the scoring service describes one tournament.
pub open spec fn tournament_url(
    server: Seq<char>,
    user: Seq<char>,
    tournament: Seq<char>,
) -> Seq<char> {
    tournaments_url(server, user) + "/"@ + tournament
}

/// Where the scoring service keeps one hole: its leaderboard is read from
/// there and new scores are sent there.
pub open spec fn hole_url(
    server: Seq<char>,
    user: Seq<char>,
    tournament: Seq<char>,
    hole: nat,
) -> Seq<char> {
    tournament_url(server, user, tournament) + "/"@ + decimal(hole)
}

/// Writes [`tournament_query`].
pub fn tournament_query_string(user: &str, tournament: &str) -> (query: String)
    ensures
        query@ == tournament_query(user@, tournament@),
{
    let mut query = String::from_str("?u=");
    query.append(user);
    query.append("&t=");
    query.append(tournament);
    query
}

/// Writes [`hole_query`].
pub fn hole_query_string(user: &str, tournament: &str, hole: u8) -> (query: String)
    ensures
        query@ == hole_query(user@, tournament@, hole as nat),
{
    let mut query = tournament_query_string(user, tournament);
    query.append("&h=");
    query.append(decimal_string(hole as u64).as_str());
    query
}

impl SelectTournamentPage {
    /// The tournament selection of the user of a hole's page.
    pub fn from(page: &ViewHolePage) -> (list: SelectTournamentPage)
        ensures
            list.user@ == page.user@,
    {
        SelectTournamentPage { user: page.user.clone() }
    }

    /// Where to ask for what this page lists.
    pub fn url(&self, server: &str) -> (url: String)
        ensures
            url@ == tournaments_url(server@, self.user@),
    {
        let mut url = String::from_str(server);
        url.append("/");
        url.append(self.user.as_str());
        url
    }
}

impl SelectHolePage {
    /// Where to ask for the tournament of this page.
    pub fn url(&self, server: &str) -> (url: String)
        ensures
            url@ == tournament_url(server@, self.user@, self.tournament@),
    {
        let mut url = String::from_str(server);
        url.append("/");
        url.append(self.user.as_str());
        url.append("/");
        url.append(self.tournament.as_str());
        url
    }
}

impl ViewHolePage {
    /// Where to ask for the hole of this page, and where to send a score for it.
    pub fn url(&self, server: &str) -> (url: String)
        ensures
            url@ == hole_url(server@, self.user@, self.tournament@, self.hole as nat),
    {
        let mut url = String::from_str(server);
        url.append("/");
        url.append(self.user.as_str());
        url.append("/");
        url.append(self.tournament.as_str());
        url.append("/");
        url.append(decimal_string(self.hole as u64).as_str());
        url
    }

    /// The query string that leads back to this page.
    pub fn query(&self) -> (query: String)
        ensures
            query@ == hole_query(self.user@, self.tournament@, self.hole as nat),
    {
        hole_query_string(self.user.as_str(), self.tournament.as_str(), self.hole)
    }
}

} // verus!
