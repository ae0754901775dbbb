//! Taking a score: from the form that a user filled in to the entry that is
//! posted to the scoring service, unless the leaderboard holds it already.

use crate::error::{Error, ErrorView};
use crate::model::{score_views, HoleView, Score, ScoreView};
use crate::page::{hole_query, hole_url, optional_text, ViewHolePage};
use crate::upstream::{failure, Action, ActionView, Event, EventView};
use vstd::prelude::*;
use vstd::string::StrSliceExecFns;
use vstd::string::StringExecFns;

verus! {

/// What is put behind the name of a player whose score takes the first place.
pub const FIRST_PLACE_FLAG: &'static str = " 🏴";

/// The status line of a redirect, up to the query string to go to.
pub const REDIRECT_START: &'static str = "Status: 303\r\nLocation: ";

/// What ends a redirect.
pub const REDIRECT_END: &'static str = "\r\n\r\n\r\n";

/// A score as the form gives it.
#[derive(Debug, PartialEq, Eq)]
pub struct CustomScore {
    pub name: String,
    /// What the player is a member of, put before the name.
    pub member: Option<String>,
    /// The whole metres of the distance.
    pub score_m: u8,
    /// The hundredths of a metre on top of them.
    pub score_cm: u8,
}

/// What a [`CustomScore`] stands for.
pub ghost struct CustomScoreView {
    pub name: Seq<char>,
    pub member: Option<Seq<char>>,
    pub score_m: nat,
    pub score_cm: nat,
}

impl View for CustomScore {
    type V = CustomScoreView;

    open spec fn view(&self) -> CustomScoreView {
        CustomScoreView {
            name: self.name@,
            member: optional_text(self.member),
            score_m: self.score_m as nat,
            score_cm: self.score_cm as nat,
        }
    }
}

/// All that is needed to take a score: the scoring service, and the hole
/// that the score is for.
#[derive(Debug, PartialEq, Eq)]
pub struct Params {
    /// The address of the scoring service, without a slash at its end.
    pub server: String,
    pub query_args: ViewHolePage,
}

/// The first question mark of `text` stands at `i`.
pub open spec fn first_question_mark(text: Seq<char>, i: int) -> bool {
    &&& 0 <= i < text.len()
    &&& text[i] == '?'
    &&& forall|j: int| 0 <= j < i ==> text[j] != '?'
}

/// The query string of the page that a submission came from: what follows
/// the first question mark of the referer. There is none where no referer
/// was sent, or where it holds no question mark.
pub open spec fn query_part(referer: Option<Seq<char>>) -> Option<Seq<char>> {
    match referer {
        Some(text) => if exists|i: int| first_question_mark(text, i) {
            Some(text.skip((choose|i: int| first_question_mark(text, i)) + 1))
        } else {
            None
        },
        None => None,
    }
}

/// The query string is cut off at the first question mark, and only there: a
/// referer made of an address without a question mark, a question mark and
/// any text has that text as its query string, and a referer without a
/// question mark has none.
pub proof fn lemma_query_part_splits_once(address: Seq<char>, query: Seq<char>)
    requires
        !address.contains('?'),
    ensures
        query_part(Some(address + seq!['?'] + query)) == Some(query),
        query_part(Some(address)) is None,
{
    let text = address + seq!['?'] + query;
    assert(first_question_mark(text, address.len() as int));
    assert(text.skip(address.len() as int + 1) == query);
}

/// Finds the query string of the page that a submission came from, which
/// says what hole the score is for. Without it the score cannot be taken.
pub fn referer_query(referer: Option<String>) -> (query: Result<String, Error>)
    ensures
        match query_part(optional_text(referer)) {
            Some(part) => query is Ok && query->Ok_0@ == part,
            None => query is Err && query->Err_0 is Referer,
        },
{
    broadcast use vstd::string::group_string_axioms;

    let header = match referer {
        Some(header) => header,
        None => {
            return Err(Error::Referer);
        },
    };
    let text = header.as_str();
    let len = text.unicode_len();
    let mut i: usize = 0;
    for c in chars: text.chars()
        invariant
            i == chars.index(),
            chars.seq() == text@,
            len == text@.len(),
            optional_text(referer) == Some(text@),
            forall|j: int| 0 <= j < i ==> text@[j] != '?',
    {
        if c == '?' {
            let query = text.substring_char(i + 1, len).to_owned();
            assert(first_question_mark(text@, i as int));
            return Ok(query);
        }
        i += 1;
    }
    Err(Error::Referer)
}

/// The entry that a filled-in form stands for: the membership, where one is
/// given, goes before the name, with a space between; the score counts the
/// metres a hundredfold and the hundredths once.
pub open spec fn form_score(form: CustomScoreView) -> ScoreView {
    ScoreView {
        player_name: match form.member {
            Some(member) => member + " "@ + form.name,
            None => form.name,
        },
        player_score: form.score_m * 100 + form.score_cm,
    }
}

/// Whether `score` would take the first place of `leaderboard`: it does on an
/// empty leaderboard, and where it is strictly lower than the best so far.
pub open spec fn is_first(score: ScoreView, leaderboard: Seq<ScoreView>) -> bool {
    leaderboard.len() == 0 || score.player_score < leaderboard[0].player_score
}

/// Whether `leaderboard` holds `score` already, name and value.
pub open spec fn is_duplicate(score: ScoreView, leaderboard: Seq<ScoreView>) -> bool {
    leaderboard.contains(score)
}

/// `score` with the mark of the first place behind the name.
pub open spec fn flagged(score: ScoreView) -> ScoreView {
    ScoreView { player_name: score.player_name + FIRST_PLACE_FLAG@, ..score }
}

/// The entry that is posted for `score`: marked, if it takes the first place
/// of `leaderboard`, and as it is otherwise.
pub open spec fn outgoing(score: ScoreView, leaderboard: Seq<ScoreView>) -> ScoreView {
    if is_first(score, leaderboard) {
        flagged(score)
    } else {
        score
    }
}

/// What is posted when `score` is submitted and the leaderboard is
/// `leaderboard`: nothing, if the leaderboard holds the score already.
pub open spec fn posted(score: ScoreView, leaderboard: Seq<ScoreView>) -> Option<ScoreView> {
    if is_duplicate(score, leaderboard) {
        None
    } else {
        Some(outgoing(score, leaderboard))
    }
}

/// How many entries are posted when `score` is submitted and the
/// leaderboard is `leaderboard`: one, or none.
pub open spec fn posts(score: ScoreView, leaderboard: Seq<ScoreView>) -> nat {
    if posted(score, leaderboard) is Some {
        1
    } else {
        0
    }
}

/// The redirect that leads back to the page of a hole.
pub open spec fn redirect(user: Seq<char>, tournament: Seq<char>, hole: nat) -> Seq<char> {
    REDIRECT_START@ + hole_query(user, tournament, hole) + REDIRECT_END@
}

impl Score {
    /// The entry that a filled-in form stands for.
    pub fn from(value: CustomScore) -> (score: Score)
        ensures
            score@ == form_score(value@),
    {
        let CustomScore { name, member, score_m, score_cm } = value;
        let player_name = match member {
            Some(member) => {
                let mut player_name = member;
                player_name.append(" ");
                player_name.append(name.as_str());
                player_name
            },
            None => name,
        };
        Score { player_name, player_score: (score_m as u64) * 100 + (score_cm as u64) }
    }

    /// Whether this score would take the first place of `leaderboard`.
    pub fn is_first(&self, leaderboard: &[Score]) -> (first: bool)
        ensures
            first == is_first(self@, score_views(leaderboard@)),
    {
        if leaderboard.len() == 0 {
            true
        } else {
            self.player_score < leaderboard[0].player_score
        }
    }

    /// Whether `leaderboard` holds this score already.
    pub fn is_duplicate(&self, leaderboard: &[Score]) -> (duplicate: bool)
        ensures
            duplicate == is_duplicate(self@, score_views(leaderboard@)),
    {
        let ghost board = score_views(leaderboard@);
        let mut i: usize = 0;
        while i < leaderboard.len()
            invariant
                0 <= i <= leaderboard.len(),
                board == score_views(leaderboard@),
                forall|j: int| 0 <= j < i ==> board[j] != self@,
            decreases leaderboard.len() - i,
        {
            if leaderboard[i] == *self {
                assert(board[i as int] == self@);
                return true;
            }
            i += 1;
        }
        false
    }
}

impl ViewHolePage {
    /// The redirect that leads back to this page.
    pub fn redirect(&self) -> (text: String)
        ensures
            text@ == redirect(self.user@, self.tournament@, self.hole as nat),
    {
        let mut text = String::from_str(REDIRECT_START);
        text.append(self.query().as_str());
        text.append(REDIRECT_END);
        text
    }
}

/// Says how to post `score`, which `leaderboard` does not hold yet: where to,
/// and under what name. The name gets the mark of the first place if the
/// score takes the first place of `leaderboard`.
pub fn submit_score(params: &Params, score: Score, leaderboard: &[Score]) -> (action: Action)
    ensures
        action@ == (ActionView::PostScore {
            url: hole_url(
                params.server@,
                params.query_args.user@,
                params.query_args.tournament@,
                params.query_args.hole as nat,
            ),
            score: outgoing(score@, score_views(leaderboard@)),
        }),
{
    let mut score = score;
    if score.is_first(leaderboard) {
        score.player_name.append(FIRST_PLACE_FLAG);
    }
    Action::PostScore { url: params.query_args.url(params.server.as_str()), score }
}

/// How far the taking of a score has come.
#[derive(Debug, PartialEq, Eq)]
pub enum PostState {
    /// The leaderboard of the hole has been asked for, to hold the score
    /// against it.
    LoadingLeaderboard(Params, Score),
    /// The score has been posted.
    Submitting(ViewHolePage),
    /// The request has ended.
    Done,
}

/// What a [`PostState`] stands for.
pub ghost enum PostStateView {
    LoadingLeaderboard {
        server: Seq<char>,
        user: Seq<char>,
        tournament: Seq<char>,
        hole: nat,
        score: ScoreView,
    },
    Submitting { user: Seq<char>, tournament: Seq<char>, hole: nat },
    Done,
}

impl View for PostState {
    type V = PostStateView;

    open spec fn view(&self) -> PostStateView {
        match self {
            PostState::LoadingLeaderboard(params, score) => PostStateView::LoadingLeaderboard {
                server: params.server@,
                user: params.query_args.user@,
                tournament: params.query_args.tournament@,
                hole: params.query_args.hole as nat,
                score: score@,
            },
            PostState::Submitting(page) => PostStateView::Submitting {
                user: page.user@,
                tournament: page.tournament@,
                hole: page.hole as nat,
            },
            PostState::Done => PostStateView::Done,
        }
    }
}

impl PostStateView {
    /// How many answers the request may still have to wait for.
    pub open spec fn steps_left(self) -> nat {
        match self {
            PostStateView::LoadingLeaderboard { .. } => 2,
            PostStateView::Submitting { .. } => 1,
            PostStateView::Done => 0,
        }
    }

    /// The redirect that a request in this state ends with, if it does not fail.
    pub open spec fn destination(self) -> Option<Seq<char>> {
        match self {
            PostStateView::LoadingLeaderboard { user, tournament, hole, .. } => Some(
                redirect(user, tournament, hole),
            ),
            PostStateView::Submitting { user, tournament, hole } => Some(
                redirect(user, tournament, hole),
            ),
            PostStateView::Done => None,
        }
    }
}

/// How the taking of a score begins: the form is turned into an entry, and
/// the leaderboard of the hole is asked for.
pub open spec fn post_start(
    server: Seq<char>,
    user: Seq<char>,
    tournament: Seq<char>,
    hole: nat,
    form: CustomScoreView,
) -> (PostStateView, ActionView) {
    (
        PostStateView::LoadingLeaderboard { server, user, tournament, hole, score: form_score(form) },
        ActionView::GetHole { url: hole_url(server, user, tournament, hole) },
    )
}

/// How the taking of a score goes on when `event` comes in `state`.
///
/// When the leaderboard is here, a score that it holds already is skipped,
/// and any other is posted, marked if it takes the first place. Skipped or
/// posted, the request ends with the redirect to the page of the hole. An
/// event that is a failure, or not the answer to what was asked, ends the
/// request.
pub open spec fn post_step(state: PostStateView, event: EventView) -> (PostStateView, ActionView) {
    match (state, event) {
        (
            PostStateView::LoadingLeaderboard { server, user, tournament, hole, score },
            EventView::Hole(answer),
        ) => match posted(score, answer.scores) {
            None => (PostStateView::Done, ActionView::Redirect(redirect(user, tournament, hole))),
            Some(entry) => (
                PostStateView::Submitting { user, tournament, hole },
                ActionView::PostScore {
                    url: hole_url(server, user, tournament, hole),
                    score: entry,
                },
            ),
        },
        (PostStateView::Submitting { user, tournament, hole }, EventView::Posted) => (
            PostStateView::Done,
            ActionView::Redirect(redirect(user, tournament, hole)),
        ),
        (_, event) => (PostStateView::Done, failure(event)),
    }
}

/// Begins to take the score of `form` for the hole that `params` name: asks
/// for the leaderboard of that hole.
pub fn post(params: Params, form: CustomScore) -> (begun: (PostState, Action))
    ensures
        (begun.0@, begun.1@) == post_start(
            params.server@,
            params.query_args.user@,
            params.query_args.tournament@,
            params.query_args.hole as nat,
            form@,
        ),
{
    let url = params.query_args.url(params.server.as_str());
    (PostState::LoadingLeaderboard(params, Score::from(form)), Action::GetHole { url })
}

impl PostState {
    /// Goes on with the taking of a score when `event` has come in: says what
    /// to do next, and how far that brings the request.
    pub fn advance(self, event: Event) -> (next: (PostState, Action))
        ensures
            (next.0@, next.1@) == post_step(self@, event@),
    {
        match (self, event) {
            (PostState::LoadingLeaderboard(params, score), Event::Hole(answer)) => {
                let leaderboard = answer.scores.as_slice();
                if score.is_duplicate(leaderboard) {
                    (PostState::Done, Action::Redirect(params.query_args.redirect()))
                } else {
                    let action = submit_score(&params, score, leaderboard);
                    (PostState::Submitting(params.query_args), action)
                }
            },
            (PostState::Submitting(page), Event::Posted) => (
                PostState::Done,
                Action::Redirect(page.redirect()),
            ),
            (_, event) => (PostState::Done, event.into_failure()),
        }
    }
}

/// The taking of a score ends: each step either ends the request, or asks for
/// one thing more and leaves fewer steps than there were, so that no request
/// asks for more than two things.
pub proof fn lemma_post_ends(state: PostStateView, event: EventView)
    ensures
        post_step(state, event).1.is_final() <==> post_step(state, event).0 is Done,
        !(state is Done) ==> post_step(state, event).0.steps_left() < state.steps_left(),
        state.steps_left() <= 2,
{
}

/// A failure is never made up for: a failure ends the request, and the user
/// is told of that very failure.
pub proof fn lemma_post_failure_ends(state: PostStateView, error: ErrorView)
    ensures
        post_step(state, EventView::Failed(error)) == (
            PostStateView::Done,
            ActionView::Fail(error),
        ),
{
}

/// Posted or skipped, a score leads back to the page of its hole: a request
/// that has not ended yet ends with a failure or with the redirect to that
/// page, and keeps that destination as long as it goes on.
pub proof fn lemma_post_leads_back(state: PostStateView, event: EventView)
    requires
        !(state is Done),
    ensures
        ({
            let (next, action) = post_step(state, event);
            if next is Done {
                action is Fail || action == ActionView::Redirect(state.destination()->0)
            } else {
                action is PostScore && next.destination() == state.destination()
            }
        }),
{
}

/// A submission is served in two steps or three: the leaderboard of the hole
/// is fetched; a score that it holds is skipped, and any other is posted to
/// the address of the hole, marked if it takes the first place; and in
/// either case the redirect to the page of the hole follows.
pub proof fn lemma_submission_is_served(
    server: Seq<char>,
    user: Seq<char>,
    tournament: Seq<char>,
    hole: nat,
    form: CustomScoreView,
    answer: HoleView,
)
    ensures
        ({
            let (begun, first) = post_start(server, user, tournament, hole, form);
            let (loaded, second) = post_step(begun, EventView::Hole(answer));
            let (ended, third) = post_step(loaded, EventView::Posted);
            let back = ActionView::Redirect(redirect(user, tournament, hole));
            &&& first == ActionView::GetHole { url: hole_url(server, user, tournament, hole) }
            &&& if is_duplicate(form_score(form), answer.scores) {
                second == back && loaded is Done
            } else {
                &&& second == ActionView::PostScore {
                    url: hole_url(server, user, tournament, hole),
                    score: outgoing(form_score(form), answer.scores),
                }
                &&& third == back
                &&& ended is Done
            }
        }),
{
}

/// A score that the leaderboard holds is not posted again. So of two
/// submissions of one score, where the leaderboard that the second one sees
/// holds the score, exactly one is posted if the first one saw a leaderboard
/// without it, and none otherwise.
pub proof fn lemma_posted_once(score: ScoreView, before: Seq<ScoreView>, after: Seq<ScoreView>)
    requires
        is_duplicate(score, after),
    ensures
        posted(score, after) is None,
        posts(score, before) + posts(score, after) == if is_duplicate(score, before) {
            0nat
        } else {
            1nat
        },
{
}

/// A score that was posted without the mark of the first place is found
/// again when it comes back: the leaderboard that holds what was posted
/// holds the score.
pub proof fn lemma_posted_unmarked_is_found(
    score: ScoreView,
    before: Seq<ScoreView>,
    after: Seq<ScoreView>,
)
    requires
        !is_first(score, before),
        posted(score, before) is Some,
        after.contains(posted(score, before)->0),
    ensures
        posted(score, after) is None,
{
}

/// The first place is marked, and nothing else is: what is posted carries
/// the mark exactly if the score is strictly lower than the best so far, or
/// the leaderboard is empty; the value is never touched.
pub proof fn lemma_mark_tells_first_place(score: ScoreView, leaderboard: Seq<ScoreView>)
    ensures
        outgoing(score, leaderboard).player_score == score.player_score,
        is_first(score, leaderboard) <==> outgoing(score, leaderboard).player_name
            == score.player_name + FIRST_PLACE_FLAG@,
        !is_first(score, leaderboard) <==> outgoing(score, leaderboard) == score,
{
    reveal_strlit(" 🏴");
}

/// On an empty leaderboard every score takes the first place: it is posted,
/// and with the mark.
pub proof fn lemma_empty_leaderboard_marks(score: ScoreView)
    ensures
        is_first(score, Seq::empty()),
        posted(score, Seq::empty()) == Some(flagged(score)),
{
}

} // verus!
