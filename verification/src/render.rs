//! What each of the three pages shows, given what the scoring service
//! answered.

use crate::content::{
    link_views, row_views, Cells, CellsView, Element, ElementView, Link, LinkView, Page, Row,
    RowView,
};
use crate::model::{
    hole_views, score_views, tournament_views, Hole, HoleView, Score, ScoreView, ShortTournament,
    ShortTournamentView, Tournament, TournamentView,
};
use crate::page::{
    hole_query, hole_query_string, tournament_query, tournament_query_string, SelectHolePage,
    SelectTournamentPage, ViewHolePage,
};
use crate::text::{decimal, decimal_string, two_digit_string, two_digits};
use vstd::multiset::Multiset;
use vstd::prelude::*;
use vstd::string::StringExecFns;

verus! {

/// For how many seconds after its end a tournament is still listed.
pub const RECENT_WINDOW: u64 = 259200;

/// Where a tournament goes on the tournament selection.
#[derive(Debug, Clone, Copy, PartialEq, Eq, Structural)]
pub enum Listing {
    /// Among the active tournaments.
    Active,
    /// Among those that ended a short while ago.
    RecentlyEnded,
    /// Nowhere.
    Omitted,
}

/// Where a tournament goes at the time `now`: an active one among the active,
/// whatever its times; an inactive one among the recently ended if its end
/// lies at most [`RECENT_WINDOW`] seconds back, or ahead; any other nowhere.
pub open spec fn listing(tournament: ShortTournamentView, now: nat) -> Listing {
    if tournament.active {
        Listing::Active
    } else if tournament.t_end + RECENT_WINDOW >= now {
        Listing::RecentlyEnded
    } else {
        Listing::Omitted
    }
}

/// The tournaments of `list` that go to `place`, in the order of `list`.
pub open spec fn listed(
    list: Seq<ShortTournamentView>,
    now: nat,
    place: Listing,
) -> Seq<ShortTournamentView> {
    list.filter(|t: ShortTournamentView| listing(t, now) == place)
}

/// The link by which `user` picks a tournament.
pub open spec fn tournament_link(user: Seq<char>, tournament: ShortTournamentView) -> LinkView {
    LinkView {
        text: tournament.tournament_name,
        href: tournament_query(user, tournament.tournament_id),
    }
}

/// The links by which `user` picks one of the tournaments of `list`.
pub open spec fn tournament_links(
    user: Seq<char>,
    list: Seq<ShortTournamentView>,
) -> Seq<LinkView> {
    list.map_values(|t: ShortTournamentView| tournament_link(user, t))
}

/// The section of the active tournaments below its heading: the links, or a
/// notice in their place where there are none.
pub open spec fn active_section(links: Seq<LinkView>) -> Seq<ElementView> {
    if links.len() == 0 {
        seq![ElementView::Paragraph("Ingen aktive turneringer"@)]
    } else {
        seq![ElementView::Links(links)]
    }
}

/// The section of the recently ended tournaments: a heading and the links,
/// or nothing at all where there are none.
pub open spec fn ended_section(links: Seq<LinkView>) -> Seq<ElementView> {
    if links.len() == 0 {
        seq![]
    } else {
        seq![ElementView::Heading("Afsluttede turneringer"@), ElementView::Links(links)]
    }
}

/// The tournament selection of `user` at the time `now`.
pub open spec fn select_tournament_page(
    user: Seq<char>,
    list: Seq<ShortTournamentView>,
    now: nat,
) -> Seq<ElementView> {
    seq![
        ElementView::Title("Vælg en turnering"@),
        ElementView::Heading("Aktive turneringer"@),
    ] + active_section(tournament_links(user, listed(list, now, Listing::Active)))
        + ended_section(tournament_links(user, listed(list, now, Listing::RecentlyEnded)))
}

/// Every tournament goes to exactly one place: the three selections of a list
/// together hold each of its entries as often as the list does, and each
/// selection holds only entries that belong there.
pub proof fn lemma_listing_partitions(list: Seq<ShortTournamentView>, now: nat)
    ensures
        listed(list, now, Listing::Active).to_multiset().add(
            listed(list, now, Listing::RecentlyEnded).to_multiset(),
        ).add(listed(list, now, Listing::Omitted).to_multiset()) == list.to_multiset(),
        listed(list, now, Listing::Active).len() + listed(list, now, Listing::RecentlyEnded).len()
            + listed(list, now, Listing::Omitted).len() == list.len(),
        forall|place: Listing, i: int|
            0 <= i < listed(list, now, place).len() ==> listing(
                #[trigger] listed(list, now, place)[i],
                now,
            ) == place,
    decreases list.len(),
{
    broadcast use vstd::seq_lib::group_seq_properties;
    broadcast use vstd::seq_lib::group_filter_ensures;
    broadcast use vstd::multiset::group_multiset_axioms;

    if list.len() == 0 {
        assert(Multiset::<ShortTournamentView>::empty().add(Multiset::empty()).add(
            Multiset::empty(),
        ) =~= Multiset::empty());
    } else {
        let front = list.drop_last();
        let last = list.last();
        lemma_listing_partitions(front, now);
        assert(list == front.push(last));
        front.lemma_filter_push(last, |t: ShortTournamentView| listing(t, now) == Listing::Active);
        front.lemma_filter_push(
            last,
            |t: ShortTournamentView| listing(t, now) == Listing::RecentlyEnded,
        );
        front.lemma_filter_push(last, |t: ShortTournamentView| listing(t, now) == Listing::Omitted);
        assert(listed(list, now, Listing::Active).to_multiset().add(
            listed(list, now, Listing::RecentlyEnded).to_multiset(),
        ).add(listed(list, now, Listing::Omitted).to_multiset()) =~= list.to_multiset());
    }
}

impl ShortTournament {
    /// Where this tournament goes on the tournament selection at the time `now`.
    pub fn listing(&self, now: u64) -> (place: Listing)
        ensures
            place == listing(self@, now as nat),
    {
        if self.active {
            Listing::Active
        } else if now < RECENT_WINDOW || self.t_end >= now - RECENT_WINDOW {
            Listing::RecentlyEnded
        } else {
            Listing::Omitted
        }
    }

    /// The link by which the user of `page` picks this tournament.
    pub fn to_link(&self, page: &SelectTournamentPage) -> (link: Link)
        ensures
            link@ == tournament_link(page.user@, self@),
    {
        Link {
            text: self.tournament_name.clone(),
            href: tournament_query_string(page.user.as_str(), self.tournament_id.as_str()),
        }
    }
}

/// One more tournament of the list has been looked at: what that does to the
/// links of one place.
proof fn lemma_links_step(
    user: Seq<char>,
    list: Seq<ShortTournamentView>,
    i: int,
    now: nat,
    place: Listing,
)
    requires
        0 <= i < list.len(),
    ensures
        tournament_links(user, listed(list.take(i + 1), now, place)) == if listing(list[i], now)
            == place {
            tournament_links(user, listed(list.take(i), now, place)).push(
                tournament_link(user, list[i]),
            )
        } else {
            tournament_links(user, listed(list.take(i), now, place))
        },
{
    let pred = |t: ShortTournamentView| listing(t, now) == place;
    list.lemma_take_succ_push(i);
    list.take(i).lemma_filter_push(list[i], pred);
    list.take(i).filter(pred).lemma_push_map_commute(
        |t: ShortTournamentView| tournament_link(user, t),
        list[i],
    );
}

impl SelectTournamentPage {
    /// The links to the active tournaments of `tournaments`, and the links to
    /// those that ended a short while before `now`; each in the order of
    /// `tournaments`.
    pub fn partition(&self, tournaments: &Vec<ShortTournament>, now: u64) -> (links: (
        Vec<Link>,
        Vec<Link>,
    ))
        ensures
            link_views(links.0@) == tournament_links(
                self.user@,
                listed(tournament_views(tournaments@), now as nat, Listing::Active),
            ),
            link_views(links.1@) == tournament_links(
                self.user@,
                listed(tournament_views(tournaments@), now as nat, Listing::RecentlyEnded),
            ),
    {
        let ghost list = tournament_views(tournaments@);
        let mut active: Vec<Link> = Vec::new();
        let mut ended: Vec<Link> = Vec::new();
        let mut i: usize = 0;
        while i < tournaments.len()
            invariant
                0 <= i <= tournaments.len(),
                list == tournament_views(tournaments@),
                link_views(active@) == tournament_links(
                    self.user@,
                    listed(list.take(i as int), now as nat, Listing::Active),
                ),
                link_views(ended@) == tournament_links(
                    self.user@,
                    listed(list.take(i as int), now as nat, Listing::RecentlyEnded),
                ),
            decreases tournaments.len() - i,
        {
            let tournament = &tournaments[i];
            proof {
                lemma_links_step(self.user@, list, i as int, now as nat, Listing::Active);
                lemma_links_step(self.user@, list, i as int, now as nat, Listing::RecentlyEnded);
            }
            match tournament.listing(now) {
                Listing::Active => {
                    active.push(tournament.to_link(self));
                },
                Listing::RecentlyEnded => {
                    ended.push(tournament.to_link(self));
                },
                Listing::Omitted => {},
            }
            i += 1;
        }
        proof {
            list.lemma_take_len();
        }
        (active, ended)
    }

    /// What the page shows for the tournaments of its user at the time `now`:
    /// the title, the active tournaments under their heading, and, unless
    /// there are none, the recently ended ones under theirs.
    pub fn render(&self, tournaments: &Vec<ShortTournament>, now: u64) -> (page: Page)
        ensures
            page@ == select_tournament_page(
                self.user@,
                tournament_views(tournaments@),
                now as nat,
            ),
    {
        let (active, ended) = self.partition(tournaments, now);
        let mut page = Page::new();
        page.push(Element::Title(String::from_str("Vælg en turnering")));
        page.push(Element::Heading(String::from_str("Aktive turneringer")));
        if active.len() == 0 {
            page.push(Element::Paragraph(String::from_str("Ingen aktive turneringer")));
        } else {
            page.push(Element::Links(active));
        }
        if ended.len() != 0 {
            page.push(Element::Heading(String::from_str("Afsluttede turneringer")));
            page.push(Element::Links(ended));
        }
        assert(page@ =~= select_tournament_page(
            self.user@,
            tournament_views(tournaments@),
            now as nat,
        ));
        page
    }
}

/// The line that names a sponsor, or nothing where the sponsor is empty.
pub open spec fn sponsor_line(sponsor: Seq<char>) -> Seq<ElementView> {
    if sponsor.len() == 0 {
        seq![]
    } else {
        seq![ElementView::Paragraph("Sponsoreret af: "@ + sponsor)]
    }
}

/// The link by which `user` picks a hole of `tournament`.
pub open spec fn hole_link(user: Seq<char>, tournament: Seq<char>, hole: HoleView) -> LinkView {
    LinkView {
        text: "Hul "@ + decimal(hole.hole_number),
        href: hole_query(user, tournament, hole.hole_number),
    }
}

/// The links by which `user` picks one of the holes of `tournament`.
pub open spec fn hole_links(
    user: Seq<char>,
    tournament: Seq<char>,
    holes: Seq<HoleView>,
) -> Seq<LinkView> {
    holes.map_values(|h: HoleView| hole_link(user, tournament, h))
}

/// The holes of a tournament below their heading: the links, or a notice in
/// their place where the tournament has no holes.
pub open spec fn holes_section(links: Seq<LinkView>) -> Seq<ElementView> {
    if links.len() == 0 {
        seq![ElementView::Paragraph("Der er ingen huller i denne turnering"@)]
    } else {
        seq![ElementView::Links(links)]
    }
}

/// The hole selection of `user` for the tournament with the identifier
/// `tournament`, of which the scoring service said `answer`.
pub open spec fn select_hole_page(
    user: Seq<char>,
    tournament: Seq<char>,
    answer: TournamentView,
) -> Seq<ElementView> {
    seq![ElementView::Title(answer.tournament_name)] + sponsor_line(answer.tournament_sponsor)
        + seq![ElementView::Heading("Vælg et hul"@)] + holes_section(
        hole_links(user, tournament, answer.holes),
    )
}

/// Adds the line that names `sponsor` to `page`, unless the sponsor is empty.
fn push_sponsor_line(page: &mut Page, sponsor: &String)
    ensures
        final(page)@ == old(page)@ + sponsor_line(sponsor@),
{
    if !sponsor.as_str().is_empty() {
        let mut line = String::from_str("Sponsoreret af: ");
        line.append(sponsor.as_str());
        page.push(Element::Paragraph(line));
    }
}

impl Hole {
    /// The link by which the user of `page` picks this hole.
    pub fn to_link(&self, page: &SelectHolePage) -> (link: Link)
        ensures
            link@ == hole_link(page.user@, page.tournament@, self@),
    {
        let mut text = String::from_str("Hul ");
        text.append(decimal_string(self.hole_number as u64).as_str());
        Link {
            text,
            href: hole_query_string(
                page.user.as_str(),
                page.tournament.as_str(),
                self.hole_number,
            ),
        }
    }
}

impl SelectHolePage {
    /// What the page shows for its tournament: the name as the title, the
    /// sponsor if there is one, and the holes in the order given, or a notice
    /// that there are none.
    pub fn render(&self, tournament: &Tournament) -> (page: Page)
        ensures
            page@ == select_hole_page(self.user@, self.tournament@, tournament@),
    {
        let mut page = Page::new();
        page.push(Element::Title(tournament.tournament_name.clone()));
        push_sponsor_line(&mut page, &tournament.tournament_sponsor);
        page.push(Element::Heading(String::from_str("Vælg et hul")));
        if tournament.holes.len() == 0 {
            page.push(
                Element::Paragraph(String::from_str("Der er ingen huller i denne turnering")),
            );
        } else {
            let mut links: Vec<Link> = Vec::new();
            let mut i: usize = 0;
            while i < tournament.holes.len()
                invariant
                    0 <= i <= tournament.holes.len(),
                    links.len() == i,
                    forall|j: int|
                        0 <= j < i ==> (#[trigger] links[j])@ == hole_link(
                            self.user@,
                            self.tournament@,
                            tournament.holes[j]@,
                        ),
                decreases tournament.holes.len() - i,
            {
                links.push(tournament.holes[i].to_link(self));
                i += 1;
            }
            assert(link_views(links@) =~= hole_links(
                self.user@,
                self.tournament@,
                hole_views(tournament.holes@),
            ));
            page.push(Element::Links(links));
        }
        page
    }
}

/// The title of a hole: its text, or, where that is empty, a title made of
/// its number.
pub open spec fn hole_title(hole: HoleView) -> Seq<char> {
    if hole.hole_text.len() == 0 {
        "Hole "@ + decimal(hole.hole_number)
    } else {
        hole.hole_text
    }
}

/// A score as the leaderboard shows it: metres, a comma, two digits of
/// hundredths, and the unit.
pub open spec fn score_text(score: nat) -> Seq<char> {
    decimal(score / 100) + ","@ + two_digits(score % 100) + "m"@
}

/// The row of the score that stands at `index` of a leaderboard, counted from
/// zero: the rank is the position, counted from one.
pub open spec fn score_row(index: int, score: ScoreView) -> RowView {
    RowView::Entry(
        CellsView {
            rank: decimal((index + 1) as nat) + "."@,
            name: score.player_name,
            score: score_text(score.player_score),
        },
    )
}

/// The rows of a leaderboard: one for each score, in the order given, or a
/// single notice where there are no scores.
pub open spec fn leaderboard_rows(scores: Seq<ScoreView>) -> Seq<RowView> {
    if scores.len() == 0 {
        seq![RowView::Notice("Der er ingen noteringer endnu"@)]
    } else {
        Seq::new(scores.len(), |i: int| score_row(i, scores[i]))
    }
}

/// The leaderboard of a hole.
pub open spec fn leaderboard(scores: Seq<ScoreView>) -> ElementView {
    ElementView::Leaderboard {
        labels: CellsView { rank: "Nr."@, name: "Navn"@, score: "Score"@ },
        rows: leaderboard_rows(scores),
    }
}

/// The link that leads to the form on which a score for a hole is entered.
pub open spec fn submit_link(user: Seq<char>, tournament: Seq<char>, hole: nat) -> LinkView {
    LinkView {
        text: "Indsend notering"@,
        href: "/submit_score.html"@ + hole_query(user, tournament, hole),
    }
}

/// The link to the form, where scores are still taken, and nothing else.
pub open spec fn submit_section(
    user: Seq<char>,
    tournament: Seq<char>,
    hole: nat,
    active: bool,
) -> Seq<ElementView> {
    if active {
        seq![ElementView::Action(submit_link(user, tournament, hole))]
    } else {
        seq![]
    }
}

/// The page of a hole, of which the scoring service said `answer`, for `user`
/// and the tournament with the identifier `tournament`; `active` says whether
/// that tournament still takes scores.
pub open spec fn view_hole_page(
    user: Seq<char>,
    tournament: Seq<char>,
    answer: HoleView,
    active: bool,
) -> Seq<ElementView> {
    seq![ElementView::Title(hole_title(answer))] + sponsor_line(answer.hole_sponsor)
        + seq![leaderboard(answer.scores)] + submit_section(
        user,
        tournament,
        answer.hole_number,
        active,
    )
}

/// The position in `list` of the first tournament with the identifier
/// `tournament`.
pub open spec fn first_match(
    tournament: Seq<char>,
    list: Seq<ShortTournamentView>,
    i: int,
) -> bool {
    &&& 0 <= i < list.len()
    &&& list[i].tournament_id == tournament
    &&& forall|j: int| 0 <= j < i ==> (#[trigger] list[j]).tournament_id != tournament
}

/// Whether the tournament with the identifier `tournament` still takes
/// scores, going by `list`: the first entry with that identifier decides, and
/// a tournament that is not in the list does not.
pub open spec fn is_active(tournament: Seq<char>, list: Seq<ShortTournamentView>) -> bool {
    exists|i: int| first_match(tournament, list, i) && (#[trigger] list[i]).active
}

/// Writes [`score_text`].
pub fn score_string(score: u64) -> (text: String)
    ensures
        text@ == score_text(score as nat),
{
    let mut text = decimal_string(score / 100);
    text.append(",");
    text.append(two_digit_string(score % 100).as_str());
    text.append("m");
    text
}

impl Score {
    /// The row of this score, which stands at `index` of its leaderboard,
    /// counted from zero.
    pub fn to_row(&self, index: usize) -> (row: Row)
        requires
            index < usize::MAX,
        ensures
            row@ == score_row(index as int, self@),
    {
        let mut rank = decimal_string((index + 1) as u64);
        rank.append(".");
        Row::Entry(
            Cells {
                rank,
                name: self.player_name.clone(),
                score: score_string(self.player_score),
            },
        )
    }
}

impl ViewHolePage {
    /// Whether the tournament of this page still takes scores, going by the
    /// list of its user's tournaments.
    pub fn active(&self, tournament_list: &Vec<ShortTournament>) -> (active: bool)
        ensures
            active == is_active(self.tournament@, tournament_views(tournament_list@)),
    {
        let ghost list = tournament_views(tournament_list@);
        let mut i: usize = 0;
        while i < tournament_list.len()
            invariant
                0 <= i <= tournament_list.len(),
                list == tournament_views(tournament_list@),
                forall|j: int| 0 <= j < i ==> (#[trigger] list[j]).tournament_id != self.tournament@,
            decreases tournament_list.len() - i,
        {
            if tournament_list[i].tournament_id == self.tournament {
                assert(list[i as int].active == tournament_list[i as int].active);
                return tournament_list[i].active;
            }
            i += 1;
        }
        false
    }

    /// What the page shows for its hole: the title, the sponsor if there is
    /// one, the leaderboard in the order given, and the link to the form where
    /// `active` says that scores are still taken.
    pub fn render(&self, hole: &Hole, active: bool) -> (page: Page)
        ensures
            page@ == view_hole_page(self.user@, self.tournament@, hole@, active),
    {
        let mut page = Page::new();
        let title = if hole.hole_text.as_str().is_empty() {
            let mut title = String::from_str("Hole ");
            title.append(decimal_string(hole.hole_number as u64).as_str());
            title
        } else {
            hole.hole_text.clone()
        };
        page.push(Element::Title(title));
        push_sponsor_line(&mut page, &hole.hole_sponsor);
        let mut rows: Vec<Row> = Vec::new();
        if hole.scores.len() == 0 {
            rows.push(Row::Notice(String::from_str("Der er ingen noteringer endnu")));
        } else {
            let mut i: usize = 0;
            while i < hole.scores.len()
                invariant
                    0 <= i <= hole.scores.len(),
                    rows.len() == i,
                    forall|j: int|
                        0 <= j < i ==> (#[trigger] rows[j])@ == score_row(j, hole.scores[j]@),
                decreases hole.scores.len() - i,
            {
                rows.push(hole.scores[i].to_row(i));
                i += 1;
            }
        }
        assert(row_views(rows@) =~= leaderboard_rows(score_views(hole.scores@)));
        page.push(
            Element::Leaderboard {
                labels: Cells {
                    rank: String::from_str("Nr."),
                    name: String::from_str("Navn"),
                    score: String::from_str("Score"),
                },
                rows,
            },
        );
        if active {
            let mut href = String::from_str("/submit_score.html");
            href.append(
                hole_query_string(
                    self.user.as_str(),
                    self.tournament.as_str(),
                    hole.hole_number,
                ).as_str(),
            );
            page.push(Element::Action(Link { text: String::from_str("Indsend notering"), href }));
        }
        page
    }
}

} // verus!
