use bullseyegolf_light::content::{Cells, Element, Link, Page, Row};
use bullseyegolf_light::model::{Hole, Score, ShortTournament, Tournament};
use bullseyegolf_light::page::{SelectHolePage, SelectTournamentPage, ViewHolePage};
use bullseyegolf_light::render::{Listing, RECENT_WINDOW};

const NOW: u64 = 1_700_000_000;

fn tournament(id: &str, name: &str, active: bool, t_end: u64) -> ShortTournament {
    ShortTournament {
        active,
        t_start: 1_600_000_000,
        t_end,
        tournament_id: String::from(id),
        tournament_name: String::from(name),
    }
}

fn link(text: &str, href: &str) -> Link {
    Link { text: String::from(text), href: String::from(href) }
}

fn title(text: &str) -> Element {
    Element::Title(String::from(text))
}

fn heading(text: &str) -> Element {
    Element::Heading(String::from(text))
}

fn paragraph(text: &str) -> Element {
    Element::Paragraph(String::from(text))
}

fn entry(rank: &str, name: &str, score: &str) -> Row {
    Row::Entry(Cells {
        rank: String::from(rank),
        name: String::from(name),
        score: String::from(score),
    })
}

fn labels() -> Cells {
    Cells { rank: String::from("Nr."), name: String::from("Navn"), score: String::from("Score") }
}

fn score(name: &str, value: u64) -> Score {
    Score { player_name: String::from(name), player_score: value }
}

fn alice_list() -> SelectTournamentPage {
    SelectTournamentPage { user: String::from("alice") }
}

fn alice_open() -> SelectHolePage {
    SelectHolePage { user: String::from("alice"), tournament: String::from("open2024") }
}

fn alice_open_3() -> ViewHolePage {
    ViewHolePage { user: String::from("alice"), tournament: String::from("open2024"), hole: 3 }
}

fn hole(number: u8, text: &str, sponsor: &str, scores: Vec<Score>) -> Hole {
    Hole {
        hole_number: number,
        hole_text: String::from(text),
        hole_sponsor: String::from(sponsor),
        scores,
    }
}

#[test]
fn the_window_is_three_days() {
    assert_eq!(RECENT_WINDOW, 3 * 86400);
    assert_eq!(RECENT_WINDOW, 259200);
}

#[test]
fn active_tournament_is_listed_whatever_its_times() {
    assert_eq!(tournament("a", "A", true, 0).listing(NOW), Listing::Active);
    assert_eq!(tournament("a", "A", true, NOW).listing(NOW), Listing::Active);
    assert_eq!(tournament("a", "A", true, u64::MAX).listing(NOW), Listing::Active);
    assert_eq!(tournament("a", "A", true, 5).listing(u64::MAX), Listing::Active);
}

#[test]
fn inactive_tournament_is_recent_up_to_the_end_of_the_window() {
    assert_eq!(tournament("a", "A", false, NOW).listing(NOW), Listing::RecentlyEnded);
    assert_eq!(tournament("a", "A", false, NOW + 10).listing(NOW), Listing::RecentlyEnded);
    assert_eq!(tournament("a", "A", false, NOW - 259199).listing(NOW), Listing::RecentlyEnded);
    assert_eq!(tournament("a", "A", false, NOW - 259200).listing(NOW), Listing::RecentlyEnded);
}

#[test]
fn inactive_tournament_is_omitted_after_the_window() {
    assert_eq!(tournament("a", "A", false, NOW - 259201).listing(NOW), Listing::Omitted);
    assert_eq!(tournament("a", "A", false, 0).listing(NOW), Listing::Omitted);
    assert_eq!(tournament("a", "A", false, 0).listing(u64::MAX), Listing::Omitted);
}

#[test]
fn early_clock_does_not_wrap_around() {
    assert_eq!(tournament("a", "A", false, 0).listing(0), Listing::RecentlyEnded);
    assert_eq!(tournament("a", "A", false, 0).listing(259199), Listing::RecentlyEnded);
    assert_eq!(tournament("a", "A", false, 0).listing(259200), Listing::RecentlyEnded);
    assert_eq!(tournament("a", "A", false, 0).listing(259201), Listing::Omitted);
    assert_eq!(tournament("a", "A", false, u64::MAX).listing(u64::MAX), Listing::RecentlyEnded);
}

#[test]
fn partition_counts_every_tournament_once() {
    let list = vec![
        tournament("a", "A", true, NOW + 1000),
        tournament("b", "B", false, NOW - 1000),
        tournament("c", "C", false, NOW - 300_000),
        tournament("d", "D", true, NOW - 300_000),
        tournament("e", "E", false, NOW - 259_200),
        tournament("f", "F", false, NOW - 259_201),
    ];
    let (active, ended) = alice_list().partition(&list, NOW);
    let omitted = list.iter().filter(|t| t.listing(NOW) == Listing::Omitted).count();
    assert_eq!(active.len() + ended.len() + omitted, list.len());
    assert_eq!(
        active,
        vec![link("A", "?u=alice&t=a"), link("D", "?u=alice&t=d")]
    );
    assert_eq!(
        ended,
        vec![link("B", "?u=alice&t=b"), link("E", "?u=alice&t=e")]
    );
    assert_eq!(omitted, 2);
}

#[test]
fn partition_keeps_the_order_given() {
    let list = vec![
        tournament("z", "Z", true, 0),
        tournament("m", "M", false, NOW),
        tournament("a", "A", true, 0),
        tournament("b", "B", false, NOW),
    ];
    let (active, ended) = alice_list().partition(&list, NOW);
    assert_eq!(active, vec![link("Z", "?u=alice&t=z"), link("A", "?u=alice&t=a")]);
    assert_eq!(ended, vec![link("M", "?u=alice&t=m"), link("B", "?u=alice&t=b")]);
}

#[test]
fn partition_of_nothing_is_empty() {
    let (active, ended) = alice_list().partition(&Vec::new(), NOW);
    assert!(active.is_empty());
    assert!(ended.is_empty());
}

#[test]
fn tournament_link_names_user_and_tournament() {
    assert_eq!(
        tournament("open2024", "Open 2024", true, 0).to_link(&alice_list()),
        link("Open 2024", "?u=alice&t=open2024")
    );
}

#[test]
fn select_tournament_lists_active_and_recently_ended() {
    let list = vec![
        tournament("open2024", "Open 2024", true, NOW + 86400),
        tournament("old", "Old", false, NOW - 259_201),
        tournament("spring", "Spring", false, NOW - 86400),
        tournament("club", "Club", true, NOW - 400_000),
    ];
    assert_eq!(
        alice_list().render(&list, NOW),
        Page {
            elements: vec![
                title("Vælg en turnering"),
                heading("Aktive turneringer"),
                Element::Links(vec![
                    link("Open 2024", "?u=alice&t=open2024"),
                    link("Club", "?u=alice&t=club"),
                ]),
                heading("Afsluttede turneringer"),
                Element::Links(vec![link("Spring", "?u=alice&t=spring")]),
            ],
        }
    );
}

#[test]
fn select_tournament_without_recently_ended_has_no_second_section() {
    let list = vec![
        tournament("open2024", "Open 2024", true, NOW + 86400),
        tournament("old", "Old", false, NOW - 259_201),
    ];
    assert_eq!(
        alice_list().render(&list, NOW),
        Page {
            elements: vec![
                title("Vælg en turnering"),
                heading("Aktive turneringer"),
                Element::Links(vec![link("Open 2024", "?u=alice&t=open2024")]),
            ],
        }
    );
}

#[test]
fn select_tournament_without_active_says_so_under_the_heading() {
    let list = vec![tournament("spring", "Spring", false, NOW - 86400)];
    assert_eq!(
        alice_list().render(&list, NOW),
        Page {
            elements: vec![
                title("Vælg en turnering"),
                heading("Aktive turneringer"),
                paragraph("Ingen aktive turneringer"),
                heading("Afsluttede turneringer"),
                Element::Links(vec![link("Spring", "?u=alice&t=spring")]),
            ],
        }
    );
}

#[test]
fn select_tournament_of_nothing() {
    assert_eq!(
        alice_list().render(&Vec::new(), NOW),
        Page {
            elements: vec![
                title("Vælg en turnering"),
                heading("Aktive turneringer"),
                paragraph("Ingen aktive turneringer"),
            ],
        }
    );
}

#[test]
fn hole_link_names_user_tournament_and_hole() {
    assert_eq!(
        hole(7, "Seven", "", Vec::new()).to_link(&alice_open()),
        link("Hul 7", "?u=alice&t=open2024&h=7")
    );
}

#[test]
fn select_hole_with_sponsor_and_holes() {
    let answer = Tournament {
        tournament_name: String::from("Open 2024"),
        tournament_sponsor: String::from("Acme"),
        holes: vec![
            hole(1, "", "", Vec::new()),
            hole(2, "Two", "", Vec::new()),
            hole(18, "", "", Vec::new()),
        ],
    };
    assert_eq!(
        alice_open().render(&answer),
        Page {
            elements: vec![
                title("Open 2024"),
                paragraph("Sponsoreret af: Acme"),
                heading("Vælg et hul"),
                Element::Links(vec![
                    link("Hul 1", "?u=alice&t=open2024&h=1"),
                    link("Hul 2", "?u=alice&t=open2024&h=2"),
                    link("Hul 18", "?u=alice&t=open2024&h=18"),
                ]),
            ],
        }
    );
}

#[test]
fn select_hole_without_sponsor_and_holes() {
    let answer = Tournament {
        tournament_name: String::from("Open 2024"),
        tournament_sponsor: String::new(),
        holes: Vec::new(),
    };
    assert_eq!(
        alice_open().render(&answer),
        Page {
            elements: vec![
                title("Open 2024"),
                heading("Vælg et hul"),
                paragraph("Der er ingen huller i denne turnering"),
            ],
        }
    );
}

#[test]
fn select_hole_keeps_the_order_given() {
    let answer = Tournament {
        tournament_name: String::from("T"),
        tournament_sponsor: String::new(),
        holes: vec![hole(9, "", "", Vec::new()), hole(3, "", "", Vec::new())],
    };
    assert_eq!(
        alice_open().render(&answer).elements[2],
        Element::Links(vec![
            link("Hul 9", "?u=alice&t=open2024&h=9"),
            link("Hul 3", "?u=alice&t=open2024&h=3"),
        ])
    );
}

#[test]
fn view_hole_without_scores_has_one_row_with_a_notice() {
    let answer = hole(3, "", "", Vec::new());
    let page = alice_open_3().render(&answer, false);
    assert_eq!(
        page,
        Page {
            elements: vec![
                title("Hole 3"),
                Element::Leaderboard {
                    labels: labels(),
                    rows: vec![Row::Notice(String::from("Der er ingen noteringer endnu"))],
                },
            ],
        }
    );
}

#[test]
fn view_hole_shows_the_link_to_the_form_only_when_active() {
    let answer = hole(3, "", "", Vec::new());
    let submit = Element::Action(link(
        "Indsend notering",
        "/submit_score.html?u=alice&t=open2024&h=3",
    ));
    let shown = alice_open_3().render(&answer, true);
    assert_eq!(shown.elements.len(), 3);
    assert_eq!(shown.elements[2], submit);
    let hidden = alice_open_3().render(&answer, false);
    assert_eq!(hidden.elements.len(), 2);
    assert!(!hidden.elements.contains(&submit));
}

#[test]
fn view_hole_ranks_by_position() {
    let answer = hole(
        3,
        "The long one",
        "Acme",
        vec![score("Alice", 1050), score("Bob 🏴", 999), score("Carol", 5)],
    );
    assert_eq!(
        alice_open_3().render(&answer, true),
        Page {
            elements: vec![
                title("The long one"),
                paragraph("Sponsoreret af: Acme"),
                Element::Leaderboard {
                    labels: labels(),
                    rows: vec![
                        entry("1.", "Alice", "10,50m"),
                        entry("2.", "Bob 🏴", "9,99m"),
                        entry("3.", "Carol", "0,05m"),
                    ],
                },
                Element::Action(link(
                    "Indsend notering",
                    "/submit_score.html?u=alice&t=open2024&h=3",
                )),
            ],
        }
    );
}

#[test]
fn view_hole_numbers_many_rows() {
    let mut scores = Vec::new();
    let mut i: u64 = 0;
    while i < 12 {
        scores.push(score("p", i));
        i += 1;
    }
    let page = alice_open_3().render(&hole(3, "", "", scores), false);
    match &page.elements[1] {
        Element::Leaderboard { rows, .. } => {
            assert_eq!(rows.len(), 12);
            assert_eq!(rows[0], entry("1.", "p", "0,00m"));
            assert_eq!(rows[9], entry("10.", "p", "0,09m"));
            assert_eq!(rows[11], entry("12.", "p", "0,11m"));
        }
        other => panic!("not a leaderboard: {:?}", other),
    }
}

#[test]
fn view_hole_links_to_the_hole_that_was_answered() {
    let page = alice_open_3().render(&hole(4, "", "", Vec::new()), true);
    assert_eq!(page.elements[0], title("Hole 4"));
    assert_eq!(
        page.elements[2],
        Element::Action(link("Indsend notering", "/submit_score.html?u=alice&t=open2024&h=4"))
    );
}

#[test]
fn score_row_counts_from_one() {
    assert_eq!(score("Alice", 1234).to_row(0), entry("1.", "Alice", "12,34m"));
    assert_eq!(score("Alice", 1234).to_row(99), entry("100.", "Alice", "12,34m"));
}

#[test]
fn tournament_in_the_list_decides_whether_scores_are_taken() {
    let list = vec![
        tournament("spring", "Spring", true, NOW),
        tournament("open2024", "Open 2024", true, NOW),
    ];
    assert!(alice_open_3().active(&list));
    let list = vec![
        tournament("spring", "Spring", true, NOW),
        tournament("open2024", "Open 2024", false, NOW),
    ];
    assert!(!alice_open_3().active(&list));
}

#[test]
fn tournament_that_is_not_in_the_list_takes_no_scores() {
    assert!(!alice_open_3().active(&Vec::new()));
    assert!(!alice_open_3().active(&vec![tournament("spring", "Spring", true, NOW)]));
}

#[test]
fn first_entry_of_a_tournament_decides() {
    let list = vec![
        tournament("open2024", "Open 2024", false, NOW),
        tournament("open2024", "Open 2024", true, NOW),
    ];
    assert!(!alice_open_3().active(&list));
    let list = vec![
        tournament("open2024", "Open 2024", true, NOW),
        tournament("open2024", "Open 2024", false, NOW),
    ];
    assert!(alice_open_3().active(&list));
}

#[test]
fn page_grows_at_its_end() {
    let mut page = Page::new();
    assert!(page.elements.is_empty());
    page.push(title("a"));
    page.push(heading("b"));
    assert_eq!(page, Page { elements: vec![title("a"), heading("b")] });
}
