use bullseyegolf_light::clock::secs_since_epoch;
use bullseyegolf_light::content::{Cells, Element, Link, Page, Row};
use bullseyegolf_light::error::Error;
use bullseyegolf_light::get::{get, GetState, Params, QueryParams};
use bullseyegolf_light::model::{Hole, Score, ShortTournament, Tournament};
use bullseyegolf_light::page::{SelectHolePage, SelectTournamentPage, ViewHolePage};
use bullseyegolf_light::upstream::{
    Action, Event, NO_HOLE_IMAGES, NO_HOLE_IMAGES_VALUE, UNEXPECTED_EVENT,
};

const NOW: u64 = 1_700_000_000;

fn params(tournament: Option<&str>, hole: Option<u8>) -> Params {
    Params {
        server: String::from("https://api.example.org"),
        query_args: QueryParams {
            user: String::from("alice"),
            tournament: tournament.map(String::from),
            hole,
        },
    }
}

fn tournament(id: &str, name: &str, active: bool, t_end: u64) -> ShortTournament {
    ShortTournament {
        active,
        t_start: 1_600_000_000,
        t_end,
        tournament_id: String::from(id),
        tournament_name: String::from(name),
    }
}

fn link(text: &str, href: &str) -> Link {
    Link { text: String::from(text), href: String::from(href) }
}

fn empty_hole(number: u8) -> Hole {
    Hole {
        hole_number: number,
        hole_text: String::new(),
        hole_sponsor: String::new(),
        scores: Vec::new(),
    }
}

fn no_scores_table() -> Element {
    Element::Leaderboard {
        labels: Cells {
            rank: String::from("Nr."),
            name: String::from("Navn"),
            score: String::from("Score"),
        },
        rows: vec![Row::Notice(String::from("Der er ingen noteringer endnu"))],
    }
}

fn unexpected() -> Action {
    Action::Fail(Error::CriticalServer(String::from(UNEXPECTED_EVENT)))
}

#[test]
fn user_alone_gets_the_tournament_selection() {
    let (state, action) = get(params(None, None));
    assert_eq!(
        state,
        GetState::ListingTournaments(SelectTournamentPage { user: String::from("alice") })
    );
    assert_eq!(action, Action::ListTournaments { url: String::from("https://api.example.org/alice") });

    let list = vec![
        tournament("open2024", "Open 2024", true, NOW + 86400),
        tournament("autumn", "Autumn", false, NOW - 259200),
        tournament("old", "Old", false, NOW - 259201),
    ];
    let (state, action) = state.advance(Event::Tournaments(list));
    assert_eq!(action, Action::ReadClock);

    let (state, action) = state.advance(Event::Clock(NOW));
    assert_eq!(state, GetState::Done);
    assert_eq!(
        action,
        Action::Respond(Page {
            elements: vec![
                Element::Title(String::from("Vælg en turnering")),
                Element::Heading(String::from("Aktive turneringer")),
                Element::Links(vec![link("Open 2024", "?u=alice&t=open2024")]),
                Element::Heading(String::from("Afsluttede turneringer")),
                Element::Links(vec![link("Autumn", "?u=alice&t=autumn")]),
            ],
        })
    );
}

#[test]
fn hole_without_tournament_gets_the_tournament_selection_too() {
    assert_eq!(get(params(None, Some(3))), get(params(None, None)));
}

#[test]
fn tournament_selection_lists_only_active_when_nothing_ended_lately() {
    let (state, _) = get(params(None, None));
    let list = vec![
        tournament("old", "Old", false, 0),
        tournament("open2024", "Open 2024", true, NOW + 86400),
    ];
    let (state, _) = state.advance(Event::Tournaments(list));
    let (_, action) = state.advance(Event::Clock(NOW));
    assert_eq!(
        action,
        Action::Respond(Page {
            elements: vec![
                Element::Title(String::from("Vælg en turnering")),
                Element::Heading(String::from("Aktive turneringer")),
                Element::Links(vec![link("Open 2024", "?u=alice&t=open2024")]),
            ],
        })
    );
}

#[test]
fn tournament_gets_the_hole_selection() {
    let (state, action) = get(params(Some("open2024"), None));
    assert_eq!(
        state,
        GetState::LoadingTournament(SelectHolePage {
            user: String::from("alice"),
            tournament: String::from("open2024"),
        })
    );
    assert_eq!(
        action,
        Action::GetTournament { url: String::from("https://api.example.org/alice/open2024") }
    );
    let answer = Tournament {
        tournament_name: String::from("Open 2024"),
        tournament_sponsor: String::new(),
        holes: vec![empty_hole(1)],
    };
    let (state, action) = state.advance(Event::Tournament(answer));
    assert_eq!(state, GetState::Done);
    assert_eq!(
        action,
        Action::Respond(Page {
            elements: vec![
                Element::Title(String::from("Open 2024")),
                Element::Heading(String::from("Vælg et hul")),
                Element::Links(vec![link("Hul 1", "?u=alice&t=open2024&h=1")]),
            ],
        })
    );
}

#[test]
fn the_hint_to_leave_out_pictures() {
    assert_eq!(NO_HOLE_IMAGES, "No-Hole-Images");
    assert_eq!(NO_HOLE_IMAGES_VALUE, "true");
}

#[test]
fn hole_without_scores_in_a_tournament_that_is_not_listed() {
    let (state, action) = get(params(Some("open2024"), Some(3)));
    assert_eq!(
        action,
        Action::GetHole { url: String::from("https://api.example.org/alice/open2024/3") }
    );
    let (state, action) = state.advance(Event::Hole(empty_hole(3)));
    assert_eq!(
        state,
        GetState::CheckingActivity(
            ViewHolePage {
                user: String::from("alice"),
                tournament: String::from("open2024"),
                hole: 3,
            },
            empty_hole(3)
        )
    );
    assert_eq!(action, Action::ListTournaments { url: String::from("https://api.example.org/alice") });
    let (state, action) =
        state.advance(Event::Tournaments(vec![tournament("spring", "Spring", true, NOW)]));
    assert_eq!(state, GetState::Done);
    assert_eq!(
        action,
        Action::Respond(Page {
            elements: vec![Element::Title(String::from("Hole 3")), no_scores_table()],
        })
    );
}

#[test]
fn hole_without_scores_in_an_active_tournament() {
    let (state, _) = get(params(Some("open2024"), Some(3)));
    let (state, _) = state.advance(Event::Hole(empty_hole(3)));
    let (_, action) =
        state.advance(Event::Tournaments(vec![tournament("open2024", "Open 2024", true, NOW)]));
    assert_eq!(
        action,
        Action::Respond(Page {
            elements: vec![
                Element::Title(String::from("Hole 3")),
                no_scores_table(),
                Element::Action(link(
                    "Indsend notering",
                    "/submit_score.html?u=alice&t=open2024&h=3"
                )),
            ],
        })
    );
}

#[test]
fn hole_in_a_tournament_that_has_ended() {
    let (state, _) = get(params(Some("open2024"), Some(3)));
    let hole = Hole {
        hole_number: 3,
        hole_text: String::from("Closest to the pin"),
        hole_sponsor: String::new(),
        scores: vec![Score { player_name: String::from("Alice"), player_score: 1050 }],
    };
    let (state, _) = state.advance(Event::Hole(hole));
    let (_, action) =
        state.advance(Event::Tournaments(vec![tournament("open2024", "Open 2024", false, NOW)]));
    assert_eq!(
        action,
        Action::Respond(Page {
            elements: vec![
                Element::Title(String::from("Closest to the pin")),
                Element::Leaderboard {
                    labels: Cells {
                        rank: String::from("Nr."),
                        name: String::from("Navn"),
                        score: String::from("Score"),
                    },
                    rows: vec![Row::Entry(Cells {
                        rank: String::from("1."),
                        name: String::from("Alice"),
                        score: String::from("10,50m"),
                    })],
                },
            ],
        })
    );
}

#[test]
fn failure_ends_a_request_wherever_it_stands() {
    let error = || Error::BackendStatus(String::from("404"));
    let (state, _) = get(params(None, None));
    assert_eq!(state.advance(Event::Failed(error())), (GetState::Done, Action::Fail(error())));

    let (state, _) = get(params(None, None));
    let (state, _) = state.advance(Event::Tournaments(Vec::new()));
    assert_eq!(
        state.advance(Event::Failed(Error::CriticalServer(String::from("clock")))),
        (GetState::Done, Action::Fail(Error::CriticalServer(String::from("clock"))))
    );

    let (state, _) = get(params(Some("open2024"), None));
    assert_eq!(state.advance(Event::Failed(error())), (GetState::Done, Action::Fail(error())));

    let (state, _) = get(params(Some("open2024"), Some(3)));
    assert_eq!(state.advance(Event::Failed(error())), (GetState::Done, Action::Fail(error())));

    let (state, _) = get(params(Some("open2024"), Some(3)));
    let (state, _) = state.advance(Event::Hole(empty_hole(3)));
    assert_eq!(state.advance(Event::Failed(error())), (GetState::Done, Action::Fail(error())));
}

#[test]
fn answer_to_something_else_is_a_critical_error() {
    let (state, _) = get(params(None, None));
    assert_eq!(state.advance(Event::Hole(empty_hole(3))), (GetState::Done, unexpected()));
    let (state, _) = get(params(None, None));
    assert_eq!(state.advance(Event::Clock(NOW)), (GetState::Done, unexpected()));
    let (state, _) = get(params(Some("open2024"), None));
    assert_eq!(state.advance(Event::Tournaments(Vec::new())), (GetState::Done, unexpected()));
    let (state, _) = get(params(Some("open2024"), Some(3)));
    assert_eq!(state.advance(Event::Posted), (GetState::Done, unexpected()));
    assert_eq!(GetState::Done.advance(Event::Clock(NOW)), (GetState::Done, unexpected()));
}

#[test]
fn the_clock_runs_after_the_epoch() {
    match secs_since_epoch() {
        Ok(now) => assert!(now > 1_000_000_000),
        Err(error) => assert!(matches!(error, Error::CriticalServer(_))),
    }
}
