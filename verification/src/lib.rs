//! A light-weight front end to a tournament scoring service: which page a
//! request is for, what that page shows, and how a submitted score reaches
//! the leaderboard.
//!
//! The library never talks to anyone itself. Serving a request is a chain of
//! steps ([`get::get`] and [`post::post`] begin one), and each step says what
//! the surroundings are to do next ([`upstream::Action`]) and takes what came
//! of it ([`upstream::Event`]). What a page shows is a plain value
//! ([`content::Page`]); turning it into markup is left to the surroundings.

pub mod clock;
pub mod content;
pub mod error;
pub mod get;
pub mod model;
pub mod page;
pub mod post;
pub mod render;
pub mod text;
pub mod upstream;
