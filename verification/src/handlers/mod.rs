//! Wire shapes of every endpoint group.
pub mod audiobook;
pub mod auth;
pub mod dashboard;
pub mod game;
pub mod mail;
pub mod media;
pub mod newsletter;
pub mod post;
pub mod project;
pub mod series;
pub mod sync;
pub mod user;
