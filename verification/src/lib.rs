//! Request-handling logic of a blog backend: validation, parsing and the
//! decisions its HTTP handlers take, independent of transport and storage.
pub mod text;
pub mod numbers;
pub mod errors;
pub mod access;
pub mod paths;
pub mod serving;
pub mod demos;
pub mod links;
pub mod project_links;
pub mod digest;
pub mod jsdos;
pub mod archive;
pub mod v86;
pub mod multipart;
pub mod domain;
pub mod handlers;
pub mod trash;
pub mod shortnames;
pub mod posts;
pub mod confinement;
pub mod audiobooks;
pub mod syncing;
pub mod media_intake;
pub mod urls;
pub mod zipread;
pub mod timestamps;
pub mod game_update;
pub mod flows;
pub mod plans;
pub mod v86_storage;
