//! A verified core for a small HTTP gateway that fronts a game-server
//! directory API: it translates query parameters into upstream JSON request
//! bodies, interprets upstream JSON responses, and renders record sets as
//! CSV text. The surrounding HTTP server and the outbound calls live
//! outside this crate and hand plain values in and out.

pub mod chars;
pub mod csvtext;
pub mod handler;
pub mod jsontext;
pub mod num;
pub mod query;
pub mod table;
pub mod upstream;
