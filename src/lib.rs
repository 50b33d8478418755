//! Connection-acceptance and lifecycle core of a small game-companion server,
//! together with the plain data types that the rest of the program shares.

pub mod config;
pub mod coordinates;
pub mod database;
pub mod fuel;
pub mod lifecycle;
pub mod tls;
pub mod util;
