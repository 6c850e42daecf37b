//! Matchmaking coordinator for multiplayer game clients.
//!
//! A client asks to be placed into a lobby that already exists. Where no
//! lobby suits it, the client asks for leave to create one, and a
//! time-bounded creation permit sees to it that one client at a time is
//! told to do so.
//!
//! The library holds the bookkeeping and the arbitration, and opens no
//! socket. Every rule is stated for an operation that takes the current
//! time as an argument and hands back plain values; `quick_join_now` and
//! `request_permit_now` read the system clock and go on from there.

pub mod clock;
pub mod wall_clock;
pub mod models;
pub mod registry;
pub mod permit;
pub mod coordinator;
pub mod laws;
