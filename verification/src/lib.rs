//! Session acquisition and schedule retrieval for a temple appointment portal.
//!
//! The crate holds the decisions of the system as verified functions on plain
//! values: which calendar days a schedule fetch asks for, how a cached
//! credential is framed and revalidated, how the login flow proceeds step by
//! step, and how fetched sessions are laid out in a grid. Sending requests,
//! driving the browser and writing files is left to the program around it.

pub mod calendar;
pub mod client;
pub mod data;
pub mod directory;
pub mod histogram;
pub mod login;
pub mod network;
pub mod serde_date;
pub mod serde_status;
pub mod text;
pub mod timestamps;
pub mod visualize;
