//! The decision logic of a Discord music bot: guild records, slot
//! admission, the text of its replies and the bookkeeping around each
//! guild's stored track queue.

mod clock;
pub mod commands;
pub mod history;
pub mod models;
pub mod number;
pub mod replies;
pub mod settings;
pub mod slots;
pub mod store;
