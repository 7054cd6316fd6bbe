//! Core of an omikuji (fortune slip) service: a conversational submission
//! state machine that authors a slip step by step, a session store holding at
//! most one in-progress draft per user identity, a slip repository with
//! moderation scores, a uniform random draw over eligible slips, and a voting
//! engine. The chat transport and the durable store's connection live outside
//! this crate; the logic here is verified.

pub mod codec;
pub mod keyboard;
pub mod machine;
pub mod models;
pub mod repository;
pub mod store;
pub mod text;
