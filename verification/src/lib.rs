//! Combat resolution engine for a turn-based chat-bot game: a character
//! catalog with free-text name resolution, battle-session state with turn
//! ordering and damage application, and experience-point computation.

pub mod catalog;
pub mod chara;
pub mod errors;
pub mod rpg_core;
