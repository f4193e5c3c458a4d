//! The decisions of a small Discord bot: its slash commands, the games of
//! rock, paper, scissors it referees, and the replies it gives.

pub mod command;
pub mod commands;
pub mod duel;
pub mod game;
pub mod handler;
pub mod text;
