//! Coordination of agents through tickets and notes kept in a database:
//! the records, the statements that read and change them, and the rules
//! that decide what a command does with what the database answers.

pub mod agent;
pub mod cli;
pub mod command;
pub mod clock;
pub mod error;
pub mod note;
pub mod options;
pub mod sqlx;
pub mod text;
pub mod ticket;
