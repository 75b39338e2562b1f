pub mod at_task;
pub mod command;
pub mod dispatcher;
pub mod grammar;
pub mod handler;
pub mod handlers;
pub mod number;
pub mod round_trip;
