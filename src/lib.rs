pub mod command;
pub mod controller;
pub mod launcher;
pub mod listener;
