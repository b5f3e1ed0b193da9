//! Decisions behind the HTTP handlers.

pub mod auth;
pub mod reply;
pub mod flashcards;
pub mod review;
pub mod islands;
pub mod pages;
