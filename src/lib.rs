//! A single-user issue tracker: epics that own stories, kept in one
//! persisted document, and the page and navigation logic of its terminal
//! front end. A small savings account type stands beside it in `bank`.
pub mod bank;
pub mod error;
pub mod models;
pub mod state;
pub mod db;
pub mod input;
pub mod page_helpers;
pub mod pages;
pub mod navigator;
