//! Core of a portfolio browser: the data model of repository sections with
//! its query filtering, the load-state machine that mediates the single
//! fetch of the remote portfolio document, and the plain-value theme palette.
//! A thin UI shell drives these through redraws; everything it decides on is
//! specified and verified here.

pub mod app_state;
pub mod data;
pub mod loader;
pub mod theme;
pub mod widgets;
