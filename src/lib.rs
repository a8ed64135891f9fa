//! Core of a terminal-login agent: the login-accounting record codec, the
//! privileged-call result helpers, banner rendering and the terminal session
//! controller.
pub mod record;
pub mod sys;
pub mod banner;
pub mod session;
