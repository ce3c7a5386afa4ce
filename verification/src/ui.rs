//! The menu surface of the interactive front end: the actions a user can
//! pick and the rule that reads a menu choice.

pub mod cli;
