//! An interactive catalog of named shell commands: the session state behind
//! the list, its live filter, the add/edit form and the hand-off of the chosen
//! command line.
//!
//! - [`app`]: the session and its operations.
//! - [`model`]: the session as plain values, and what each operation makes of
//!   them.
//! - [`laws`]: what holds of the operations taken together.
//! - [`filter`]: which entries the filter keeps, and which entry stands behind
//!   a row of the list.
//! - [`cursor`]: the highlighted row and how it moves.
//! - [`ui`]: what each key does, and where the form is drawn.
//! - [`commands`]: the stored form of the catalog.
//! - [`execute`]: the chosen command line split into program and arguments.
//! - [`cli`]: the one-shot flow that describes and saves a command line.
//! - [`text`]: texts as sequences of characters.
//!
//! The library reads no file, no key and no screen: its callers hand it what
//! they read, and do what it tells them.

pub mod app;
pub mod cli;
pub mod commands;
pub mod cursor;
pub mod execute;
pub mod filter;
pub mod laws;
pub mod model;
pub mod text;
pub mod ui;
