//! A modal, vim-flavoured keyboard engine for a small set of sheets of dated,
//! labelled transactions.
//!
//! [`model`] holds the sheets, [`view`] the cursor over them, and
//! [`controller`] turns key presses into changes of both: it gathers counts
//! and multi-key commands, picks the first binding whose keys and guard fit,
//! and hands every key to a popup for as long as one is open.
pub mod controller;
pub mod event;
pub mod model;
pub mod strings;
pub mod view;
