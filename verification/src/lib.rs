//! The logic of an administrative console for a directory of users and groups,
//! kept apart from any user-interface runtime.
//!
//! Every widget is a state machine: it is handed a message, changes its own
//! state, and returns the effects (network calls, notifications to its parent)
//! that the surrounding runtime has to carry out. The runtime sends each
//! request, and hands the answer back as a message that carries the handle
//! under which the request was sent.
//!
//! * [`task`] keeps the books for the one operation that a widget may have in
//!   flight, and tells the answer to the latest operation from stale ones.
//! * [`error`] holds the failures, and the sink through which a widget
//!   surfaces them.
//! * [`batch`] runs one operation for each item of a selection, strictly one
//!   after the other, and stops at the first failure.
//! * [`components`] holds the widgets: the pickers, the two widgets that add
//!   memberships in batches, and the two tables.
//! * [`text`] and [`decimal`] hold the matching of search texts and the
//!   decimal form of numbers; [`seqs`] holds facts about filtered sequences.
pub mod batch;
pub mod components;
pub mod decimal;
pub mod error;
pub mod seqs;
pub mod task;
pub mod text;
