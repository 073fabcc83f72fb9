//! An incremental-filter picker: the state of one interactive session, kept
//! apart from the terminal that shows it.
//!
//! The modules follow the parts of a session: the query under edit
//! ([`input`]), the ranking of the candidates ([`matcher`]), the rule that
//! decides which of them are shown ([`filter`]), the highlighted row
//! ([`selection`]), the reaction to each key ([`session`]), the
//! description of what is painted ([`render`]) and the place of each pane
//! on the screen ([`layout`]).
pub mod input;
pub mod matcher;
pub mod filter;
pub mod selection;
pub mod session;
pub mod render;
pub mod layout;
