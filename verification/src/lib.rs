//! A client-side lifecycle manager for the sessions and transactions of a
//! remote graph database, with the decisions of a small sample application
//! that uses it.
//!
//! The manager never talks to the server. The caller does, and hands the
//! manager each reply as a plain value; the manager says what is allowed
//! next and keeps the state of every session and transaction. `model`
//! states each operation as a function on that state, `manager` holds the
//! executable manager whose operations are proved to compute these
//! functions, and `theorems` proves what follows for every sequence of
//! operations: a commit that succeeded is seen by every transaction
//! opened later, a read transaction never writes, and a transaction that
//! has ended stays as it ended.
//!
//! `sample` holds the decisions of an application built on the manager:
//! what it asks of the server, in which order, and what it makes of the
//! answers. `rule` checks a rule of inference before it is sent, with the
//! parser of the query language.

pub mod answer;
pub mod error;
pub mod manager;
pub mod model;
pub mod options;
pub mod query;
pub mod reply;
pub mod rule;
pub mod sample;
pub mod stream;
pub mod text;
pub mod theorems;
