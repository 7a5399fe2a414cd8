//! Preparation of source text for submission to a remote Clojure or
//! ClojureScript read-eval runtime.
//!
//! The library does three things: it resolves a short textual tag to one of
//! the two execution targets, it produces the one-time bootstrap snippet that
//! initializes the runtime's printing and error reporting, and it wraps a
//! piece of user code so that it runs inside a caller-chosen namespace, with
//! uncaught failures redirected to the error channel for the Clojure target.
//! Everything is a pure function from its arguments to a text value; the
//! exact text of every result is stated in the contracts.

pub mod clojure;
pub mod escape;
