//! Decisions and text rewriting behind a tool that keeps grammar repositories
//! checked out as test fixtures.
//!
//! Nothing in this crate touches the file system or starts a process. The
//! caller performs each action the library asks for and reports what happened;
//! every decision in between is made here, against a contract.

pub mod binding_tests;
pub mod command;
pub mod emscripten;
pub mod fixture_list;
pub mod git;
pub mod inspect;
pub mod json;
pub mod layout;
pub mod manifest;
pub mod patcher;
pub mod refs;
pub mod sync;
pub mod text;
