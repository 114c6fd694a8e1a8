//! The core of a blog-post service, written without I/O.
//!
//! The service keeps blog posts in a relational table and serves them over
//! HTTP. This crate holds the part of it that decides: which statement is
//! sent to the store for each repository operation, how the store's answer
//! becomes a [`post::BlogPost`] or an error, and which HTTP status a request
//! ends with. Running a statement against the store and writing a response to
//! a socket is left to the caller, which hands plain values in and takes plain
//! values back.

pub mod config;
pub mod error;
pub mod handlers;
pub mod mapping;
pub mod path;
pub mod post;
pub mod repository;
pub mod store;
pub mod text;
pub mod theorems;
