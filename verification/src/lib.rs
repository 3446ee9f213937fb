//! A small server-rendered web application library: a home page whose
//! first-visit timestamp is resolved cache-aside, and a `/users` CRUD
//! resource over a document store.
//!
//! The modules here hold the application's decisions — identifier
//! validation, store semantics, response shaping — with contracts; the
//! binary around it does the network work and hands plain values in.

pub mod home;
pub mod shared;
pub mod users;
