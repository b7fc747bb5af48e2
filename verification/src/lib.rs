//! Request handling rules of a small user and product service: password
//! hashing, token issuing, multi-factor activation and verification, bearer
//! authentication, product search paging and profile picture storage.
//! The HTTP server, the database and the file system live in `app/`; this
//! crate decides what they are asked to do and what each request is answered.

pub mod utils;
pub mod api;
