//! Verified core of a small OAuth2 "authorization code" backend for the
//! AniList API.
//!
//! The library holds everything that decides or computes: building the
//! provider's authorization URL, issuing and checking the anti-forgery
//! state token, assembling the token-exchange and viewer-lookup requests,
//! extracting the viewer id from the GraphQL reply, and the step-by-step
//! callback flow that ends in a single database update. The surrounding
//! process (HTTP, cookies, the database connection) hands plain values in
//! and carries the requested actions out.

pub mod authorized;
pub mod config;
pub mod consts;
pub mod functions;
pub mod guards;
pub mod login;
pub mod structs;
