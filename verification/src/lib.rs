//! Coherency-token redirect resolution for image posters.
//!
//! A client asks for a poster under a token of its own choosing. For a
//! bounded time every request under one token is redirected to the same
//! poster; a token that is new is given one servable poster picked at
//! random. Which poster a token stands for is kept in a cache store with a
//! time to live; the posters themselves are kept in a durable store.
//!
//! The library holds the rules and does no I/O. [`cache`] turns a token
//! into its cache key and runs the exchange with the cache; [`redirect`]
//! handles a request from its token to what is sent; [`memory`] models the
//! cache store and offers one in memory; [`laws`] states what holds of all
//! of it. The remaining modules hold the errors, the canned images, the
//! configuration and the portal's rules.

pub mod auth;
pub mod cache;
pub mod config;
pub mod encoding;
pub mod error;
pub mod image_meta;
pub mod laws;
pub mod memory;
pub mod portal;
pub mod poster_image;
pub mod redirect;
pub mod reqs;
pub mod responders;
pub mod session_cookie;
pub mod static_image;
pub mod text;
