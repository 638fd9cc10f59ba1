//! A verified core for a single-page meme widget.
//!
//! The pipeline picks a random feed out of a fixed subreddit catalog, has the
//! host fetch and decode that feed as JSON, selects a random post from it,
//! classifies the post as image or video, and projects the result onto a small
//! model of the page's DOM elements. A separate, synchronous path toggles a
//! light/dark theme flag. Everything that talks to the outside world (HTTP,
//! the live browser DOM, the randomness source) lives in the host program;
//! the host hands this library plain values and applies the DOM model that
//! comes back.

pub mod catalog;
pub mod controller;
pub mod dom;
pub mod errors;
pub mod extract;
pub mod json;
pub mod random;
pub mod render;
pub mod theme;
