//! A client-side route-dispatch core.
//!
//! Given the application's current location and an ordered, declared set of
//! route definitions, the router selects the first definition whose path
//! pattern matches, extracts the captured parameters, and produces that
//! definition's view output; when no definition matches it produces a
//! deterministic empty fallback.
//!
//! The hosting layer (the UI composition framework and the location-change
//! channel) stays outside this crate: it delivers location updates through
//! [`router::Msg`], replaces the declared definitions through
//! [`router::Router::change`], and asks for output through
//! [`router::Router::view`].

pub mod matcher;
pub mod route_info;
pub mod router;
