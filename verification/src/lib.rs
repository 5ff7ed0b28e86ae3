//! Core of a channel-points redemption bot: the event-subscription session
//! lifecycle and dispatch pipeline. The library models inbound protocol
//! frames, extracts the session identifier from the welcome frame, decides
//! identity-lookup and subscription-registration outcomes, and filters and
//! dispatches notification frames. All I/O (the websocket connection and the
//! HTTP calls) lives outside the library, which works on plain values.

pub mod auth;
pub mod eventsub;
pub mod json;
pub mod redemption;
pub mod sound;
pub mod text;
