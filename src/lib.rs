//! Command handlers of two small desktop shells: a browser shell that
//! acknowledges navigation requests, and a studio shell that relays
//! filesystem and chat requests to a local HTTP backend.
pub mod browser;
pub mod browser_state;
pub mod percent;
pub mod json_text;
pub mod registry;
pub mod relay;
