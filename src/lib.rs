//! The decisions of a sign-in page that embeds its identity provider's login form in
//! a frame: the message handshake with that frame, the page's own origin, the port of
//! the identity provider and the settings that authentication starts with.

pub mod frame;
pub mod message;
pub mod origin;
pub mod port;
pub mod settings;
