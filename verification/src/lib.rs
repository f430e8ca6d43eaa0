//! The decisions of an OpenVTC client: what it shows, what it remembers and
//! what it does next. Everything here computes on values; sockets, clocks and
//! terminals belong to the program around it.

pub mod text;
pub mod keyed;
pub mod time;
pub mod json;
pub mod outside;
pub mod errors;
pub mod identity;
pub mod persona_binding;
pub mod content;
pub mod protocol_urls;
pub mod message;
pub mod did;
pub mod credential_kind;
pub mod key_purpose;
pub mod display;
pub mod config;
pub mod state;
pub mod actions;
pub mod navigation;
pub mod save;
pub mod background_dispatch;
pub mod screen;
pub mod communities_panel;
pub mod lifecycle;
pub mod capabilities;
pub mod persona_mint;
pub mod agent_names;
pub mod vic;
pub mod identities;
pub mod communities;
pub mod sessions;
pub mod degraded;
pub mod startup;
pub mod runtime;
