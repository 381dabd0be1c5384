//! Configuration loading and the upload client's CSRF handshake for an
//! asset-sync tool.

pub mod data;
pub mod document;
pub mod json;
pub mod paths;
pub mod roblox_web_api;
