//! Decisions of an authenticated relay between WebSocket clients and a Nix daemon.

pub mod auth;
pub mod config;
pub mod error;
pub mod jwt;
pub mod keys;
pub mod local;
pub mod relay;
pub mod serve;
pub mod service;
pub mod session;
pub mod text;
pub mod token;
