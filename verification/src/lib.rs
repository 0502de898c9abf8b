//! Verified core of the music bot's web remote: permissions, skip votes,
//! presence bookkeeping, configuration values, text helpers and page shells.

pub mod text;
pub mod mention;
pub mod quorum;
pub mod clock;
pub mod skipvote;
pub mod roles;
pub mod permissions;
pub mod sorting;
pub mod voice;
pub mod presence;
pub mod scoring;
pub mod queue;
pub mod auth;
pub mod web;
pub mod access;
pub mod audience;
pub mod pages;
pub mod catalog;
pub mod lyrics;
pub mod gatekeeper;
pub mod settings_edit;
pub mod playlists;
pub mod control;
pub mod voting;
pub mod enqueue;
pub mod preview;
pub mod queue_edit;
pub mod oauth;
pub mod chat;
pub mod capabilities;
pub mod moderation;
pub mod watcher;
pub mod public_feed;
pub mod locks;
pub mod page_laws;
