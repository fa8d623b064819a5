//! Lorewyld: the rules behind a self-hosted role-playing campaign server.

pub mod text;
pub mod slug;
pub mod content;
pub mod error;
pub mod auth;
pub mod join_code;
pub mod notes;
pub mod search;
pub mod tags;
pub mod compendium;
pub mod authoring;
pub mod modules;
pub mod admin;
pub mod characters;
pub mod settings;
pub mod rows;
pub mod web;
pub mod sheet;
pub mod bundle;
