//! Verified core logic of the FLECS app and instance manager.
pub mod text;
pub mod num;
pub mod json;
pub mod manifest;
pub mod instance;
pub mod network;
pub mod quest;
pub mod app;
pub mod lore;
pub mod legacy;
pub mod deployment;
pub mod volume;
