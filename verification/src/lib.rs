//! Access rules, workspace resolution and repository logic of the AionUi server.

pub mod text;
pub mod api_error;
pub mod auth;
pub mod db;
pub mod workspace;
pub mod translation;
pub mod skills;
pub mod skill_bridge;
