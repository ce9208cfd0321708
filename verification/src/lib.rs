//! Template build orchestration: resolve a layered build configuration,
//! choose one of three build strategies, decode registry credentials, plan
//! the container-engine commands that stage the base image, and drive a
//! remote create/push/notify/poll build session to a terminal outcome.
//! Every decision lives here, under contract; the surrounding binary only
//! performs the declared actions and hands their outcomes back.

pub mod api;
pub mod args;
pub mod auth;
pub mod commands;
pub mod config;
pub mod docker;
pub mod errors;
pub mod json;
pub mod pipeline;
pub mod strategy;
pub mod text;
