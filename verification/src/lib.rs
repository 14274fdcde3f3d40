//! Coordination core for raid recruitment: battle categories, participant
//! aggregation, message rendering and the recruitment lifecycle.

pub mod battle_type;
pub mod embed;
pub mod engine;
pub mod environment;
pub mod event_date;
pub mod message_service;
pub mod messages;
pub mod participants;
pub mod permission;
pub mod quest;
pub mod recruitment;
pub mod scan;
pub mod services;
pub mod store;
pub mod text;
