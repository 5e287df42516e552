//! Verified core of the Rastercar vehicle tracking API: request validation,
//! route decisions, session and token rules, tracker event routing and
//! pagination arithmetic.

pub mod text;
pub mod responses;
pub mod error_codes;
pub mod tracking;
pub mod auth;
pub mod jwt;
pub mod validation;
pub mod error_text;
pub mod common;
pub mod database;
pub mod sim_card;
pub mod tracker;
pub mod access_level;
pub mod user;
pub mod vehicle;
pub mod multipart;
pub mod s3;
pub mod mailer;
pub mod rabbitmq;
pub mod permission;
