//! The core of a small publish/subscribe layer over AWS SNS topics and
//! SQS queues: resource naming and validation, settings, message dispatch
//! decisions and the registries that keep topics and queues.

pub mod dispatch;
pub mod errors;
pub mod models;
pub mod pubsub;
pub mod registry;
pub mod settings;
pub mod subscription;
pub mod text;
pub mod utils;
pub mod trusted;

