//! Background activity of agent runs on iOS.
//!
//! While an agent run is under way, iOS is asked to keep the app alive: by a
//! continued-processing task where the system offers one, else by a finite
//! background task. This library holds every decision of that bridge. It
//! performs no native work itself: each flow is a state machine that hands out
//! the next native call and is resumed with the reply.

pub mod activity;
pub mod begin;
pub mod continued;
pub mod event;
pub mod expiration;
pub mod expiration_outcome;
pub mod finish;
pub mod finite;
pub mod identifier;
pub mod launch;
pub mod native;
pub mod payload;
pub mod prepare;
pub mod progress;
pub mod queries;
pub mod registration;
pub mod registry;
pub mod request;
pub mod service;
pub mod start_calls;
pub mod start_conditions;
pub mod start_outcome;
pub mod steps;
pub mod task_outcome;
pub mod trace;
pub mod version;
