//! A relay hub that bridges streaming sessions through named broadcast topics.
//!
//! Producers publish into topics, consumers subscribe to them; the hub owns the
//! topics and the adapters' decisions are pure steps over the hub, so that the
//! streaming runtime around them only performs reads, writes and waits.
use vstd::prelude::*;

pub mod message;
pub mod topic;
pub mod hub;
pub mod adapter;
pub mod call;
pub mod service;
pub mod delivery;
