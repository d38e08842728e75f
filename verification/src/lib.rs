//! Verified core of a real-estate sales back office: calendar and installment
//! schedule math, commission split periods, request validation, agent-tree
//! reachability and pagination. Everything here works on plain values; the web
//! and database layer that feeds it lives outside this crate.

pub mod dates;
pub mod schedule;
pub mod error;
pub mod periods;
pub mod text;
pub mod slug;
pub mod ids;
pub mod agents;
pub mod downline;
pub mod pagination;
pub mod split_change;
pub mod sorted;
pub mod contract;
pub mod salary;
pub mod role_types;
pub mod roster;
pub mod lots;
pub mod company;
pub mod catalog;
pub mod commission;
pub mod guards;
pub mod legacy;
