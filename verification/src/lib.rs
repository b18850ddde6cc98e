//! Admission control for a finite-capacity booking resource.

pub mod adapter;
pub mod admission;
pub mod clock;
pub mod domain;
pub mod dto;
pub mod error;
pub mod gateway;
pub mod holdings;
pub mod laws;
pub mod ledger;
pub mod occupancy;
pub mod registry;
pub mod repository;
pub mod service;
