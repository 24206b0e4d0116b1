//! Business-logic core of a Stellar anchor business server: KYC field
//! tables, fee and quote arithmetic, callback authorization, event
//! planning, payment matching and the settlement state machines.

pub mod text;
pub mod kyc;
pub mod amount;
pub mod fee;
pub mod error;
pub mod clock;
pub mod sep38;
pub mod sep12;
pub mod callback_auth;
pub mod jwt;
pub mod db;
pub mod platform_api;
pub mod event;
pub mod ledger;
pub mod payment;
pub mod sep31;
pub mod observer;
pub mod sep24;
pub mod config;
