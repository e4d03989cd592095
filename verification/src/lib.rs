//! Verified core of an event-driven trading platform: the engine state
//! machine, the per-venue account state, the portal that dispatches
//! execution requests, the request-for-quote rendezvous, and the text
//! routines (signing, identifiers, queries) that venue integrations need.

pub mod account;
pub mod balance;
pub mod binance;
pub mod binance_types;
pub mod book;
pub mod channel;
pub mod data;
pub mod engine;
pub mod error;
pub mod event;
pub mod gateio;
pub mod kv;
pub mod model;
pub mod order;
pub mod order_event;
pub mod portal;
pub mod position;
pub mod quoter;
pub mod sign;
pub mod strategy;
pub mod text;
pub mod trade;
pub mod uniswapx;
