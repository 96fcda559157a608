//! Verified core of an auction-flipping bot for a text-command-driven
//! in-game marketplace: tooltip (lore) parsing, price formatting, slot
//! scanning, stack-aware listing-price computation, container-protocol
//! decisions, and the repeating scan/buy/list cycle state machine.
//!
//! Connection handling, configuration loading and outbound notification
//! delivery are external collaborators and live outside this library.

pub mod chat;
pub mod config;
pub mod listing;
pub mod lore;
pub mod orchestrator;
pub mod price;
pub mod purchase;
pub mod scanner;
pub mod session;
pub mod slots;
pub mod stacking;
pub mod text;
pub mod ticks;
pub mod webhook;
