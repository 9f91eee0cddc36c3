//! Core of a cryptocurrency tracking backend: validated value types and
//! entities (`Coin`, `Setting`), an in-memory model of the two persisted
//! tables with upsert semantics, the per-operation error taxonomy, and the
//! use-case functions that tie them together. All numeric market data is
//! carried as IEEE 754 double-precision bit patterns (`u64`), so the
//! sanitization rules on prices and percentages are ordinary integer logic.

pub mod coin;
pub mod config;
pub mod coin_table;
pub mod create_coin;
pub mod create_setting;
pub mod delete_coin;
pub mod domain;
pub mod fetch;
pub mod find_coin;
pub mod find_setting;
pub mod get_all_coins;
pub mod laws;
pub mod numeric;
pub mod repository;
pub mod requests;
pub mod rows;
pub mod setting_table;
pub mod settings;
pub mod table;
pub mod update_coin;
