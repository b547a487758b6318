//! Buffer storage, credential checks and trade rules of the Dannesk wallet.
pub mod keyed_store;
pub mod send_buffers;
mod wipe;
pub mod trustline;
mod ids;
pub mod input_mode;
pub mod euro_modify;
pub mod rlusd_send;
pub mod import_buffers;
pub mod trade_buffers;
pub mod text;
pub mod validation;
pub mod commands;
pub mod logic;
pub mod euro_enable;
pub mod trade;
pub mod display;
pub mod progress;
pub mod transactions;
pub mod name;
pub mod wallet_keys;
pub mod settings;
pub mod controls;
pub mod review;
pub mod words;
pub mod wallet_setup;
pub mod create_buffers;
pub mod send_form;
