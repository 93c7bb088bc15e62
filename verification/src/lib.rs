//! Verified core of the Mostrix peer-to-peer trading client: URL and relay parsing,
//! attachment validation, instance-info tag parsing, order-status rules,
//! protocol reply checks, pending-waiter bookkeeping and user-facing summaries.
pub mod text;
pub mod clock;
pub mod blossom;
pub mod fatal;
pub mod settings;
pub mod push;
pub mod file_validation;
pub mod network;
pub mod waiters;
pub mod order;
pub mod add_invoice;
pub mod mostro_info;
pub mod bond;
pub mod protocol;
pub mod restore;
pub mod trade_dm;
pub mod active_orders;
pub mod session_wipe;
pub mod new_order;
pub mod order_book;
pub mod order_feed;
pub mod chat;
pub mod admin;
pub mod filters;
pub mod ui_rules;
pub mod ln_address;
pub mod db_rows;
pub mod dm_batch;
pub mod wait_dm;
