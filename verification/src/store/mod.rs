//! The store: its menu, buying and selling, and the storage screen.
pub mod menu;
pub mod storage;
pub mod trade;
pub mod tab;
