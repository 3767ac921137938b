//! The alchemist's tab: a menu and the brewing list.
pub mod brew;
pub mod lab_stone;
pub mod menu;
pub mod tab;
