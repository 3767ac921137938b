//! The blacksmith's tab: a menu, upgrading, quality, smelting and forging.
pub mod items;
pub mod forge;
pub mod menu;
pub mod quality;
pub mod stone_wall;
pub mod smelt;
pub mod tab;
pub mod upgrade;
