//! Dungeon exploration: the room entry, navigation, rest and boss views,
//! the minimap, and the screen's state machine.
pub mod boss_room;
pub mod menu;
pub mod minimap;
pub mod navigation;
pub mod rest_room;
pub mod room_entry;
pub mod screen;
