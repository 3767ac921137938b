//! Magic: the spell testing modal.
pub mod spell_test_modal;
pub mod tester_view;
