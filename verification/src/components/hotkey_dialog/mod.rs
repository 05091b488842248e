//! The data behind a hotkey help dialog: categories, entries and the
//! providers that hand them out.
pub mod traits;

pub use traits::{HotkeyCategory, HotkeyEntryData, HotkeyProvider};
