use ratatui_interact::components::hotkey_dialog::traits::total_of;
use ratatui_interact::components::hotkey_dialog::{HotkeyCategory, HotkeyEntryData, HotkeyProvider};

#[derive(Clone, Copy, PartialEq, Eq, Debug)]
enum TestCategory {
    General,
    Advanced,
}

impl Default for TestCategory {
    fn default() -> Self {
        TestCategory::General
    }
}

impl HotkeyCategory for TestCategory {
    fn all() -> &'static [Self] {
        &[Self::General, Self::Advanced]
    }

    fn display_name(&self) -> &str {
        match self {
            Self::General => "General",
            Self::Advanced => "Advanced",
        }
    }

    fn next(&self) -> Self {
        match self {
            Self::General => Self::Advanced,
            Self::Advanced => Self::General,
        }
    }

    fn prev(&self) -> Self {
        match self {
            Self::General => Self::Advanced,
            Self::Advanced => Self::General,
        }
    }
}

struct Provider;

impl HotkeyProvider for Provider {
    type Category = TestCategory;

    fn entries_for_category(&self, category: TestCategory) -> Vec<HotkeyEntryData> {
        match category {
            TestCategory::General => vec![
                HotkeyEntryData::global("Ctrl+C", "Quit"),
                HotkeyEntryData::global("F1", "Help"),
            ],
            TestCategory::Advanced => vec![HotkeyEntryData::new("Ctrl+K", "Kill line", "Editor")],
        }
    }

    fn search(&self, _query: &str) -> Vec<(TestCategory, HotkeyEntryData)> {
        Vec::new()
    }
}

#[test]
fn test_category_navigation() {
    let cat = TestCategory::General;
    assert_eq!(cat.next(), TestCategory::Advanced);
    assert_eq!(cat.next().prev(), TestCategory::General);
}

#[test]
fn test_entry_creation() {
    let entry = HotkeyEntryData::new("Ctrl+S", "Save file", "Normal");
    assert_eq!(entry.key_combination, "Ctrl+S");
    assert_eq!(entry.action, "Save file");
    assert!(!entry.is_global);
    assert!(entry.is_customizable);

    let global = HotkeyEntryData::global("Ctrl+C", "Quit");
    assert!(global.is_global);

    let fixed = HotkeyEntryData::new("Ctrl+C", "Quit", "Global").fixed();
    assert!(!fixed.is_customizable);
}

#[test]
fn total_count_sums_categories() {
    assert_eq!(Provider.total_count(), 3);
    assert_eq!(TestCategory::General.icon(), "");
}

#[test]
fn total_of_saturates() {
    assert_eq!(total_of(&[1, 2, 3]), 6);
    assert_eq!(total_of(&[]), 0);
    assert_eq!(total_of(&[usize::MAX, 1]), usize::MAX);
}

#[test]
fn global_entry_context_and_flags() {
    let e = HotkeyEntryData::global("F1", "Help").with_global(false);
    assert_eq!(e.context, "Global");
    assert!(!e.is_global);
    assert!(e.is_customizable);
}
