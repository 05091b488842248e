use ratatui_interact::components::file_explorer::{
    kept_name, EntryType, FileEntry, FileExplorer, FileExplorerMode, FileExplorerState,
    FileExplorerStyle,
};
use ratatui_interact::{Color, Rect};

fn file(name: &str, path: &str, ext: &str, size: u64) -> FileEntry {
    FileEntry::new(
        name,
        path.to_string(),
        EntryType::File { extension: Some(ext.to_string()), size },
    )
}

#[test]
fn test_file_entry() {
    let entry = file("test.rs", "/home/user/test.rs", "rs", 1024);
    assert!(!entry.is_dir());
    assert!(entry.is_selectable());

    let dir = FileEntry::new("src", "/home/user/src".to_string(), EntryType::Directory);
    assert!(dir.is_dir());
    assert!(!dir.is_selectable());
}

#[test]
fn file_explorer_test_state_navigation() {
    let mut state = FileExplorerState::new("/tmp".to_string());
    state.entries = vec![
        FileEntry::parent_dir("/".to_string()),
        file("file1.txt", "/tmp/file1.txt", "txt", 100),
        file("file2.txt", "/tmp/file2.txt", "txt", 200),
    ];

    assert_eq!(state.cursor_index, 0);
    state.cursor_down();
    assert_eq!(state.cursor_index, 1);
    state.cursor_down();
    assert_eq!(state.cursor_index, 2);
    state.cursor_down();
    assert_eq!(state.cursor_index, 2);
    state.cursor_up();
    assert_eq!(state.cursor_index, 1);
}

#[test]
fn test_selection() {
    let mut state = FileExplorerState::new("/tmp".to_string());
    state.entries = vec![file("file.txt", "/tmp/file.txt", "txt", 100)];

    assert!(state.selected_files.is_empty());
    state.toggle_selection();
    assert_eq!(state.selected_files.len(), 1);
    state.toggle_selection();
    assert!(state.selected_files.is_empty());
}

#[test]
fn test_style_color_for_extension() {
    let style = FileExplorerStyle::default();
    assert_eq!(style.color_for_extension(Some("rs")), Color::Yellow);
    assert_eq!(style.color_for_extension(Some("json")), Color::Green);
    assert_eq!(style.color_for_extension(Some("unknown")), Color::Gray);
    assert_eq!(style.color_for_extension(None), Color::Gray);
}

#[test]
fn listing_puts_parent_then_sorted_dirs_then_sorted_files() {
    let mut state = FileExplorerState::new("/home/user".to_string());
    let raw = vec![
        file("zeta.txt", "/home/user/zeta.txt", "txt", 1),
        FileEntry::new("src", "/home/user/src".to_string(), EntryType::Directory),
        file(".hidden", "/home/user/.hidden", "", 1),
        file("Alpha.md", "/home/user/Alpha.md", "md", 1),
        FileEntry::new("bin", "/home/user/bin".to_string(), EntryType::Directory),
    ];
    state.apply_listing(raw);
    let names: Vec<&str> = state.entries.iter().map(|e| e.name.as_str()).collect();
    assert_eq!(names, vec!["..", "bin", "src", "Alpha.md", "zeta.txt"]);
    assert_eq!(state.entries[0].path, "/home");
    assert_eq!(state.cursor_index, 0);

    state.toggle_hidden();
    state.apply_listing(vec![file(".hidden", "/home/user/.hidden", "", 1)]);
    assert_eq!(state.entries.len(), 2);
}

#[test]
fn search_filters_by_lowercase_name() {
    let mut state = FileExplorerState::new("/tmp".to_string());
    state.entries = vec![
        file("Readme.MD", "/tmp/Readme.MD", "MD", 1),
        file("main.rs", "/tmp/main.rs", "rs", 1),
        file("README.txt", "/tmp/README.txt", "txt", 1),
    ];
    state.start_search();
    assert_eq!(state.mode, FileExplorerMode::Search);
    state.search_query = "readme".to_string();
    state.update_filter();
    assert_eq!(state.filtered_indices, Some(vec![0, 2]));
    assert_eq!(state.visible_count(), 2);
    state.cursor_down();
    assert_eq!(state.current_entry().map(|e| e.name.as_str()), Some("README.txt"));
    state.cancel_search();
    assert_eq!(state.filtered_indices, None);
    assert_eq!(state.mode, FileExplorerMode::Browse);
}

#[test]
fn select_all_takes_only_files() {
    let mut state = FileExplorerState::new("/tmp".to_string());
    state.entries = vec![
        FileEntry::parent_dir("/".to_string()),
        FileEntry::new("dir", "/tmp/dir".to_string(), EntryType::Directory),
        file("a.txt", "/tmp/a.txt", "txt", 1),
        file("b.txt", "/tmp/b.txt", "txt", 1),
    ];
    state.select_all();
    assert_eq!(state.selected_files, vec!["/tmp/a.txt".to_string(), "/tmp/b.txt".to_string()]);
    state.select_none();
    assert!(state.selected_files.is_empty());
}

#[test]
fn go_up_moves_to_parent() {
    let mut state = FileExplorerState::new("/tmp/x".to_string());
    assert!(state.go_up());
    assert_eq!(state.current_dir, "/tmp");
    assert!(state.go_up());
    assert_eq!(state.current_dir, "/");
    assert!(!state.go_up());
}

#[test]
fn default_explorer_marks_selected_files() {
    let mut state = FileExplorerState::new("/tmp".to_string());
    state.entries = vec![
        file("a.txt", "/tmp/a.txt", "txt", 1),
        file("b.txt", "/tmp/b.txt", "txt", 2),
    ];
    state.toggle_selection();
    let explorer = FileExplorer::new(&state);
    let inner = Rect::new(0, 0, 60, 5);
    assert!(explorer.lines_drawable(inner));
    let lines = explorer.build_lines(inner);
    assert_eq!(lines.len(), 2);
    assert_eq!(lines[0][2].0, "[x]");
    assert_eq!(lines[1][2].0, "[ ]");
    assert_eq!(lines[0][7].0, "       1 B");
    assert_eq!(lines[1][7].0, "       2 B");
}

#[test]
fn drawability_and_hidden_names() {
    let mut state = FileExplorerState::new("/tmp".to_string());
    state.entries = vec![file("añb-long-name-here", "/tmp/x", "txt", 1)];
    let explorer = FileExplorer::new(&state);
    // 26 columns leave 4 for the name, cut at byte 1: a boundary
    assert!(explorer.lines_drawable(Rect::new(0, 0, 26, 3)));
    // 27 columns leave 5, cut at byte 2: inside 'ñ'
    assert!(!explorer.lines_drawable(Rect::new(0, 0, 27, 3)));
    state.filtered_indices = Some(vec![3]);
    assert!(!FileExplorer::new(&state).lines_drawable(Rect::new(0, 0, 60, 3)));
    assert!(kept_name("file", false));
    assert!(!kept_name(".git", false));
    assert!(kept_name(".git", true));
    assert!(kept_name("", false));
}

#[test]
fn explorer_areas_split_list_and_footer() {
    let state = FileExplorerState::new("/tmp".to_string());
    let explorer = FileExplorer::new(&state);
    let (list, inner, footer) = explorer.areas(Rect::new(0, 0, 40, 20));
    assert_eq!(list, Rect::new(0, 0, 40, 17));
    assert_eq!(inner, Rect::new(1, 1, 38, 15));
    assert_eq!(footer, Rect::new(0, 17, 40, 3));
}
