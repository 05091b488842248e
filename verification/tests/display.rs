use ratatui_interact::display::{
    clean_for_display, display_width, format_size, pad_to_width, strip_ansi, truncate_to_width,
};

#[test]
fn test_clean_for_display_carriage_return() {
    assert_eq!(clean_for_display("abc\rdef"), "def");
    assert_eq!(clean_for_display("no cr here"), "no cr here");
}

#[test]
fn test_clean_for_display_ansi() {
    assert_eq!(clean_for_display("\x1b[31mred\x1b[0m"), "red");
    assert_eq!(clean_for_display("\x1b[1;32mbold green\x1b[0m"), "bold green");
}

#[test]
fn test_strip_ansi() {
    assert_eq!(strip_ansi("\x1b[31mred\x1b[0m text"), "red text");
}

#[test]
fn test_truncate_to_width() {
    assert_eq!(truncate_to_width("short", 10), "short");
    assert_eq!(truncate_to_width("this is a long string", 10), "this is...");
}

#[test]
fn test_pad_to_width() {
    assert_eq!(pad_to_width("hi", 5), "hi   ");
    assert_eq!(pad_to_width("hello", 3), "hello");
}

#[test]
fn widths_of_wide_and_plain_text() {
    assert_eq!(display_width("Hello"), 5);
    assert_eq!(display_width("日本"), 4);
    assert_eq!(pad_to_width("日本", 5), "日本 ");
    assert_eq!(truncate_to_width("日本語テスト", 7), "日本...");
}

#[test]
fn test_format_size() {
    assert_eq!(format_size(0), "0 B");
    assert_eq!(format_size(1023), "1023 B");
    assert_eq!(format_size(1024), "1.0 KB");
    assert_eq!(format_size(1048576), "1.0 MB");
    assert_eq!(format_size(1073741824), "1.0 GB");
}

#[test]
fn format_size_rounds_to_one_decimal() {
    assert_eq!(format_size(512), "512 B");
    assert_eq!(format_size(1536), "1.5 KB");
    assert_eq!(format_size(1075), "1.0 KB");
    assert_eq!(format_size(1126), "1.1 KB");
    assert_eq!(format_size(1280), "1.2 KB");
    assert_eq!(format_size(1048575), "1024.0 KB");
    assert_eq!(format_size(5 * 1073741824 + 536870912), "5.5 GB");
    assert_eq!(format_size(u64::MAX), "17179869184.0 GB");
}

#[test]
fn truncate_doc_examples() {
    assert_eq!(truncate_to_width("Hello", 10), "Hello");
    assert_eq!(truncate_to_width("Hello World!", 8), "Hello...");
}
