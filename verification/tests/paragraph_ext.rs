use ratatui_interact::components::paragraph_ext::ParagraphExt;
use ratatui_interact::{Color, Rect, Style};

fn line(text: &str) -> Vec<(String, Style)> {
    vec![(text.to_string(), Style::default())]
}

fn row_text(row: &[(char, Style)]) -> String {
    row.iter().map(|(c, _)| *c).collect()
}

#[test]
fn test_empty_lines() {
    let widget = ParagraphExt::new(vec![]);
    let area = Rect::new(0, 0, 20, 5);
    assert!(widget.rows_in(area).is_empty());
}

#[test]
fn test_simple_render() {
    let widget = ParagraphExt::new(vec![line("Hello")]);
    let area = Rect::new(0, 0, 20, 5);
    let rows = widget.rows_in(area);
    assert_eq!(rows[0][0].0, 'H');
    assert_eq!(rows[0][1].0, 'e');
    assert_eq!(rows[0][2].0, 'l');
    assert_eq!(rows[0][3].0, 'l');
    assert_eq!(rows[0][4].0, 'o');
}

#[test]
fn test_word_wrap() {
    let widget = ParagraphExt::new(vec![line("Hello world this is a test")]).width(10);
    let area = Rect::new(0, 0, 10, 5);
    let rows = widget.rows_in(area);
    assert_eq!(rows[0][0].0, 'H');
    assert_eq!(rows[1][0].0, 'w');
}

#[test]
fn test_scroll() {
    let widget = ParagraphExt::new(vec![line("Line 1"), line("Line 2"), line("Line 3")]).scroll(1);
    let area = Rect::new(0, 0, 20, 2);
    let rows = widget.rows_in(area);
    assert_eq!(rows[0][0].0, 'L');
    assert_eq!(rows[0][5].0, '2');
}

#[test]
fn test_styled_text() {
    let lines = vec![vec![
        ("Red".to_string(), Style::default().fg(Color::Red)),
        (" ".to_string(), Style::default()),
        ("Blue".to_string(), Style::default().fg(Color::Blue)),
    ]];
    let widget = ParagraphExt::new(lines);
    let rows = widget.rows_in(Rect::new(0, 0, 20, 1));
    assert_eq!(rows[0][0].1.fg, Some(Color::Red));
    assert_eq!(rows[0][4].1.fg, Some(Color::Blue));
}

#[test]
fn test_line_count() {
    let widget = ParagraphExt::new(vec![line("Hello world this is a long line")]);
    let count = widget.line_count(10);
    assert!(count > 1);
}

#[test]
fn test_empty_line_preserved() {
    let widget = ParagraphExt::new(vec![line("Line 1"), line(""), line("Line 3")]);
    let count = widget.line_count(20);
    assert_eq!(count, 3);
}

#[test]
fn wrapping_breaks_after_spaces_and_skips_leading_ones() {
    let widget = ParagraphExt::new(vec![line("Hello world this is a test")]);
    let wrapped: Vec<String> = widget.wrap_lines(10).iter().map(|r| row_text(r)).collect();
    assert_eq!(wrapped, vec!["Hello ", "world ", "this is a ", "test"]);
    for r in widget.wrap_lines(10) {
        assert!(r.len() <= 10);
    }
}

#[test]
fn long_word_is_cut_at_width() {
    let widget = ParagraphExt::new(vec![line("abcdefghijkl mn")]);
    let wrapped: Vec<String> = widget.wrap_lines(5).iter().map(|r| row_text(r)).collect();
    assert_eq!(wrapped, vec!["abcde", "fghij", "kl mn"]);
    assert!(widget.wrap_lines(0).is_empty());
}

#[test]
fn rows_are_cut_at_area_width_and_height() {
    let widget = ParagraphExt::new(vec![line("one two three four")]).width(9);
    let rows = widget.rows_in(Rect::new(0, 0, 4, 2));
    assert_eq!(rows.len(), 2);
    assert_eq!(row_text(&rows[0]), "one ");
    assert_eq!(row_text(&rows[1]), "thre");
}

#[test]
fn wrapped_styled_pieces_are_runs_of_the_line() {
    let spans = vec![
        ("Red words".to_string(), Style::default().fg(Color::Red)),
        (" and blue".to_string(), Style::default().fg(Color::Blue)),
    ];
    let cells: Vec<(char, Style)> = spans
        .iter()
        .flat_map(|(t, s)| t.chars().map(move |c| (c, *s)))
        .collect();
    let widget = ParagraphExt::new(vec![spans]);
    let wrapped = widget.wrap_lines(7);
    assert_eq!(wrapped.len(), 4);
    for piece in &wrapped {
        assert!(piece.len() <= 7);
        let found = (0..=cells.len() - piece.len()).any(|a| cells[a..a + piece.len()] == piece[..]);
        assert!(found);
    }
    assert_eq!(wrapped[1][0].1.fg, Some(Color::Red));
    assert_eq!(wrapped[1][5].1.fg, Some(Color::Blue));
}
