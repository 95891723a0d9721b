use shellpicker::config::ShellItem;
use shellpicker::render::{render_lines, render_rows};

fn sample_items() -> Vec<ShellItem> {
    vec![
        ShellItem::new("bash", "/bin/bash".to_string(), vec![], None),
        ShellItem::new("zsh", "/bin/zsh".to_string(), vec!["-l"], None),
        ShellItem::new("fish", "/usr/bin/fish".to_string(), vec![], None),
    ]
}

#[test]
fn layout_has_header_then_one_line_per_item() {
    let items = sample_items();
    let lines = render_lines(&items);
    assert_eq!(lines.len(), 4);
    assert_eq!(lines[0], "Select a shell:");
    assert_eq!(lines[1], "[ ] bash - /bin/bash");
    assert_eq!(lines[2], "[ ] zsh - /bin/zsh");
    assert_eq!(lines[3], "[ ] fish - /usr/bin/fish");
}

#[test]
fn rendering_twice_gives_the_identical_layout() {
    let items = sample_items();
    let first = render_lines(&items);
    let second = render_lines(&items);
    assert_eq!(first, second);
}

#[test]
fn rows_carry_the_segments_of_each_layout_line() {
    let items = sample_items();
    let rows = render_rows(&items);
    let lines = render_lines(&items);
    assert_eq!(rows.len(), items.len());
    for (i, row) in rows.iter().enumerate() {
        assert_eq!(row.prefix, "[ ] ");
        assert_eq!(row.name, items[i].name);
        assert_eq!(row.separator, " - ");
        assert_eq!(row.path, items[i].path);
        let joined = format!("{}{}{}{}", row.prefix, row.name, row.separator, row.path);
        assert_eq!(joined, lines[i + 1]);
    }
}

#[test]
fn empty_list_renders_the_header_alone() {
    let items: Vec<ShellItem> = vec![];
    let lines = render_lines(&items);
    assert_eq!(lines, vec!["Select a shell:".to_string()]);
}
