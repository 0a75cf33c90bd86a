use passhive::layout::{longest_line_len, table_layout, TableLayout};
use passhive::models::{DataType, ShowableData};
use passhive::vault::WorkingSet;

fn showable(id: i64, name: &str, data: DataType) -> ShowableData {
    ShowableData { id, name: name.to_string(), notice: String::new(), data }
}

#[test]
fn longest_lines() {
    assert_eq!(longest_line_len(""), 0);
    assert_eq!(longest_line_len("abc"), 3);
    assert_eq!(longest_line_len("a\nbbb\ncc"), 3);
    assert_eq!(longest_line_len("aaaa\n"), 4);
    assert_eq!(longest_line_len("\n\n"), 0);
    assert_eq!(longest_line_len("я\nab"), 2);
    assert_eq!(longest_line_len("яя\nab"), 4);
    for text in ["x\ny\n\nlonger line\n", "Пароль: hunter2", "\nq"] {
        let expected = text.split('\n').map(|line| line.len()).max().unwrap_or(0);
        assert_eq!(longest_line_len(text), expected);
    }
}

#[test]
fn layout_of_an_empty_table() {
    let layout = table_layout(&WorkingSet::new());
    assert_eq!(layout, TableLayout { len: 0, size: 0, num_buf: 1 });
    assert_eq!(layout.frame_width(), 8);
    assert_eq!(layout.split_width(), 7);
    assert_eq!(layout.total_width(), 5);
}

#[test]
fn layout_follows_the_widest_title_or_line() {
    let mut set = WorkingSet::new();
    set.push(showable(1, "n", DataType::Password { password: "pw".to_string() }));
    let layout = table_layout(&set);
    assert_eq!(layout.len, "Пароль (пароль)".len());
    assert_eq!(layout.size, 1);
    assert_eq!(layout.num_buf, 1);

    set.push(showable(2, "n", DataType::Document { text: "x".repeat(100) }));
    let layout = table_layout(&set);
    assert_eq!(layout.len, "Содержимое : ".len() + 100);
    assert_eq!(layout.size, 2);

    for id in 3..=10 {
        set.push(showable(id, "n", DataType::Token { token: "t".to_string(), from: "f".to_string() }));
    }
    let layout = table_layout(&set);
    assert_eq!(layout.size, 10);
    assert_eq!(layout.num_buf, 2);
    assert_eq!(layout.frame_width(), layout.len + 2 + 7);
}

#[test]
fn paddings() {
    let layout = TableLayout { len: 20, size: 3, num_buf: 1 };
    assert_eq!(layout.total_width(), 25);
    assert_eq!(layout.title_padding("abcde"), 21);
    assert_eq!(layout.title_padding(""), 25);
    assert_eq!(layout.title_padding("пароли"), 20);
    assert_eq!(layout.name_padding("GitHub"), 7);
    assert_eq!(layout.name_padding("a name of fifteen"), 0);
    assert_eq!(layout.name_padding(&"x".repeat(40)), 0);
    assert_eq!(layout.notice_padding(""), 14);
    assert_eq!(layout.notice_padding("日本"), 10);
    assert_eq!(layout.line_padding("twelve chars"), 10);
    assert_eq!(layout.line_padding(&"x".repeat(40)), 2);
    let widest = TableLayout { len: usize::MAX, size: 0, num_buf: 1 };
    assert_eq!(widest.frame_width(), usize::MAX);
    assert_eq!(widest.line_padding(""), usize::MAX);
}
