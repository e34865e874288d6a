use explorer::App;
use explorer::DirPath;
use explorer::FileEntry;
use explorer::FileManager;

fn dir(name: &str) -> FileEntry {
    FileEntry::new(String::from(name), true)
}

fn file(name: &str) -> FileEntry {
    FileEntry::new(String::from(name), false)
}

fn app_at_root(height: u16, entries: Vec<FileEntry>) -> App {
    App::new(height, FileManager::new(DirPath::root(), entries))
}

#[test]
fn move_down_then_failed_descend_on_a_file() {
    let mut app = app_at_root(30, vec![dir("a"), file("b.txt")]);
    assert_eq!(app.selected_index, 0);
    app.move_down();
    assert_eq!(app.selected_index, 1);
    let before = app.file_manager.current_path.display_string();
    let ok = app.descend();
    assert!(!ok);
    assert_eq!(app.selected_index, 1);
    assert_eq!(app.offset_y, 0);
    assert_eq!(app.file_manager.entries.len(), 2);
    assert_eq!(app.file_manager.current_path.display_string(), before);
}

#[test]
fn move_up_at_the_top_is_a_no_op() {
    let mut app = app_at_root(30, vec![dir("a")]);
    app.move_up();
    assert_eq!(app.selected_index, 0);
    assert_eq!(app.offset_y, 0);
}

#[test]
fn move_down_at_the_bottom_is_a_no_op() {
    let mut app = app_at_root(30, vec![dir("a"), file("b.txt")]);
    app.move_down();
    app.move_down();
    app.move_down();
    assert_eq!(app.selected_index, 1);
}

#[test]
fn moving_in_an_empty_listing_is_a_no_op() {
    let mut app = app_at_root(30, Vec::new());
    app.move_down();
    app.move_up();
    assert_eq!(app.selected_index, 0);
    assert_eq!(app.offset_y, 0);
}

#[test]
fn scrolling_follows_the_selection() {
    let mut entries = Vec::new();
    for i in 0..10 {
        entries.push(dir(&format!("d{}", i)));
    }
    // A height of 11 leaves a viewport of 3 rows.
    let mut app = app_at_root(11, entries);
    assert_eq!(app.max_list, 3);
    for _ in 0..5 {
        app.move_down();
    }
    assert_eq!(app.selected_index, 5);
    assert_eq!(app.offset_y, 3);
    app.move_up();
    assert_eq!(app.selected_index, 4);
    assert_eq!(app.offset_y, 3);
    app.move_up();
    app.move_up();
    assert_eq!(app.selected_index, 2);
    assert_eq!(app.offset_y, 2);
}

#[test]
fn successful_descend_resets_cursor_and_extends_the_path() {
    let mut app = app_at_root(11, vec![dir("a"), dir("b"), dir("c"), dir("d"), dir("e")]);
    app.move_down();
    app.move_down();
    app.move_down();
    let ok = app.descend();
    assert!(ok);
    assert_eq!(app.selected_index, 0);
    assert_eq!(app.offset_y, 0);
    assert_eq!(app.file_manager.current_path.display_string(), "/d");
    assert_eq!(app.file_manager.entries.len(), 0);
    app.reload(vec![file("x.log")]);
    assert_eq!(app.file_manager.entries.len(), 1);
    assert_eq!(app.file_manager.current_path.display_string(), "/d");
}

#[test]
fn descend_with_an_out_of_range_selection_fails() {
    let mut app = app_at_root(30, Vec::new());
    let ok = app.descend();
    assert!(!ok);
    assert!(app.file_manager.current_path.is_root());
}

#[test]
fn ascend_resets_cursor_and_shortens_the_path() {
    let mut app = app_at_root(30, vec![dir("sub"), dir("other"), dir("third")]);
    assert!(app.descend());
    app.reload(vec![dir("inner"), file("f.c")]);
    app.move_down();
    app.ascend();
    assert_eq!(app.selected_index, 0);
    assert_eq!(app.offset_y, 0);
    assert!(app.file_manager.current_path.is_root());
    assert_eq!(app.file_manager.entries.len(), 0);
    app.reload(vec![dir("sub"), dir("other"), dir("third")]);
    assert_eq!(app.file_manager.entries.len(), 3);
}

#[test]
fn ascend_at_the_root_keeps_the_path() {
    let mut app = app_at_root(30, vec![dir("a")]);
    app.ascend();
    assert!(app.file_manager.current_path.is_root());
    app.ascend();
    assert!(app.file_manager.current_path.is_root());
}

#[test]
fn resize_clamps_the_selection_to_the_new_window() {
    let mut entries = Vec::new();
    for i in 0..10 {
        entries.push(dir(&format!("d{}", i)));
    }
    let mut app = app_at_root(11, entries);
    for _ in 0..5 {
        app.move_down();
    }
    assert_eq!(app.selected_index, 5);
    assert_eq!(app.offset_y, 3);
    // A height of 10 leaves 2 rows: rows 3 and 4 are visible.
    app.resize(10);
    assert_eq!(app.max_list, 2);
    assert_eq!(app.selected_index, 4);
    assert_eq!(app.offset_y, 3);
    // A tiny terminal still keeps one visible row.
    app.resize(3);
    assert_eq!(app.max_list, 1);
    assert_eq!(app.selected_index, 3);
    assert_eq!(app.offset_y, 3);
    // Growing the window again moves nothing.
    app.resize(40);
    assert_eq!(app.max_list, 32);
    assert_eq!(app.selected_index, 3);
    assert_eq!(app.offset_y, 3);
}

#[test]
fn confirm_ends_the_session_and_accepts_the_path() {
    let mut app = app_at_root(30, vec![dir("a")]);
    assert!(!app.exit);
    assert!(!app.get_path);
    app.confirm();
    assert!(app.exit);
    assert!(app.get_path);
    assert_eq!(app.selected_index, 0);
}

#[test]
fn quit_ends_the_session_without_accepting() {
    let mut app = app_at_root(30, vec![dir("a")]);
    app.quit();
    assert!(app.exit);
    assert!(!app.get_path);
}

#[test]
fn confirmed_path_displays_as_the_emitted_line() {
    let mut p = DirPath::root();
    p.descend(String::from("home"));
    p.descend(String::from("user"));
    p.descend(String::from("docs"));
    let mut app = App::new(30, FileManager::new(p, Vec::new()));
    app.confirm();
    assert!(app.get_path);
    assert_eq!(app.file_manager.current_path.display_string(), "/home/user/docs");
}
