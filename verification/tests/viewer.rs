use light_pdf::document::PdfDocument;
use light_pdf::metadata::MetadataError;
use light_pdf::viewer::MyApp;

fn app_with_doc(file: &str, total: Option<usize>) -> MyApp {
    let mut app = MyApp::new("/home".to_string());
    let mut d = PdfDocument::new(file.to_string(), None, None, None);
    d.total_pages = total;
    app.current = Some(d);
    app
}

fn page(app: &MyApp) -> usize {
    app.current.as_ref().unwrap().metadata.page
}

#[test]
fn new_viewer_state() {
    let app = MyApp::new("/home/u".to_string());
    assert!(app.current.is_none());
    assert_eq!(app.open_path, "");
    assert!(!app.show_file_browser);
    assert_eq!(app.browser_dir, "/home/u");
    assert!(app.auto_open_on_select);
    assert_eq!(app.last_auto_nav_page, None);
    assert!(!app.fullscreen);
}

#[test]
fn open_action_shows_browser() {
    let mut app = MyApp::new(".".to_string());
    app.perform_open_action();
    assert!(app.show_file_browser);
}

#[test]
fn select_file_sets_path_and_says_whether_to_open() {
    let mut app = MyApp::new(".".to_string());
    assert!(app.select_file("/x/a.pdf".to_string()));
    assert_eq!(app.open_path, "/x/a.pdf");
    app.auto_open_on_select = false;
    assert!(!app.select_file("/x/b.pdf".to_string()));
    assert_eq!(app.open_path, "/x/b.pdf");
}

#[test]
fn toggle_fullscreen_flips() {
    let mut app = MyApp::new(".".to_string());
    assert!(app.toggle_fullscreen());
    assert!(app.fullscreen);
    assert!(!app.toggle_fullscreen());
    assert!(!app.fullscreen);
}

#[test]
fn keys_without_document_do_nothing() {
    let mut app = MyApp::new(".".to_string());
    assert!(app.handle_page_keys(true, true).is_empty());
}

#[test]
fn right_key_moves_and_saves() {
    let mut app = app_with_doc("d/doc.pdf", Some(5));
    let saves = app.handle_page_keys(false, true);
    assert_eq!(page(&app), 2);
    assert_eq!(saves.len(), 1);
    let s = saves[0].as_ref().unwrap();
    assert_eq!(s.path, "d/doc.pdf.meta.json");
    assert_eq!(s.metadata.page, 2);
}

#[test]
fn left_at_first_page_saves_nothing() {
    let mut app = app_with_doc("doc.pdf", Some(5));
    assert!(app.handle_page_keys(true, false).is_empty());
    assert_eq!(page(&app), 1);
}

#[test]
fn both_keys_save_each_change() {
    let mut app = app_with_doc("doc.pdf", Some(5));
    app.current.as_mut().unwrap().metadata.page = 3;
    let saves = app.handle_page_keys(true, true);
    assert_eq!(saves.len(), 2);
    assert_eq!(saves[0].as_ref().unwrap().metadata.page, 2);
    assert_eq!(saves[1].as_ref().unwrap().metadata.page, 3);
    assert_eq!(page(&app), 3);
}

#[test]
fn key_save_without_metadata_file_is_an_error() {
    let mut app = app_with_doc("/", None);
    let saves = app.handle_page_keys(false, true);
    assert_eq!(saves.len(), 1);
    assert_eq!(saves[0].as_ref().err(), Some(&MetadataError::NotConfigured));
}

#[test]
fn step_page_clears_cache_and_saves() {
    let mut app = app_with_doc("doc.pdf", Some(5));
    app.current.as_mut().unwrap().render_page(1, 10, 10);
    let s = app.step_page(true).unwrap().unwrap();
    assert_eq!(s.metadata.page, 2);
    assert_eq!(page(&app), 2);
    let d = app.current.as_ref().unwrap();
    assert_eq!(d.renderer.cache_window(), (1, 4));
    assert!(app.step_page(false).is_some());
    assert_eq!(page(&app), 1);
    assert!(app.step_page(false).is_none());
}

#[test]
fn step_without_document_is_none() {
    let mut app = MyApp::new(".".to_string());
    assert!(app.step_page(true).is_none());
}

#[test]
fn set_zoom_saves_new_zoom() {
    let mut app = app_with_doc("doc.pdf", None);
    let s = app.set_zoom(1.25f32.to_bits()).unwrap().unwrap();
    assert_eq!(f32::from_bits(s.metadata.zoom_bits), 1.25);
    assert_eq!(s.metadata.page, 1);
    let d = app.current.as_ref().unwrap();
    assert_eq!(f32::from_bits(d.metadata.zoom_bits), 1.25);
    let mut empty = MyApp::new(".".to_string());
    assert!(empty.set_zoom(0).is_none());
}

#[test]
fn scroll_navigation_sets_marker() {
    let mut app = app_with_doc("doc.pdf", Some(10));
    let s = app.auto_navigate(true, false, true);
    assert_eq!(s.unwrap().unwrap().metadata.page, 2);
    assert_eq!(app.last_auto_nav_page, Some(1));
    assert_eq!(page(&app), 2);
}

#[test]
fn one_gesture_turns_one_page() {
    let mut app = app_with_doc("doc.pdf", Some(10));
    assert!(app.auto_navigate(true, false, true).is_some());
    assert_eq!(page(&app), 2);
    // the same gesture goes on past the bottom of page 2: no further turn
    assert!(app.auto_navigate(true, false, true).is_none());
    assert!(app.auto_navigate(true, false, true).is_none());
    assert_eq!(page(&app), 2);
    assert_eq!(app.last_auto_nav_page, Some(1));
}

#[test]
fn gesture_end_clears_marker() {
    let mut app = app_with_doc("doc.pdf", Some(10));
    assert!(app.auto_navigate(true, false, true).is_some());
    assert!(app.auto_navigate(false, false, false).is_none());
    assert_eq!(app.last_auto_nav_page, None);
    assert!(app.auto_navigate(true, false, true).is_some());
    assert_eq!(page(&app), 3);
}

#[test]
fn manual_navigation_clears_marker() {
    let mut app = app_with_doc("doc.pdf", Some(10));
    assert!(app.auto_navigate(true, false, true).is_some());
    assert!(app.step_page(true).is_some());
    assert_eq!(app.last_auto_nav_page, None);
    assert!(app.auto_navigate(false, true, true).is_some());
    assert_eq!(page(&app), 2);
    let saves = app.handle_keys(false, false, false, true);
    assert_eq!(saves.len(), 1);
    assert_eq!(app.last_auto_nav_page, None);
}

#[test]
fn keys_that_do_not_move_keep_marker() {
    let mut app = app_with_doc("doc.pdf", Some(10));
    app.last_auto_nav_page = Some(1);
    assert!(app.handle_keys(true, false, false, false).is_empty());
    assert_eq!(app.last_auto_nav_page, Some(1));
    assert!(app.step_page(false).is_none());
    assert_eq!(app.last_auto_nav_page, Some(1));
}

#[test]
fn scroll_navigation_blocked_while_marker_set() {
    let mut app = app_with_doc("doc.pdf", Some(10));
    app.last_auto_nav_page = Some(7);
    assert!(app.auto_navigate(true, false, true).is_none());
    assert_eq!(page(&app), 1);
    assert_eq!(app.last_auto_nav_page, Some(7));
}

#[test]
fn scroll_without_gesture_does_nothing_but_clear() {
    let mut app = app_with_doc("doc.pdf", Some(10));
    app.last_auto_nav_page = Some(4);
    assert!(app.auto_navigate(true, false, false).is_none());
    assert_eq!(app.last_auto_nav_page, None);
    assert_eq!(page(&app), 1);
}

#[test]
fn scroll_next_takes_precedence() {
    let mut app = app_with_doc("doc.pdf", Some(10));
    app.current.as_mut().unwrap().metadata.page = 5;
    assert!(app.auto_navigate(true, true, true).is_some());
    assert_eq!(page(&app), 6);
}

#[test]
fn scroll_at_last_page_does_nothing() {
    let mut app = app_with_doc("doc.pdf", Some(1));
    assert!(app.auto_navigate(true, false, true).is_none());
    assert_eq!(app.last_auto_nav_page, None);
}

#[test]
fn page_keys_navigate() {
    let mut app = app_with_doc("doc.pdf", Some(5));
    let saves = app.handle_keys(false, false, false, true);
    assert_eq!(saves.len(), 1);
    assert_eq!(saves[0].as_ref().unwrap().metadata.page, 2);
    assert_eq!(page(&app), 2);
    let saves = app.handle_keys(false, false, true, false);
    assert_eq!(saves.len(), 1);
    assert_eq!(page(&app), 1);
    app.current.as_mut().unwrap().metadata.page = 3;
    let saves = app.handle_keys(true, false, true, false);
    assert_eq!(saves.len(), 1);
    assert_eq!(page(&app), 2);
}

#[test]
fn open_document_clears_marker() {
    let mut app = app_with_doc("doc.pdf", Some(5));
    app.last_auto_nav_page = Some(3);
    app.open_document(PdfDocument::new("other.pdf".to_string(), None, None, None));
    assert_eq!(app.last_auto_nav_page, None);
    assert_eq!(app.current.as_ref().unwrap().file, "other.pdf");
}

#[test]
fn finish_browser_selects_and_closes() {
    let mut app = MyApp::new("/a".to_string());
    app.show_file_browser = true;
    let open = app.finish_file_browser("/b".to_string(), true, Some("/b/x.pdf".to_string()));
    assert_eq!(open.as_deref(), Some("/b/x.pdf"));
    assert_eq!(app.open_path, "/b/x.pdf");
    assert_eq!(app.browser_dir, "/b");
    assert!(!app.show_file_browser);
}

#[test]
fn finish_browser_without_close_keeps_it_open() {
    let mut app = MyApp::new("/a".to_string());
    app.show_file_browser = true;
    let open = app.finish_file_browser("/c".to_string(), false, None);
    assert_eq!(open, None);
    assert_eq!(app.browser_dir, "/c");
    assert!(app.show_file_browser);
    assert_eq!(app.open_path, "");
}

#[test]
fn finish_browser_without_auto_open() {
    let mut app = MyApp::new("/a".to_string());
    app.auto_open_on_select = false;
    app.show_file_browser = true;
    let open = app.finish_file_browser("/a".to_string(), true, Some("/a/y.pdf".to_string()));
    assert_eq!(open, None);
    assert_eq!(app.open_path, "/a/y.pdf");
    assert!(!app.show_file_browser);
}

#[test]
fn key_page_change_clears_cache() {
    let mut app = app_with_doc("doc.pdf", Some(10));
    app.current.as_mut().unwrap().render_page(1, 10, 10);
    let saves = app.handle_keys(false, true, false, false);
    assert_eq!(saves.len(), 1);
    let d = app.current.as_ref().unwrap();
    assert!(!d.renderer.is_cached(1));
    assert_eq!(d.renderer.cache_window(), (1, 4));
}
