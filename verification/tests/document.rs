use light_pdf::document::{image_from_bitmap, page_index, PdfDocument};
use light_pdf::metadata::{MetadataError, PdfMetadata, DEFAULT_ZOOM_BITS};

fn doc(file: &str, meta: Option<&str>) -> PdfDocument {
    PdfDocument::new(file.to_string(), meta.map(|m| m.to_string()), None, None)
}

#[test]
fn default_metadata_is_page_one_zoom_one() {
    let m = PdfMetadata::default();
    assert_eq!(m.page, 1);
    assert_eq!(f32::from_bits(m.zoom_bits), 1.0);
    assert_eq!(m.zoom_bits, DEFAULT_ZOOM_BITS);
}

#[test]
fn new_document_starts_at_default_position() {
    let d = doc("dir/doc.pdf", None);
    assert_eq!(d.metadata.page, 1);
    assert!((f32::from_bits(d.metadata.zoom_bits) - 1.0).abs() < f32::EPSILON);
    assert_eq!(d.total_pages, None);
    assert!(!d.renderer.has_pdfium_document());
    assert_eq!(d.renderer.cache_window(), (1, 1));
}

#[test]
fn new_document_restores_loaded_position() {
    let loaded = PdfMetadata { page: 5, zoom_bits: 2.5f32.to_bits() };
    let d = PdfDocument::new("doc.pdf".to_string(), None, Some(loaded), None);
    assert_eq!(d.metadata.page, 5);
    assert!((f32::from_bits(d.metadata.zoom_bits) - 2.5).abs() < f32::EPSILON);
}

#[test]
fn metadata_file_defaults_beside_document() {
    let d = doc("dir/doc.pdf", None);
    assert_eq!(d.metadata_file.as_deref(), Some("dir/doc.pdf.meta.json"));
    let d = doc("doc.pdf", None);
    assert_eq!(d.metadata_file.as_deref(), Some("doc.pdf.meta.json"));
    let d = doc("dir/doc.pdf", Some("elsewhere/m.json"));
    assert_eq!(d.metadata_file.as_deref(), Some("elsewhere/m.json"));
    assert_eq!(
        PdfDocument::metadata_file_for("/a/b/report.pdf", None).as_deref(),
        Some("/a/b/report.pdf.meta.json")
    );
    assert_eq!(PdfDocument::metadata_file_for("/", None), None);
    assert_eq!(PdfDocument::metadata_file_name("x.pdf"), "x.pdf.meta.json");
}

#[test]
fn save_metadata_gives_file_and_position() {
    let mut d = doc("dir/doc.pdf", None);
    d.next_page();
    let s = d.save_metadata().unwrap();
    assert_eq!(s.path, "dir/doc.pdf.meta.json");
    assert_eq!(s.metadata.page, 2);
    assert_eq!(s.metadata.zoom_bits, DEFAULT_ZOOM_BITS);
}

#[test]
fn save_metadata_without_file_is_an_error() {
    let d = doc("/", None);
    assert_eq!(d.metadata_file, None);
    assert_eq!(d.save_metadata(), Err(MetadataError::NotConfigured));
}

#[test]
fn next_and_prev_without_page_count() {
    let mut d = doc("doc.pdf", None);
    assert_eq!(d.next_page(), true);
    assert_eq!(d.metadata.page, 2);
    assert_eq!(d.prev_page(), true);
    assert_eq!(d.metadata.page, 1);
    assert_eq!(d.prev_page(), false);
    assert_eq!(d.metadata.page, 1);
}

#[test]
fn next_stops_at_last_page() {
    let mut d = doc("doc.pdf", None);
    d.total_pages = Some(3);
    assert!(d.next_page());
    assert!(d.next_page());
    assert_eq!(d.metadata.page, 3);
    assert_eq!(d.next_page(), false);
    assert_eq!(d.metadata.page, 3);
}

#[test]
fn page_beyond_last_does_not_advance() {
    let mut d = doc("doc.pdf", None);
    d.total_pages = Some(3);
    d.metadata.page = 7;
    assert_eq!(d.next_page(), false);
    assert_eq!(d.metadata.page, 7);
    assert_eq!(d.prev_page(), true);
    assert_eq!(d.metadata.page, 6);
}

#[test]
fn next_then_prev_returns() {
    let mut d = doc("doc.pdf", None);
    d.total_pages = Some(10);
    d.metadata.page = 4;
    if d.next_page() {
        d.prev_page();
    }
    assert_eq!(d.metadata.page, 4);
}

#[test]
fn prev_then_next_returns() {
    let mut d = doc("doc.pdf", None);
    d.total_pages = Some(10);
    d.metadata.page = 10;
    assert!(d.prev_page());
    assert!(d.next_page());
    assert_eq!(d.metadata.page, 10);
}

#[test]
fn navigation_keeps_zoom() {
    let mut d = doc("doc.pdf", None);
    d.metadata.zoom_bits = 1.5f32.to_bits();
    d.next_page();
    d.prev_page();
    assert_eq!(f32::from_bits(d.metadata.zoom_bits), 1.5);
}

#[test]
fn display_name_is_stem() {
    assert_eq!(doc("dir/report.pdf", None).display_name(), "report");
    assert_eq!(doc("/tmp/archive.tar.gz", None).display_name(), "archive.tar");
    assert_eq!(doc("/tmp/.hidden", None).display_name(), ".hidden");
}

#[test]
fn display_name_without_name_is_untitled() {
    assert_eq!(doc("/", None).display_name(), "Untitled");
    assert_eq!(doc("..", None).display_name(), "Untitled");
}

#[test]
fn display_name_from_parts() {
    assert_eq!(PdfDocument::display_name_from(Some("a".into()), Some("b".into())), "a");
    assert_eq!(PdfDocument::display_name_from(None, Some("b".into())), "b");
    assert_eq!(PdfDocument::display_name_from(None, None), "Untitled");
}

#[test]
fn render_without_pdfium_gives_nothing_and_moves_window() {
    let mut d = doc("doc.pdf", None);
    assert!(d.render_page(5, 1920, 1080).is_none());
    assert_eq!(d.renderer.cache_window(), (2, 8));
    assert!(!d.renderer.is_cached(5));
    assert!(d.render_page(1, 1920, 1080).is_none());
    assert_eq!(d.renderer.cache_window(), (1, 4));
    assert!(d.render_page(0, 1920, 1080).is_none());
    assert_eq!(d.renderer.cache_window(), (1, 3));
}

#[test]
fn window_is_capped_by_page_count() {
    let mut d = doc("doc.pdf", None);
    d.total_pages = Some(3);
    assert!(d.render_page(2, 100, 100).is_none());
    assert_eq!(d.renderer.cache_window(), (1, 3));
    assert!(d.render_page(3, 100, 100).is_none());
    assert_eq!(d.renderer.cache_window(), (1, 3));
    d.total_pages = Some(20);
    assert!(d.render_page(10, 100, 100).is_none());
    assert_eq!(d.renderer.cache_window(), (7, 13));
}

#[test]
fn current_page_image_uses_current_page() {
    let mut d = doc("doc.pdf", None);
    d.metadata.page = 6;
    assert!(d.get_current_page_image(100, 100).is_none());
    assert_eq!(d.renderer.cache_window(), (3, 9));
}

#[test]
fn clear_cache_keeps_window() {
    let mut d = doc("doc.pdf", None);
    d.render_page(6, 10, 10);
    d.clear_cache();
    assert_eq!(d.renderer.cache_window(), (3, 9));
    assert!(!d.renderer.is_cached(6));
}

#[test]
fn page_index_is_one_less() {
    assert_eq!(page_index(0), Some(0));
    assert_eq!(page_index(1), Some(0));
    assert_eq!(page_index(5), Some(4));
    assert_eq!(page_index(65536), Some(65535));
}

#[test]
fn page_index_past_sixteen_bits_is_rejected() {
    assert_eq!(page_index(65537), None);
    assert_eq!(page_index(1_000_000), None);
}

#[test]
fn window_move_back_evicts_and_stays() {
    let mut d = doc("doc.pdf", None);
    assert!(d.render_page(0, 10, 10).is_none());
    assert_eq!(d.renderer.cache_window(), (1, 3));
    assert!(!d.renderer.is_cached(0));
    assert!(d.render_page(0, 10, 10).is_none());
    assert!(!d.renderer.is_cached(0));
}

#[test]
fn image_from_bitmap_needs_four_bytes_per_pixel() {
    let pic = image_from_bitmap(2, 3, vec![7u8; 24]).unwrap();
    assert_eq!((pic.width(), pic.height()), (2, 3));
    let img = pic.into_image();
    assert_eq!(img.width(), 2);
    assert_eq!(img.height(), 3);
    let img = image_from_bitmap(3, 2, vec![7u8; 24]).unwrap().into_image();
    assert_eq!((img.width(), img.height()), (3, 2));
    assert!(image_from_bitmap(2, 3, vec![7u8; 23]).is_none());
    assert!(image_from_bitmap(-1, 1, vec![0u8; 64]).is_none());
    assert!(image_from_bitmap(0, 5, Vec::new()).is_some());
}
