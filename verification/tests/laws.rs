use light_pdf::document::PdfDocument;
use light_pdf::metadata::PdfMetadata;
use light_pdf::paths::is_pdf_extension;

fn doc_with(total: Option<usize>, page: usize) -> PdfDocument {
    let mut d = PdfDocument::new("doc.pdf".to_string(), None, None, None);
    d.total_pages = total;
    d.metadata.page = page;
    d
}

#[test]
fn navigation_stays_within_document() {
    for page in 1..=5 {
        let mut d = doc_with(Some(5), page);
        d.next_page();
        assert!(1 <= d.metadata.page && d.metadata.page <= 5);
        assert!(d.metadata.page == page || d.metadata.page == page + 1);
        let mut d = doc_with(Some(5), page);
        d.prev_page();
        assert!(1 <= d.metadata.page && d.metadata.page <= 5);
        assert!(d.metadata.page == page || d.metadata.page + 1 == page);
    }
}

#[test]
fn next_then_prev_is_identity_when_it_moved() {
    for page in 1..=5 {
        let mut d = doc_with(Some(5), page);
        if d.next_page() {
            assert!(d.prev_page());
        }
        assert_eq!(d.metadata.page, page);
    }
}

#[test]
fn prev_then_next_is_identity_when_it_moved() {
    for page in 1..=5 {
        let mut d = doc_with(Some(5), page);
        if d.prev_page() {
            assert!(d.next_page());
        }
        assert_eq!(d.metadata.page, page);
    }
}

#[test]
fn next_then_prev_fails_from_page_zero() {
    let mut d = doc_with(None, 0);
    assert!(d.next_page());
    assert!(!d.prev_page());
    assert_eq!(d.metadata.page, 1);
}

#[test]
fn window_surrounds_page() {
    for page in 1..=12 {
        let mut d = doc_with(Some(12), page);
        d.render_page(page, 10, 10);
        let (start, end) = d.renderer.cache_window();
        assert!(start <= page && page <= end);
        assert!(page - start <= 3 && end - page <= 3);
        assert!(start >= 1 && end <= 12);
    }
}

#[test]
fn saved_position_is_restored() {
    let mut d = PdfDocument::new("d/doc.pdf".to_string(), None, None, None);
    d.next_page();
    d.metadata.zoom_bits = 2.5f32.to_bits();
    let save = d.save_metadata().unwrap();
    let d2 = PdfDocument::new(
        "d/doc.pdf".to_string(),
        Some(save.path.clone()),
        Some(save.metadata),
        None,
    );
    assert_eq!(d2.metadata, PdfMetadata { page: 2, zoom_bits: 2.5f32.to_bits() });
    assert_eq!(d2.metadata_file, d.metadata_file);
}

#[test]
fn pdf_extension_ignores_case() {
    for e in ["pdf", "PDF", "Pdf", "pDf", "pdF"] {
        assert!(is_pdf_extension(Some(e)));
    }
}

#[test]
fn cache_window_evicts_even_without_moving() {
    let mut d = doc_with(Some(3), 0);
    d.render_page(0, 10, 10);
    assert!(!d.renderer.is_cached(0));
    assert_eq!(d.renderer.cache_window(), (1, 3));
}

#[test]
fn without_pdfium_nothing_is_ever_rendered() {
    let mut d = doc_with(None, 1);
    for page in [1usize, 2, 3, 2, 1, 50] {
        assert!(d.render_page(page, 800, 1000).is_none());
        assert!(!d.renderer.is_cached(page));
    }
}

#[test]
fn current_page_image_is_render_of_current_page() {
    let mut a = doc_with(Some(20), 9);
    let mut b = doc_with(Some(20), 9);
    assert_eq!(a.get_current_page_image(800, 1000).is_none(), b.render_page(9, 800, 1000).is_none());
    assert_eq!(a.renderer.cache_window(), b.renderer.cache_window());
}
