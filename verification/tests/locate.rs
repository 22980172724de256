use light_pdf::locate::{
    decimal, first_existing, needs_extract, pdfium_library_candidates, split_search_path, trim,
};

#[test]
fn candidates_in_order_of_preference() {
    let system = vec!["/usr/lib".to_string(), "/usr/local/lib".to_string()];
    let c = pdfium_library_candidates(
        Some("/tmp/light_pdf_libs/libpdfium.so".to_string()),
        Some("/opt/app".to_string()),
        Some("/env/lib".to_string()),
        Some("/ld/a:/ld/b".to_string()),
        &system,
        "libpdfium.so",
    );
    assert_eq!(
        c,
        vec![
            "/tmp/light_pdf_libs/libpdfium.so",
            "/opt/app/libpdfium.so",
            "libpdfium.so",
            "/env/lib/libpdfium.so",
            "/ld/a/libpdfium.so",
            "/ld/b/libpdfium.so",
            "/usr/lib/libpdfium.so",
            "/usr/local/lib/libpdfium.so",
        ]
    );
}

#[test]
fn candidates_without_optional_places() {
    let c = pdfium_library_candidates(None, None, None, None, &Vec::new(), "pdfium.dll");
    assert_eq!(c, vec!["pdfium.dll"]);
}

#[test]
fn candidate_dirs_with_trailing_separator() {
    let c = pdfium_library_candidates(None, Some("/opt/app/".to_string()), None, None, &Vec::new(), "libpdfium.so");
    assert_eq!(c, vec!["/opt/app/libpdfium.so", "libpdfium.so"]);
}

#[test]
fn search_path_found_through_ld_library_path() {
    let c = pdfium_library_candidates(None, None, None, Some("/d".to_string()), &Vec::new(), "libpdfium.so");
    assert_eq!(c, vec!["libpdfium.so", "/d/libpdfium.so"]);
}

#[test]
fn split_search_path_examples() {
    assert_eq!(split_search_path("/a:/b/c"), vec!["/a", "/b/c"]);
    assert_eq!(split_search_path("/a"), vec!["/a"]);
    assert_eq!(split_search_path(""), vec![""]);
    assert_eq!(split_search_path("/a::/b:"), vec!["/a", "", "/b", ""]);
}

#[test]
fn first_existing_picks_least_index() {
    let c = vec!["a".to_string(), "b".to_string(), "c".to_string()];
    assert_eq!(first_existing(&c, &vec![false, true, true]), Some(1));
    assert_eq!(first_existing(&c, &vec![true, false, true]), Some(0));
    assert_eq!(first_existing(&c, &vec![false, false, false]), None);
    assert_eq!(first_existing(&Vec::new(), &Vec::new()), None);
}

#[test]
fn trim_removes_outer_white_space() {
    assert_eq!(trim("  12345\n"), "12345");
    assert_eq!(trim("\t1 2\r\n"), "1 2");
    assert_eq!(trim("   "), "");
    assert_eq!(trim(""), "");
    assert_eq!(trim("\u{3000}x\u{a0}"), "x");
    assert_eq!(trim("x"), "x");
}

#[test]
fn decimal_writes_numbers() {
    assert_eq!(decimal(0), "0");
    assert_eq!(decimal(7), "7");
    assert_eq!(decimal(10), "10");
    assert_eq!(decimal(40_123_456), "40123456");
    assert_eq!(decimal(usize::MAX), format!("{}", usize::MAX));
}

#[test]
fn needs_extract_cases() {
    assert!(!needs_extract(true, Some("1234\n".to_string()), 1234));
    assert!(needs_extract(true, Some("1235".to_string()), 1234));
    assert!(needs_extract(true, None, 1234));
    assert!(needs_extract(false, Some("1234".to_string()), 1234));
    assert!(needs_extract(true, Some("01234".to_string()), 1234));
}
