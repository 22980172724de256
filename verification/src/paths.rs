//! Path rules: what the viewer reads from a file path (its extension, stem
//! and name), the directory above a path, and where a document's
//! reading-position metadata lives.
//!
//! The path syntax itself is std's (`std::path::Path`, for the target this
//! crate is built for); its results are named below and the rules built on
//! them are verified.

use vstd::prelude::*;
use crate::ascii::{eq_ignore_ascii_case, eq_ignore_ascii_case_spec};

verus! {

/// The extension of the path, as `Path::extension` gives it.
pub uninterp spec fn path_extension(path: Seq<char>) -> Option<Seq<char>>;

/// The file stem of the path, as `Path::file_stem` gives it.
pub uninterp spec fn path_file_stem(path: Seq<char>) -> Option<Seq<char>>;

/// The final component of the path, as `Path::file_name` gives it.
pub uninterp spec fn path_file_name(path: Seq<char>) -> Option<Seq<char>>;

/// The path with its final component replaced, as `Path::with_file_name` gives it.
pub uninterp spec fn path_with_file_name(path: Seq<char>, name: Seq<char>) -> Seq<char>;

/// The path without its final component, as `Path::parent` gives it.
pub uninterp spec fn path_parent(path: Seq<char>) -> Option<Seq<char>>;

/// The view of an optional string.
pub open spec fn opt_view(o: Option<String>) -> Option<Seq<char>> {
    match o {
        Some(s) => Some(s@),
        None => None,
    }
}

/// The characters `pdf`.
pub open spec fn pdf_chars() -> Seq<char> {
    seq!['p', 'd', 'f']
}

/// The suffix appended to a document's file name to name its metadata file.
pub open spec fn meta_suffix() -> Seq<char> {
    seq!['.', 'm', 'e', 't', 'a', '.', 'j', 's', 'o', 'n']
}

/// The name shown for a document whose path has neither stem nor name.
pub open spec fn untitled_chars() -> Seq<char> {
    seq!['U', 'n', 't', 'i', 't', 'l', 'e', 'd']
}

/// An extension names a PDF file when it is `pdf` in any ASCII case.
pub open spec fn is_pdf_extension_spec(ext: Option<Seq<char>>) -> bool {
    match ext {
        Some(e) => eq_ignore_ascii_case_spec(e, pdf_chars()),
        None => false,
    }
}

/// `Path::extension`, read back as a string.
/// Claims only that the result is `path_extension` of the argument.
#[verifier::external_body]
pub(crate) fn extension_of(path: &str) -> (r: Option<String>)
    ensures
        opt_view(r) == path_extension(path@),
{
    match std::path::Path::new(path).extension() {
        Some(e) => Some(e.to_string_lossy().into_owned()),
        None => None,
    }
}

/// `Path::file_stem`, read back as a string.
/// Claims only that the result is `path_file_stem` of the argument.
#[verifier::external_body]
pub(crate) fn file_stem_of(path: &str) -> (r: Option<String>)
    ensures
        opt_view(r) == path_file_stem(path@),
{
    match std::path::Path::new(path).file_stem() {
        Some(s) => Some(s.to_string_lossy().into_owned()),
        None => None,
    }
}

/// `Path::file_name`, read back as a string.
/// Claims only that the result is `path_file_name` of the argument.
#[verifier::external_body]
pub(crate) fn file_name_of(path: &str) -> (r: Option<String>)
    ensures
        opt_view(r) == path_file_name(path@),
{
    match std::path::Path::new(path).file_name() {
        Some(s) => Some(s.to_string_lossy().into_owned()),
        None => None,
    }
}

/// `Path::with_file_name`, read back as a string.
/// Claims only that the result is `path_with_file_name` of the arguments.
#[verifier::external_body]
pub(crate) fn with_file_name_of(path: &str, name: &str) -> (r: String)
    ensures
        r@ == path_with_file_name(path@, name@),
{
    std::path::Path::new(path).with_file_name(name).to_string_lossy().into_owned()
}

/// `Path::parent`, read back as a string.
/// Claims only that the result is `path_parent` of the argument.
#[verifier::external_body]
pub(crate) fn parent_of(path: &str) -> (r: Option<String>)
    ensures
        opt_view(r) == path_parent(path@),
{
    match std::path::Path::new(path).parent() {
        Some(p) => Some(p.to_string_lossy().into_owned()),
        None => None,
    }
}

/// Decides from a path's extension whether it names a PDF file.
pub fn is_pdf_extension(ext: Option<&str>) -> (r: bool)
    ensures
        r == is_pdf_extension_spec(match ext {
            Some(e) => Some(e@),
            None => None,
        }),
{
    match ext {
        Some(e) => {
            proof {
                reveal_strlit("pdf");
            }
            eq_ignore_ascii_case(e, "pdf")
        },
        None => false,
    }
}

/// Whether the path names a PDF file: its extension is `pdf` in any ASCII case.
pub fn is_pdf(entry: &str) -> (r: bool)
    ensures
        r == is_pdf_extension_spec(path_extension(entry@)),
{
    let ext = extension_of(entry);
    match &ext {
        Some(e) => is_pdf_extension(Some(e.as_str())),
        None => is_pdf_extension(None),
    }
}


/// Whether a path names a PDF file does not depend on the case of the ASCII
/// letters of its extension.
pub proof fn law_pdf_extension_ignores_case(a: Seq<char>, b: Seq<char>)
    requires
        eq_ignore_ascii_case_spec(a, b),
    ensures
        is_pdf_extension_spec(Some(a)) == is_pdf_extension_spec(Some(b)),
{
    if is_pdf_extension_spec(Some(a)) {
        assert forall|i: int| 0 <= i < b.len() implies #[trigger] crate::ascii::ascii_fold(b[i])
            == crate::ascii::ascii_fold(pdf_chars()[i]) by {
            assert(crate::ascii::ascii_fold(a[i]) == crate::ascii::ascii_fold(pdf_chars()[i]));
        }
    }
    if is_pdf_extension_spec(Some(b)) {
        assert forall|i: int| 0 <= i < a.len() implies #[trigger] crate::ascii::ascii_fold(a[i])
            == crate::ascii::ascii_fold(pdf_chars()[i]) by {
            assert(crate::ascii::ascii_fold(b[i]) == crate::ascii::ascii_fold(pdf_chars()[i]));
        }
    }
}

} // verus!
