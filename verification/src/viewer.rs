//! The viewer's state and the decisions it takes on user input: which page
//! to show, what reading position to persist, when the file browser opens
//! and closes, and which file to open.

use vstd::prelude::*;
use crate::document::{
    PdfDocument, next_page_spec, prev_page_spec, is_save_of,
};
use crate::metadata::{PdfMetadata, MetadataSave, MetadataError};
use crate::paths::opt_view;

verus! {

/// The viewer: the open document, if any, the selected path, the file
/// browser, and the display mode.
pub struct MyApp {
    pub current: Option<PdfDocument>,
    pub open_path: String,
    pub show_file_browser: bool,
    pub browser_dir: String,
    pub auto_open_on_select: bool,
    /// Page from which the current scroll gesture turned the page; `None`
    /// when the gesture has turned no page, when no gesture goes on, or when
    /// the page was changed otherwise since.
    pub last_auto_nav_page: Option<usize>,
    /// Whether the page fills the screen with no controls around it.
    pub fullscreen: bool,
}

/// The pages a document passes through, in order, while the left and then
/// the right arrow key are handled, from page `p0`: one entry for each key
/// that changed the page.
pub open spec fn key_pages(p0: usize, total: Option<usize>, left: bool, right: bool) -> Seq<usize> {
    let p1 = if left { prev_page_spec(p0) } else { p0 };
    let p2 = if right { next_page_spec(p1, total) } else { p1 };
    (if left && p1 != p0 { seq![p1] } else { Seq::<usize>::empty() }) + (if right && p2 != p1 {
        seq![p2]
    } else {
        Seq::<usize>::empty()
    })
}

/// The page that handling the left and then the right arrow key leads to.
pub open spec fn key_target(p0: usize, total: Option<usize>, left: bool, right: bool) -> usize {
    let p1 = if left { prev_page_spec(p0) } else { p0 };
    if right { next_page_spec(p1, total) } else { p1 }
}

/// The page a scroll-driven change leads to from `page`: the next page when
/// scrolling down past the bottom, else the previous page when scrolling up
/// past the top, else no change.
pub open spec fn scroll_target(page: usize, total: Option<usize>, to_next: bool, to_prev: bool) -> usize {
    if to_next {
        next_page_spec(page, total)
    } else if to_prev {
        prev_page_spec(page)
    } else {
        page
    }
}

/// The page that a scroll step leads to: while a scroll gesture goes on and
/// no page turn has happened during it, `scroll_target`; else no change.
pub open spec fn auto_nav_page(
    marker: Option<usize>,
    scrolling: bool,
    page: usize,
    total: Option<usize>,
    to_next: bool,
    to_prev: bool,
) -> usize {
    if scrolling && marker is None {
        scroll_target(page, total, to_next, to_prev)
    } else {
        page
    }
}

/// The debounce marker after a scroll step: cleared when no scroll gesture
/// goes on; set to the page left when the step turned the page; else as it
/// was.
pub open spec fn auto_nav_marker(
    marker: Option<usize>,
    scrolling: bool,
    page: usize,
    total: Option<usize>,
    to_next: bool,
    to_prev: bool,
) -> Option<usize> {
    if !scrolling {
        None
    } else if marker is Some {
        marker
    } else if scroll_target(page, total, to_next, to_prev) != page {
        Some(page)
    } else {
        None
    }
}

/// One scroll gesture turns at most one page: once a scroll step has turned
/// the page, further steps of the same gesture change neither the page nor
/// the marker.
pub proof fn law_one_page_per_gesture(
    marker: Option<usize>,
    page: usize,
    total: Option<usize>,
    to_next: bool,
    to_prev: bool,
    next_again: bool,
    prev_again: bool,
)
    requires
        auto_nav_page(marker, true, page, total, to_next, to_prev) != page,
    ensures
        ({
            let m1 = auto_nav_marker(marker, true, page, total, to_next, to_prev);
            let p1 = auto_nav_page(marker, true, page, total, to_next, to_prev);
            &&& auto_nav_page(m1, true, p1, total, next_again, prev_again) == p1
            &&& auto_nav_marker(m1, true, p1, total, next_again, prev_again) == m1
        }),
{
}

/// A scroll step with no page turned yet in the gesture turns exactly one
/// page: scrolling up past the top of any page after the first goes to the
/// page before it, and scrolling down past the bottom of any page before the
/// last goes to the page after it; either way the page left is marked. On
/// the first page scrolling up, and on the last page scrolling down, stays.
pub proof fn law_scroll_turns_one_page(page: usize, total: Option<usize>)
    ensures
        page >= 2 ==> auto_nav_page(None, true, page, total, false, true) == page - 1
            && auto_nav_marker(None, true, page, total, false, true) == Some(page),
        page <= 1 ==> auto_nav_page(None, true, page, total, false, true) == page
            && auto_nav_marker(None, true, page, total, false, true) is None,
        match total {
            Some(t) => 1 <= page < t ==> auto_nav_page(None, true, page, total, true, false) == page
                + 1 && auto_nav_marker(None, true, page, total, true, false) == Some(page),
            None => page < usize::MAX ==> auto_nav_page(None, true, page, total, true, false)
                == page + 1,
        },
        total == Some(page) ==> auto_nav_page(None, true, page, total, true, false) == page,
{
}

/// The page keys move one page each: the forward key on a page before the
/// last goes to the page after it, the back key on a page after the first
/// goes to the page before it, each with one reading position to save; on
/// the last page forward, and on the first page back, nothing changes.
pub proof fn law_keys_turn_one_page(page: usize, total: Option<usize>)
    ensures
        match total {
            Some(t) => 1 <= page < t ==> key_target(page, total, false, true) == page + 1
                && key_pages(page, total, false, true) == seq![(page + 1) as usize],
            None => page < usize::MAX ==> key_target(page, total, false, true) == page + 1
                && key_pages(page, total, false, true) == seq![(page + 1) as usize],
        },
        total == Some(page) ==> key_target(page, total, false, true) == page && key_pages(
            page,
            total,
            false,
            true,
        ).len() == 0,
        page >= 2 ==> key_target(page, total, true, false) == page - 1 && key_pages(
            page,
            total,
            true,
            false,
        ) == seq![(page - 1) as usize],
        page <= 1 ==> key_target(page, total, true, false) == page && key_pages(
            page,
            total,
            true,
            false,
        ).len() == 0,
{
    assert(Seq::<usize>::empty() + seq![(page + 1) as usize] =~= seq![(page + 1) as usize]);
    assert(seq![(page - 1) as usize] + Seq::<usize>::empty() =~= seq![(page - 1) as usize]);
}

/// What handling the page keys (`back`, then `forward`) makes of document
/// `d0`: `d` is at `key_target`, with the same file, metadata file, zoom and
/// page count; when a key changed the page, the cache was cleared (its
/// window and pdfium document kept), else the renderer is as it was.
pub open spec fn keys_done(d0: PdfDocument, d: PdfDocument, back: bool, forward: bool) -> bool {
    &&& d.file@ == d0.file@
    &&& opt_view(d.metadata_file) == opt_view(d0.metadata_file)
    &&& d.metadata.zoom_bits == d0.metadata.zoom_bits
    &&& d.total_pages == d0.total_pages
    &&& d.metadata.page == key_target(d0.metadata.page, d0.total_pages, back, forward)
    &&& if key_pages(d0.metadata.page, d0.total_pages, back, forward).len() > 0 {
        &&& d.renderer.cache().is_empty()
        &&& d.renderer.window() == d0.renderer.window()
        &&& d.renderer.can_render() == d0.renderer.can_render()
    } else {
        d.renderer == d0.renderer
    }
}

/// The reading positions to persist after handling the page keys (`back`,
/// then `forward`) of document `d0`: one for each key that changed the page,
/// in order, each at the page it led to.
pub open spec fn key_saves(
    saves: Seq<Result<MetadataSave, MetadataError>>,
    d0: PdfDocument,
    back: bool,
    forward: bool,
) -> bool {
    let pages = key_pages(d0.metadata.page, d0.total_pages, back, forward);
    &&& saves.len() == pages.len()
    &&& forall|i: int|
        0 <= i < pages.len() ==> is_save_of(
            #[trigger] saves[i],
            opt_view(d0.metadata_file),
            PdfMetadata { page: pages[i], zoom_bits: d0.metadata.zoom_bits },
        )
}

/// Nothing of the viewer but the document and the debounce marker differs.
pub open spec fn same_but_document(a: MyApp, b: MyApp) -> bool {
    &&& a.open_path@ == b.open_path@
    &&& a.show_file_browser == b.show_file_browser
    &&& a.browser_dir@ == b.browser_dir@
    &&& a.auto_open_on_select == b.auto_open_on_select
    &&& a.fullscreen == b.fullscreen
}

impl MyApp {
    /// A viewer with no document, the file browser closed and showing
    /// `browser_dir`, opening files as soon as they are chosen.
    pub fn new(browser_dir: String) -> (r: Self)
        ensures
            r.current is None,
            r.open_path@ == Seq::<char>::empty(),
            !r.show_file_browser,
            r.browser_dir@ == browser_dir@,
            r.auto_open_on_select,
            r.last_auto_nav_page is None,
            !r.fullscreen,
    {
        MyApp {
            current: None,
            open_path: String::new(),
            show_file_browser: false,
            browser_dir,
            auto_open_on_select: true,
            last_auto_nav_page: None,
            fullscreen: false,
        }
    }

    /// The open action where files are chosen in the viewer's own browser:
    /// the browser opens.
    pub fn perform_open_action(&mut self)
        ensures
            final(self).show_file_browser,
            final(self).current == old(self).current,
            final(self).open_path@ == old(self).open_path@,
            final(self).browser_dir@ == old(self).browser_dir@,
            final(self).auto_open_on_select == old(self).auto_open_on_select,
            final(self).last_auto_nav_page == old(self).last_auto_nav_page,
            final(self).fullscreen == old(self).fullscreen,
    {
        self.show_file_browser = true;
    }

    /// A file was chosen: it becomes the selected path. Returns whether the
    /// document should be opened now.
    pub fn select_file(&mut self, path: String) -> (open_now: bool)
        ensures
            final(self).open_path@ == path@,
            open_now == old(self).auto_open_on_select,
            final(self).current == old(self).current,
            final(self).show_file_browser == old(self).show_file_browser,
            final(self).browser_dir@ == old(self).browser_dir@,
            final(self).auto_open_on_select == old(self).auto_open_on_select,
            final(self).last_auto_nav_page == old(self).last_auto_nav_page,
            final(self).fullscreen == old(self).fullscreen,
    {
        self.open_path = path;
        self.auto_open_on_select
    }

    /// Switches the full-screen mode and returns the new one.
    pub fn toggle_fullscreen(&mut self) -> (on: bool)
        ensures
            on == !old(self).fullscreen,
            final(self).fullscreen == on,
            final(self).current == old(self).current,
            final(self).open_path@ == old(self).open_path@,
            final(self).show_file_browser == old(self).show_file_browser,
            final(self).browser_dir@ == old(self).browser_dir@,
            final(self).auto_open_on_select == old(self).auto_open_on_select,
            final(self).last_auto_nav_page == old(self).last_auto_nav_page,
    {
        self.fullscreen = !self.fullscreen;
        self.fullscreen
    }

    /// The page keys: back goes to the previous page, then forward to the
    /// next one. Returns, in order, the reading position to persist after each
    /// key that changed the page. A page change by key clears the cache and
    /// ends the debounce of scroll-driven page turns.
    pub fn handle_page_keys(&mut self, left: bool, right: bool) -> (saves: Vec<
        Result<MetadataSave, MetadataError>,
    >)
        requires
            old(self).current matches Some(d) ==> (d.total_pages is Some || !right || (if left {
                prev_page_spec(d.metadata.page)
            } else {
                d.metadata.page
            }) < usize::MAX),
        ensures
            same_but_document(*old(self), *final(self)),
            match old(self).current {
                None => {
                    &&& final(self).current is None
                    &&& saves@.len() == 0
                    &&& final(self).last_auto_nav_page == old(self).last_auto_nav_page
                },
                Some(d0) => {
                    let pages = key_pages(d0.metadata.page, d0.total_pages, left, right);
                    &&& final(self).last_auto_nav_page == if pages.len() > 0 {
                        None
                    } else {
                        old(self).last_auto_nav_page
                    }
                    &&& final(self).current matches Some(d) && keys_done(d0, d, left, right)
                    &&& key_saves(saves@, d0, left, right)
                },
            },
    {
        let mut saves: Vec<Result<MetadataSave, MetadataError>> = Vec::new();
        match &mut self.current {
            Some(doc) => {
                if left {
                    if doc.prev_page() {
                        saves.push(doc.save_metadata());
                        doc.clear_cache();
                    }
                }
                if right {
                    if doc.next_page() {
                        saves.push(doc.save_metadata());
                        doc.clear_cache();
                    }
                }
            },
            None => {},
        }
        if saves.len() > 0 {
            self.last_auto_nav_page = None;
        }
        saves
    }

    /// The Prev and Next buttons: moves one page back or forward. When the
    /// page changed, the cache is dropped, the debounce of scroll-driven page
    /// turns ends, and the reading position to persist is returned.
    pub fn step_page(&mut self, forward: bool) -> (save: Option<Result<MetadataSave, MetadataError>>)
        requires
            old(self).current matches Some(d) ==> (!forward || d.total_pages is Some
                || d.metadata.page < usize::MAX),
        ensures
            same_but_document(*old(self), *final(self)),
            match old(self).current {
                None => {
                    &&& final(self).current is None
                    &&& save is None
                    &&& final(self).last_auto_nav_page == old(self).last_auto_nav_page
                },
                Some(d0) => {
                    let p1 = if forward {
                        next_page_spec(d0.metadata.page, d0.total_pages)
                    } else {
                        prev_page_spec(d0.metadata.page)
                    };
                    final(self).current matches Some(d) && {
                        &&& d.metadata.page == p1
                        &&& d.file@ == d0.file@
                        &&& opt_view(d.metadata_file) == opt_view(d0.metadata_file)
                        &&& d.metadata.zoom_bits == d0.metadata.zoom_bits
                        &&& d.total_pages == d0.total_pages
                        &&& if p1 != d0.metadata.page {
                            &&& final(self).last_auto_nav_page is None
                            &&& save matches Some(res) && is_save_of(
                                res,
                                opt_view(d0.metadata_file),
                                d.metadata,
                            )
                            &&& d.renderer.cache().is_empty()
                            &&& d.renderer.window() == d0.renderer.window()
                            &&& d.renderer.can_render() == d0.renderer.can_render()
                        } else {
                            &&& save is None
                            &&& d.renderer == d0.renderer
                            &&& final(self).last_auto_nav_page == old(self).last_auto_nav_page
                        }
                    }
                },
            },
    {
        match &mut self.current {
            Some(doc) => {
                let changed = if forward {
                    doc.next_page()
                } else {
                    doc.prev_page()
                };
                if changed {
                    let save = doc.save_metadata();
                    doc.clear_cache();
                    self.last_auto_nav_page = None;
                    Some(save)
                } else {
                    None
                }
            },
            None => None,
        }
    }

    /// A new zoom for the open document, as the bit pattern of its `f32`
    /// factor: the cache is dropped and the reading position to persist is
    /// returned. Without a document nothing happens.
    pub fn set_zoom(&mut self, zoom_bits: u32) -> (save: Option<Result<MetadataSave, MetadataError>>)
        ensures
            same_but_document(*old(self), *final(self)),
            final(self).last_auto_nav_page == old(self).last_auto_nav_page,
            match old(self).current {
                None => final(self).current is None && save is None,
                Some(d0) => final(self).current matches Some(d) && {
                    &&& d.metadata == PdfMetadata { page: d0.metadata.page, zoom_bits }
                    &&& d.file@ == d0.file@
                    &&& opt_view(d.metadata_file) == opt_view(d0.metadata_file)
                    &&& d.total_pages == d0.total_pages
                    &&& save matches Some(res) && is_save_of(res, opt_view(d0.metadata_file), d.metadata)
                    &&& d.renderer.cache().is_empty()
                    &&& d.renderer.window() == d0.renderer.window()
                    &&& d.renderer.can_render() == d0.renderer.can_render()
                },
            },
    {
        match &mut self.current {
            Some(doc) => {
                doc.metadata.zoom_bits = zoom_bits;
                let save = doc.save_metadata();
                doc.clear_cache();
                Some(save)
            },
            None => None,
        }
    }

    /// Page changes driven by scrolling past the end of the shown page:
    /// `to_next` when scrolling down at its bottom, `to_prev` when scrolling
    /// up at its top; `scrolling` whether a scroll gesture goes on at all.
    /// One gesture turns at most one page: once it has turned a page, the
    /// marker holds until the gesture ends or the page is changed otherwise.
    /// When the page changes, the cache is dropped, the marker is set to the
    /// page left, and the reading position to persist is returned.
    pub fn auto_navigate(&mut self, to_next: bool, to_prev: bool, scrolling: bool) -> (save:
        Option<Result<MetadataSave, MetadataError>>)
        requires
            old(self).current matches Some(d) ==> (!to_next || !scrolling
                || old(self).last_auto_nav_page is Some || d.total_pages is Some
                || d.metadata.page < usize::MAX),
        ensures
            same_but_document(*old(self), *final(self)),
            match old(self).current {
                None => {
                    &&& final(self).current is None
                    &&& save is None
                    &&& final(self).last_auto_nav_page == old(self).last_auto_nav_page
                },
                Some(d0) => {
                    let m0 = old(self).last_auto_nav_page;
                    let p0 = d0.metadata.page;
                    let p1 = auto_nav_page(m0, scrolling, p0, d0.total_pages, to_next, to_prev);
                    &&& final(self).last_auto_nav_page == auto_nav_marker(
                        m0,
                        scrolling,
                        p0,
                        d0.total_pages,
                        to_next,
                        to_prev,
                    )
                    &&& final(self).current matches Some(d) && if p1 == p0 {
                        &&& d == d0
                        &&& save is None
                    } else {
                        &&& d.metadata.page == p1
                        &&& d.file@ == d0.file@
                        &&& opt_view(d.metadata_file) == opt_view(d0.metadata_file)
                        &&& d.metadata.zoom_bits == d0.metadata.zoom_bits
                        &&& d.total_pages == d0.total_pages
                        &&& save matches Some(res) && is_save_of(
                            res,
                            opt_view(d0.metadata_file),
                            d.metadata,
                        )
                        &&& d.renderer.cache().is_empty()
                        &&& d.renderer.window() == d0.renderer.window()
                        &&& d.renderer.can_render() == d0.renderer.can_render()
                    }
                },
            },
    {
        match &mut self.current {
            Some(doc) => {
                if !scrolling {
                    self.last_auto_nav_page = None;
                    return None;
                }
                if self.last_auto_nav_page.is_some() {
                    return None;
                }
                let current_page = doc.metadata.page;
                let navigated = if to_next {
                    doc.next_page()
                } else if to_prev {
                    doc.prev_page()
                } else {
                    false
                };
                if navigated {
                    let save = doc.save_metadata();
                    doc.clear_cache();
                    self.last_auto_nav_page = Some(current_page);
                    Some(save)
                } else {
                    None
                }
            },
            None => None,
        }
    }

    /// A document was opened: it becomes the open document, and the
    /// debounce of scroll-driven page turns ends.
    pub fn open_document(&mut self, doc: PdfDocument)
        ensures
            final(self).current == Some(doc),
            final(self).last_auto_nav_page is None,
            same_but_document(*old(self), *final(self)),
    {
        self.current = Some(doc);
        self.last_auto_nav_page = None;
    }

    /// The keyboard's page keys: Left and Page Up go back a page, Right and
    /// Page Down forward, as `handle_page_keys` does with back and forward.
    pub fn handle_keys(
        &mut self,
        left: bool,
        right: bool,
        page_up: bool,
        page_down: bool,
    ) -> (saves: Vec<Result<MetadataSave, MetadataError>>)
        requires
            old(self).current matches Some(d) ==> (d.total_pages is Some || !(right || page_down)
                || (if left || page_up {
                prev_page_spec(d.metadata.page)
            } else {
                d.metadata.page
            }) < usize::MAX),
        ensures
            same_but_document(*old(self), *final(self)),
            match old(self).current {
                None => {
                    &&& final(self).current is None
                    &&& saves@.len() == 0
                    &&& final(self).last_auto_nav_page == old(self).last_auto_nav_page
                },
                Some(d0) => {
                    let back = left || page_up;
                    let forward = right || page_down;
                    let pages = key_pages(d0.metadata.page, d0.total_pages, back, forward);
                    &&& final(self).last_auto_nav_page == if pages.len() > 0 {
                        None
                    } else {
                        old(self).last_auto_nav_page
                    }
                    &&& final(self).current matches Some(d) && keys_done(d0, d, back, forward)
                    &&& key_saves(saves@, d0, back, forward)
                },
            },
    {
        self.handle_page_keys(left || page_up, right || page_down)
    }

    /// Closes the file browser's round: the directory it shows becomes
    /// `new_dir`; when it is to close, a selected file becomes the selected
    /// path and the browser closes. Returns the file to open now, if any.
    pub fn finish_file_browser(
        &mut self,
        new_dir: String,
        should_close: bool,
        selected: Option<String>,
    ) -> (open: Option<String>)
        ensures
            final(self).browser_dir@ == new_dir@,
            final(self).current == old(self).current,
            final(self).auto_open_on_select == old(self).auto_open_on_select,
            final(self).last_auto_nav_page == old(self).last_auto_nav_page,
            final(self).fullscreen == old(self).fullscreen,
            final(self).show_file_browser == (old(self).show_file_browser && !should_close),
            final(self).open_path@ == (match selected {
                Some(p) => if should_close { p@ } else { old(self).open_path@ },
                None => old(self).open_path@,
            }),
            opt_view(open) == (if should_close && old(self).auto_open_on_select {
                opt_view(selected)
            } else {
                None
            }),
    {
        self.browser_dir = new_dir;
        let mut open: Option<String> = None;
        if should_close {
            match selected {
                Some(entry) => {
                    if self.auto_open_on_select {
                        open = Some(entry.clone());
                    }
                    self.open_path = entry;
                },
                None => {},
            }
            self.show_file_browser = false;
        }
        open
    }
}

} // verus!
