//! An open PDF document: its reading position, page navigation, and the
//! cache of rendered pages, which keeps only the pages near the page being
//! read.

use std::collections::HashMap;
use vstd::prelude::*;
use pdfium_render::prelude::PdfDocument as PdfiumDocument;
use crate::metadata::{PdfMetadata, MetadataSave, MetadataError};
use crate::paths::{
    path_file_name, path_file_stem, path_with_file_name, opt_view, meta_suffix,
    untitled_chars,
};
use crate::render::{
    page_count, load_page, new_render_config, set_target_width, set_maximum_height,
    render_with_config, rgba_image_from_raw,
    RgbaPicture, pdfium_page_count, page_image_of,
};
pub use crate::render::{RenderRequest, PageImage};

verus! {

broadcast use vstd::std_specs::hash::group_hash_axioms;

/// How many pages before and after the current page the cache keeps.
pub const BUFFER_PAGES: usize = 3;

/// The page after `page`: one more, unless the document is known to end there.
pub open spec fn next_page_spec(page: usize, total: Option<usize>) -> usize {
    match total {
        Some(t) => if page >= t { page } else { (page + 1) as usize },
        None => (page + 1) as usize,
    }
}

/// The page before `page`: one less, unless `page` is the first page (or below it).
pub open spec fn prev_page_spec(page: usize) -> usize {
    if page <= 1 { page } else { (page - 1) as usize }
}

/// The first page of the cache window around `page`: `BUFFER_PAGES` before it,
/// but not below page 1.
pub open spec fn window_start(page: usize) -> usize {
    if page >= 1 + BUFFER_PAGES { (page - BUFFER_PAGES) as usize } else { 1 }
}

/// The last page of the cache window around `page`: `BUFFER_PAGES` after it,
/// but not past the last page when the page count is known.
pub open spec fn window_end(page: usize, total: Option<usize>) -> usize {
    match total {
        Some(t) => if page + BUFFER_PAGES <= t { (page + BUFFER_PAGES) as usize } else { t },
        None => (page + BUFFER_PAGES) as usize,
    }
}

/// The pages from `start` to `end`, both included.
pub open spec fn window_pages(start: usize, end: usize) -> Set<usize> {
    Set::new(|k: usize| start <= k && k <= end)
}

/// The cache once its window is `window`: only the pages inside it.
pub open spec fn cache_in_window<V>(cache: Map<usize, V>, window: (usize, usize)) -> Map<usize, V> {
    cache.restrict(window_pages(window.0, window.1))
}

/// The metadata file of a document: the one given, else the document's file
/// name with `.meta.json` appended, next to the document.
pub open spec fn resolved_metadata_file(file: Seq<char>, given: Option<Seq<char>>) -> Option<
    Seq<char>,
> {
    match given {
        Some(m) => Some(m),
        None => match path_file_name(file) {
            Some(name) => Some(path_with_file_name(file, name + meta_suffix())),
            None => None,
        },
    }
}

/// The name shown for a document: its file stem, else its file name, else `Untitled`.
pub open spec fn display_name_spec(stem: Option<Seq<char>>, name: Option<Seq<char>>) -> Seq<char> {
    match stem {
        Some(s) => s,
        None => match name {
            Some(n) => n,
            None => untitled_chars(),
        },
    }
}

/// An RGBA image from a rendered bitmap's pixel width and height and its
/// bytes. The sizes are taken as unsigned 32-bit numbers; the image exists
/// exactly when the bytes hold four for each pixel, and has those sizes.
pub fn image_from_bitmap(width: i32, height: i32, data: Vec<u8>) -> (r: Option<RgbaPicture>)
    ensures
        r is Some <==> 4 * (width as u32) * (height as u32) <= data.len(),
        r matches Some(p) ==> p.pixel_width() == width as u32 && p.pixel_height() == height as u32,
{
    rgba_image_from_raw(width as u32, height as u32, data)
}

/// The page count of a document as pdfium loaded it: pdfium's own count;
/// none when pdfium did not load it.
pub open spec fn pdfium_total_pages(pdfium_doc: Option<PdfiumDocument<'static>>) -> Option<usize> {
    match pdfium_doc {
        Some(d) => Some(pdfium_page_count(d) as usize),
        None => None,
    }
}

/// The pdfium index of a page that has one (0 for one that has not).
pub open spec fn index_of(page: usize) -> u16 {
    match page_index_spec(page) {
        Some(i) => i,
        None => 0,
    }
}

/// The request for page `page` at target width `width` and maximum height
/// `height`: its pdfium index and both sizes.
pub open spec fn requested(page: usize, width: i32, height: i32) -> RenderRequest {
    RenderRequest { index: index_of(page), target_width: Some(width), maximum_height: Some(height) }
}

/// The 0-based pdfium index of a 1-based page: one less, not below 0; none
/// when that is past pdfium's 16-bit page indices.
pub open spec fn page_index_spec(page: usize) -> Option<u16> {
    let i: int = if page >= 1 { page - 1 } else { 0 };
    if i <= u16::MAX { Some(i as u16) } else { None }
}

/// Whether pdfium may be asked to render `page`: pdfium has the document,
/// the page has a pdfium index, and it is not past the last page when the
/// page count is known.
pub open spec fn renderable(can_render: bool, page: usize, total: Option<usize>) -> bool {
    &&& can_render
    &&& page_index_spec(page) is Some
    &&& total matches Some(t) ==> page <= t
}

/// The pages of a document as pdfium renders them, with the cache of rendered
/// pages and the window of pages that the cache keeps.
pub struct PageRenderer {
    pdfium_doc: Option<PdfiumDocument<'static>>,
    page_cache: HashMap<usize, PageImage>,
    cache_window_start: usize,
    cache_window_end: usize,
}

impl PageRenderer {
    /// The rendered pages held, by page number.
    pub closed spec fn cache(&self) -> Map<usize, PageImage> {
        self.page_cache@
    }

    /// The pages the cache keeps: first and last page.
    pub closed spec fn window(&self) -> (usize, usize) {
        (self.cache_window_start, self.cache_window_end)
    }

    /// Whether pdfium has loaded the document, so that its pages can be rendered.
    pub closed spec fn can_render(&self) -> bool {
        self.pdfium_doc is Some
    }

    /// The first and last page that the cache keeps.
    pub fn cache_window(&self) -> (r: (usize, usize))
        ensures
            r == self.window(),
    {
        (self.cache_window_start, self.cache_window_end)
    }

    /// Whether a rendered image of the page is cached.
    pub fn is_cached(&self, page: usize) -> (r: bool)
        ensures
            r == self.cache().contains_key(page),
    {
        self.page_cache.contains_key(&page)
    }

    /// Whether pdfium has loaded the document.
    pub fn has_pdfium_document(&self) -> (r: bool)
        ensures
            r == self.can_render(),
    {
        self.pdfium_doc.is_some()
    }

    /// A renderer for the document as pdfium loaded it, if it could; with an
    /// empty cache whose window is page 1. Returns it with the page count
    /// that pdfium reports, if it loaded the document.
    pub fn new(pdfium_doc: Option<PdfiumDocument<'static>>) -> (r: (Self, Option<usize>))
        ensures
            r.0.can_render() <==> pdfium_doc is Some,
            r.1 == pdfium_total_pages(pdfium_doc),
            r.0.cache() == Map::<usize, PageImage>::empty(),
            r.0.window() == (1usize, 1usize),
    {
        let total_pages = match &pdfium_doc {
            Some(doc) => Some(page_count(doc) as usize),
            None => None,
        };
        (PageRenderer {
            pdfium_doc,
            page_cache: HashMap::new(),
            cache_window_start: 1,
            cache_window_end: 1,
        }, total_pages)
    }

    /// Moves the cache window to the pages around `current_page` and evicts
    /// every cached page outside it.
    pub fn update_cache_window(&mut self, current_page: usize, total_pages: Option<usize>)
        requires
            current_page + BUFFER_PAGES <= usize::MAX,
        ensures
            final(self).window() == (
                window_start(current_page),
                window_end(current_page, total_pages),
            ),
            final(self).cache() == cache_in_window(old(self).cache(), final(self).window()),
            final(self).can_render() == old(self).can_render(),
    {
        let new_start = if current_page >= 1 + BUFFER_PAGES {
            current_page - BUFFER_PAGES
        } else {
            1
        };
        let new_end = match total_pages {
            Some(total) => if current_page + BUFFER_PAGES <= total {
                current_page + BUFFER_PAGES
            } else {
                total
            },
            None => current_page + BUFFER_PAGES,
        };
        {
            self.cache_window_start = new_start;
            self.cache_window_end = new_end;
            let ghost before = self.page_cache@;
            let mut kept: HashMap<usize, PageImage> = HashMap::new();
            if new_start <= new_end {
                let n: usize = new_end - new_start;
                let mut i: usize = 0;
                while i <= n
                    invariant
                        new_start <= new_end,
                        n == new_end - new_start,
                        n <= 2 * BUFFER_PAGES,
                        i <= n + 1,
                        self.cache_window_start == new_start,
                        self.cache_window_end == new_end,
                        self.pdfium_doc == old(self).pdfium_doc,
                        kept@ == before.restrict(
                            Set::new(|k: usize| new_start <= k && k < new_start + i),
                        ),
                        self.page_cache@ == before.remove_keys(
                            Set::new(|k: usize| new_start <= k && k < new_start + i),
                        ),
                    decreases n + 1 - i,
                {
                    let k = new_start + i;
                    match self.page_cache.remove(&k) {
                        Some(v) => {
                            kept.insert(k, v);
                        },
                        None => {},
                    }
                    proof {
                        assert(kept@ =~= before.restrict(
                            Set::new(|j: usize| new_start <= j && j < new_start + i + 1),
                        ));
                        assert(self.page_cache@ =~= before.remove_keys(
                            Set::new(|j: usize| new_start <= j && j < new_start + i + 1),
                        ));
                    }
                    i = i + 1;
                }
                proof {
                    assert(kept@ =~= before.restrict(window_pages(new_start, new_end)));
                }
            } else {
                proof {
                    assert(kept@ =~= before.restrict(window_pages(new_start, new_end)));
                }
            }
            self.page_cache = kept;
        }
    }

    /// Renders a page through pdfium, at the given target width and maximum
    /// height in pixels. `None` when there is no pdfium document, when the
    /// page has no pdfium index or is past the last page, when pdfium fails,
    /// or when its bitmap is too small for an RGBA image of its size. A
    /// rendered page was drawn by pdfium from its own index at both sizes.
    fn render_uncached(
        &self,
        page_num: usize,
        total_pages: Option<usize>,
        width: i32,
        height: i32,
    ) -> (r: Option<PageImage>)
        ensures
            r matches Some(p) ==> renderable(self.can_render(), page_num, total_pages)
                && p.drawn_request() == requested(page_num, width, height),
    {
        match total_pages {
            Some(t) => if page_num > t {
                return None;
            },
            None => {},
        }
        let index = match page_index(page_num) {
            Some(i) => i,
            None => return None,
        };
        match &self.pdfium_doc {
            Some(doc) => {
                match load_page(doc, index) {
                    Ok(page) => {
                        let settings = set_maximum_height(
                            set_target_width(new_render_config(), width),
                            height,
                        );
                        match render_with_config(&page, &settings) {
                            Ok(bitmap) => page_image_of(&bitmap),
                            Err(_) => None,
                        }
                    },
                    Err(_) => None,
                }
            },
            None => None,
        }
    }

    /// Renders a page (1-based) to an image, at the given target width and
    /// maximum height in pixels, and returns it; a page already in the cache
    /// is returned from there. First moves the cache window to the pages
    /// around `page_num`. Returns `None` when the page cannot be rendered.
    pub fn render_page(
        &mut self,
        page_num: usize,
        total_pages: Option<usize>,
        width: i32,
        height: i32,
    ) -> (r: Option<&image::DynamicImage>)
        requires
            page_num + BUFFER_PAGES <= usize::MAX,
        ensures
            final(self).window() == (window_start(page_num), window_end(page_num, total_pages)),
            final(self).can_render() == old(self).can_render(),
            render_outcome(
                cache_in_window(old(self).cache(), final(self).window()),
                page_num,
                renderable(old(self).can_render(), page_num, total_pages),
                requested(page_num, width, height),
                match r {
                    Some(img) => Some(*img),
                    None => None,
                },
                final(self).cache(),
            ),
    {
        self.update_cache_window(page_num, total_pages);
        if self.page_cache.contains_key(&page_num) {
            return match self.page_cache.get(&page_num) {
                Some(p) => Some(p.image()),
                None => None,
            };
        }
        match self.render_uncached(page_num, total_pages, width, height) {
            Some(p) => {
                self.page_cache.insert(page_num, p);
                match self.page_cache.get(&page_num) {
                    Some(p) => Some(p.image()),
                    None => None,
                }
            },
            None => None,
        }
    }

    /// Drops every cached page; the window stays as it is.
    pub fn clear_cache(&mut self)
        ensures
            final(self).cache() == Map::<usize, PageImage>::empty(),
            final(self).window() == old(self).window(),
            final(self).can_render() == old(self).can_render(),
    {
        self.page_cache.clear();
    }
}

/// What a render of `page` leaves, from the cache `kept` that its window
/// keeps: a cached page's image is returned as it is and the cache stays;
/// otherwise a newly rendered image, which only a page that pdfium may be
/// asked for can give (`can_render`), is returned and cached with the
/// request `request` that drew it; and when nothing is rendered the cache
/// stays.
pub open spec fn render_outcome(
    kept: Map<usize, PageImage>,
    page: usize,
    can_render: bool,
    request: RenderRequest,
    r: Option<image::DynamicImage>,
    after: Map<usize, PageImage>,
) -> bool {
    if kept.contains_key(page) {
        &&& after == kept
        &&& r == Some(kept[page].picture())
    } else {
        match r {
            Some(img) => {
                &&& can_render
                &&& after.contains_key(page)
                &&& after == kept.insert(page, after[page])
                &&& after[page].picture() == img
                &&& after[page].drawn_request() == request
            },
            None => after == kept,
        }
    }
}

/// The 0-based pdfium index of a 1-based page number; `None` when the page
/// is past pdfium's 16-bit page indices.
pub fn page_index(page_num: usize) -> (r: Option<u16>)
    ensures
        r == page_index_spec(page_num),
{
    let i: usize = if page_num >= 1 { page_num - 1 } else { 0 };
    if i <= 65535 {
        Some(i as u16)
    } else {
        None
    }
}

/// `r` is what `save_metadata` gives for a document with this metadata file
/// and metadata: the metadata and its file, or an error without a file.
pub open spec fn is_save_of(
    r: Result<MetadataSave, MetadataError>,
    metadata_file: Option<Seq<char>>,
    metadata: PdfMetadata,
) -> bool {
    match metadata_file {
        Some(path) => r matches Ok(s) && s.path@ == path && s.metadata == metadata,
        None => r == Err::<MetadataSave, MetadataError>(MetadataError::NotConfigured),
    }
}

/// The reading position a document opens at: the one read from its metadata
/// file, else page 1 at zoom 1.0.
pub open spec fn opened_position(loaded: Option<PdfMetadata>) -> PdfMetadata {
    match loaded {
        Some(m) => m,
        None => PdfMetadata::initial(),
    }
}

/// A saved reading position comes back: what `save_metadata` asks to write,
/// read back from that file when the document is opened again with it, is
/// the position the document opens at, and it is saved to the same file.
pub proof fn law_saved_position_is_restored(
    file: Seq<char>,
    metadata_file: Option<Seq<char>>,
    metadata: PdfMetadata,
    save: Result<MetadataSave, MetadataError>,
)
    requires
        is_save_of(save, metadata_file, metadata),
        save is Ok,
    ensures
        opened_position(Some(save->Ok_0.metadata)) == metadata,
        resolved_metadata_file(file, Some(save->Ok_0.path@)) == metadata_file,
{
}

/// Every cached image was drawn from its own page's pdfium index.
pub open spec fn cache_of_own_pages(cache: Map<usize, PageImage>) -> bool {
    forall|k: usize| #[trigger] cache.contains_key(k) ==> cache[k].drawn_request().index == index_of(k)
}

/// Every cached page lies within the window `(start, end)`.
pub open spec fn cache_within<V>(cache: Map<usize, V>, window: (usize, usize)) -> bool {
    forall|k: usize| #[trigger] cache.contains_key(k) ==> window.0 <= k && k <= window.1
}

/// Going forward a page and then back, when going forward moved, returns to
/// the page one started from.
pub proof fn law_next_then_prev(page: usize, total: Option<usize>)
    requires
        1 <= page,
        total is Some || page < usize::MAX,
        next_page_spec(page, total) != page,
    ensures
        prev_page_spec(next_page_spec(page, total)) != next_page_spec(page, total),
        prev_page_spec(next_page_spec(page, total)) == page,
{
}

/// Going back a page and then forward, when going back moved, returns to the
/// page one started from, as long as that page was not past the last one.
pub proof fn law_prev_then_next(page: usize, total: Option<usize>)
    requires
        prev_page_spec(page) != page,
        total matches Some(t) ==> page <= t,
    ensures
        next_page_spec(prev_page_spec(page), total) == page,
{
}

/// From a page of the document, going forward or back stays on a page of the
/// document, moves by at most one page, and stops at the first and the last.
pub proof fn law_navigation_stays_in_range(page: usize, total: usize)
    requires
        1 <= page <= total,
    ensures
        1 <= next_page_spec(page, Some(total)) <= total,
        1 <= prev_page_spec(page) <= total,
        next_page_spec(page, Some(total)) == if page == total { page } else { (page + 1) as usize },
        prev_page_spec(page) == if page == 1 { page } else { (page - 1) as usize },
{
}

/// The window around a page of the document holds that page and at most
/// `BUFFER_PAGES` pages on either side of it.
pub proof fn law_window_around_page(page: usize, total: Option<usize>)
    requires
        1 <= page,
        page + BUFFER_PAGES <= usize::MAX,
        total matches Some(t) ==> page <= t,
    ensures
        window_start(page) <= page <= window_end(page, total),
        page - window_start(page) <= BUFFER_PAGES,
        window_end(page, total) - page <= BUFFER_PAGES,
{
}

/// The cache never holds a page outside its window: after a render of a page
/// (numbered from 1), every cached page lies in the window around that page.
pub proof fn law_cache_stays_in_window(
    cache: Map<usize, PageImage>,
    page: usize,
    total: Option<usize>,
    can_render: bool,
    request: RenderRequest,
    r: Option<image::DynamicImage>,
    after: Map<usize, PageImage>,
)
    requires
        1 <= page,
        page + BUFFER_PAGES <= usize::MAX,
        render_outcome(
            cache_in_window(cache, (window_start(page), window_end(page, total))),
            page,
            renderable(can_render, page, total),
            request,
            r,
            after,
        ),
    ensures
        cache_within(after, (window_start(page), window_end(page, total))),
{
}

/// Each cached image is of its own page: if every cached image was drawn
/// from its page's pdfium index, that still holds after a render.
pub proof fn law_cached_images_are_their_pages(
    cache: Map<usize, PageImage>,
    window: (usize, usize),
    page: usize,
    width: i32,
    height: i32,
    can_render: bool,
    r: Option<image::DynamicImage>,
    after: Map<usize, PageImage>,
)
    requires
        cache_of_own_pages(cache),
        render_outcome(
            cache_in_window(cache, window),
            page,
            can_render,
            requested(page, width, height),
            r,
            after,
        ),
    ensures
        cache_of_own_pages(after),
{
    assert forall|k: usize| #[trigger] after.contains_key(k) implies after[k].drawn_request().index
        == index_of(k) by {
        if k != page {
            assert(cache.contains_key(k));
        } else if !cache_in_window(cache, window).contains_key(page) {
        } else {
            assert(cache.contains_key(k));
        }
    }
}

/// A page is drawn from its own pdfium index: when a render of page `page`
/// (numbered from 1) does not find it cached and gives an image, that image
/// is the one cached under `page`, and pdfium drew it from page index
/// `page - 1` at the target width and maximum height asked for.
pub proof fn law_rendered_page_drawn_from_its_index(
    kept: Map<usize, PageImage>,
    page: usize,
    can_render: bool,
    width: i32,
    height: i32,
    img: image::DynamicImage,
    after: Map<usize, PageImage>,
)
    requires
        1 <= page <= 65536,
        !kept.contains_key(page),
        render_outcome(kept, page, can_render, requested(page, width, height), Some(img), after),
    ensures
        after.contains_key(page),
        after[page].picture() == img,
        after[page].drawn_request().index == page - 1,
        after[page].drawn_request().target_width == Some(width),
        after[page].drawn_request().maximum_height == Some(height),
{
}

/// Without pdfium nothing is ever rendered: from an empty cache, a render
/// returns nothing and leaves the cache empty, so every later render does
/// the same.
pub proof fn law_without_pdfium_nothing_renders(
    window: (usize, usize),
    page: usize,
    total: Option<usize>,
    request: RenderRequest,
    r: Option<image::DynamicImage>,
    after: Map<usize, PageImage>,
)
    requires
        render_outcome(
            cache_in_window(Map::<usize, PageImage>::empty(), window),
            page,
            renderable(false, page, total),
            request,
            r,
            after,
        ),
    ensures
        r is None,
        after == Map::<usize, PageImage>::empty(),
{
    assert(cache_in_window(Map::<usize, PageImage>::empty(), window) =~= Map::<
        usize,
        PageImage,
    >::empty());
}

/// The window from `start` to `end` holds `end - start + 1` pages.
pub proof fn lemma_window_pages_len(start: usize, end: usize)
    requires
        start <= end,
    ensures
        window_pages(start, end).finite(),
        window_pages(start, end).len() == end - start + 1,
    decreases end - start,
{
    if start == end {
        assert(window_pages(start, end) =~= Set::<usize>::empty().insert(start));
    } else {
        lemma_window_pages_len(start, (end - 1) as usize);
        assert(window_pages(start, end) =~= window_pages(start, (end - 1) as usize).insert(end));
    }
}

/// A cache that keeps to the window around a page of the document holds at
/// most `2 * BUFFER_PAGES + 1` pages: the page and `BUFFER_PAGES` on either
/// side of it.
pub proof fn law_cache_size_bounded<V>(cache: Map<usize, V>, page: usize, total: Option<usize>)
    requires
        1 <= page,
        page + BUFFER_PAGES <= usize::MAX,
        total matches Some(t) ==> page <= t,
        cache_within(cache, (window_start(page), window_end(page, total))),
    ensures
        cache.dom().finite(),
        cache.dom().len() <= 2 * BUFFER_PAGES + 1,
{
    let start = window_start(page);
    let end = window_end(page, total);
    lemma_window_pages_len(start, end);
    assert(cache.dom().subset_of(window_pages(start, end)));
    vstd::set_lib::lemma_len_subset(cache.dom(), window_pages(start, end));
}

/// A rendered page is served from the cache: rendering the same page again,
/// with nothing else in between, gives back the same image and leaves the
/// cache as it was.
pub proof fn law_render_again_hits_cache(
    cache: Map<usize, PageImage>,
    page: usize,
    total: Option<usize>,
    can_render: bool,
    request: RenderRequest,
    request2: RenderRequest,
    img: image::DynamicImage,
    after: Map<usize, PageImage>,
    r2: Option<image::DynamicImage>,
    after2: Map<usize, PageImage>,
)
    requires
        1 <= page,
        page + BUFFER_PAGES <= usize::MAX,
        render_outcome(
            cache_in_window(cache, (window_start(page), window_end(page, total))),
            page,
            renderable(can_render, page, total),
            request,
            Some(img),
            after,
        ),
        render_outcome(
            cache_in_window(after, (window_start(page), window_end(page, total))),
            page,
            renderable(can_render, page, total),
            request2,
            r2,
            after2,
        ),
    ensures
        r2 == Some(img),
        after2 == after,
{
    let w = (window_start(page), window_end(page, total));
    assert(cache_in_window(after, w) =~= after);
}

/// After the cache is cleared, a render finds nothing cached: it renders the
/// page anew, as requested, or returns nothing, and then holds at most that
/// page.
pub proof fn law_render_after_clear(
    page: usize,
    total: Option<usize>,
    can_render: bool,
    request: RenderRequest,
    r: Option<image::DynamicImage>,
    after: Map<usize, PageImage>,
)
    requires
        render_outcome(
            cache_in_window(
                Map::<usize, PageImage>::empty(),
                (window_start(page), window_end(page, total)),
            ),
            page,
            renderable(can_render, page, total),
            request,
            r,
            after,
        ),
    ensures
        match r {
            Some(img) => {
                &&& renderable(can_render, page, total)
                &&& after.dom() == set![page]
                &&& after[page].picture() == img
                &&& after[page].drawn_request() == request
            },
            None => after == Map::<usize, PageImage>::empty(),
        },
{
    assert(cache_in_window(
        Map::<usize, PageImage>::empty(),
        (window_start(page), window_end(page, total)),
    ) =~= Map::<usize, PageImage>::empty());
    if r is Some {
        assert(after.dom() =~= set![page]);
    }
}

/// What a render of `page` at `width` by `height` leaves of a document: the
/// window moves around the page, the cache goes as `render_outcome` says,
/// and nothing else changes.
pub open spec fn render_done(
    old_doc: PdfDocument,
    page: usize,
    width: i32,
    height: i32,
    r: Option<image::DynamicImage>,
    new_doc: PdfDocument,
) -> bool {
    &&& new_doc.renderer.window() == (window_start(page), window_end(page, old_doc.total_pages))
    &&& new_doc.renderer.can_render() == old_doc.renderer.can_render()
    &&& render_outcome(
        cache_in_window(old_doc.renderer.cache(), new_doc.renderer.window()),
        page,
        renderable(old_doc.renderer.can_render(), page, old_doc.total_pages),
        requested(page, width, height),
        r,
        new_doc.renderer.cache(),
    )
    &&& new_doc.file == old_doc.file
    &&& new_doc.metadata_file == old_doc.metadata_file
    &&& new_doc.metadata == old_doc.metadata
    &&& new_doc.total_pages == old_doc.total_pages
}

/// An open document.
pub struct PdfDocument {
    pub file: String,
    pub metadata_file: Option<String>,
    pub metadata: PdfMetadata,
    pub total_pages: Option<usize>,
    pub renderer: PageRenderer,
}

impl PdfDocument {
    /// Builds a document for `file`. `metadata_file` is the metadata file asked
    /// for, if any; `loaded` is the reading position read from the resolved
    /// metadata file, if it could be read; `pdfium_doc` is the document as
    /// pdfium loaded it, if it could.
    pub fn new(
        file: String,
        metadata_file: Option<String>,
        loaded: Option<PdfMetadata>,
        pdfium_doc: Option<PdfiumDocument<'static>>,
    ) -> (r: Self)
        ensures
            r.file@ == file@,
            opt_view(r.metadata_file) == resolved_metadata_file(file@, opt_view(metadata_file)),
            r.metadata == opened_position(loaded),
            r.total_pages == pdfium_total_pages(pdfium_doc),
            r.renderer.can_render() <==> pdfium_doc is Some,
            r.renderer.cache() == Map::<usize, PageImage>::empty(),
            r.renderer.window() == (1usize, 1usize),
    {
        let resolved = Self::metadata_file_for(file.as_str(), metadata_file);
        let metadata = match loaded {
            Some(m) => m,
            None => PdfMetadata::default(),
        };
        let (renderer, total_pages) = PageRenderer::new(pdfium_doc);
        PdfDocument { file, metadata_file: resolved, metadata, total_pages, renderer }
    }

    /// The metadata file of a document: the one given, else `<file name>.meta.json`
    /// beside the document.
    pub fn metadata_file_for(file: &str, metadata_file: Option<String>) -> (r: Option<String>)
        ensures
            opt_view(r) == resolved_metadata_file(file@, opt_view(metadata_file)),
    {
        match metadata_file {
            Some(m) => Some(m),
            None => match crate::paths::file_name_of(file) {
                Some(name) => {
                    let meta_name = Self::metadata_file_name(name.as_str());
                    Some(crate::paths::with_file_name_of(file, meta_name.as_str()))
                },
                None => None,
            },
        }
    }

    /// The metadata file name for a document file name: `.meta.json` appended.
    pub fn metadata_file_name(name: &str) -> (r: String)
        ensures
            r@ == name@ + meta_suffix(),
    {
        proof {
            reveal_strlit(".meta.json");
        }
        let s = String::from_str(name);
        s.concat(".meta.json")
    }

    /// What to write to persist the reading position: the metadata and its
    /// file; an error when the document has no metadata file.
    pub fn save_metadata(&self) -> (r: Result<MetadataSave, MetadataError>)
        ensures
            is_save_of(r, opt_view(self.metadata_file), self.metadata),
    {
        match &self.metadata_file {
            Some(path) => Ok(MetadataSave { path: path.clone(), metadata: self.metadata }),
            None => Err(MetadataError::NotConfigured),
        }
    }

    /// Advances to the next page. Returns true if the page changed.
    pub fn next_page(&mut self) -> (changed: bool)
        requires
            old(self).total_pages is Some || old(self).metadata.page < usize::MAX,
        ensures
            final(self).metadata.page == next_page_spec(
                old(self).metadata.page,
                old(self).total_pages,
            ),
            changed <==> final(self).metadata.page != old(self).metadata.page,
            final(self).metadata.zoom_bits == old(self).metadata.zoom_bits,
            final(self).file == old(self).file,
            final(self).metadata_file == old(self).metadata_file,
            final(self).total_pages == old(self).total_pages,
            final(self).renderer == old(self).renderer,
    {
        let current = self.metadata.page;
        let new = match self.total_pages {
            Some(total) => if current >= total { current } else { current + 1 },
            None => current + 1,
        };
        if new != current {
            self.metadata.page = new;
            true
        } else {
            false
        }
    }

    /// Goes back to the previous page. Returns true if the page changed.
    pub fn prev_page(&mut self) -> (changed: bool)
        ensures
            final(self).metadata.page == prev_page_spec(old(self).metadata.page),
            changed <==> final(self).metadata.page != old(self).metadata.page,
            final(self).metadata.zoom_bits == old(self).metadata.zoom_bits,
            final(self).file == old(self).file,
            final(self).metadata_file == old(self).metadata_file,
            final(self).total_pages == old(self).total_pages,
            final(self).renderer == old(self).renderer,
    {
        let current = self.metadata.page;
        if current <= 1 {
            return false;
        }
        self.metadata.page = current - 1;
        true
    }

    /// The name shown for the document: its file stem, else its file name,
    /// else `Untitled`.
    pub fn display_name(&self) -> (r: String)
        ensures
            r@ == display_name_spec(path_file_stem(self.file@), path_file_name(self.file@)),
    {
        let stem = crate::paths::file_stem_of(self.file.as_str());
        match stem {
            Some(s) => Self::display_name_from(Some(s), None),
            None => Self::display_name_from(None, crate::paths::file_name_of(self.file.as_str())),
        }
    }

    /// Chooses the shown name from a file stem and a file name.
    pub fn display_name_from(stem: Option<String>, name: Option<String>) -> (r: String)
        ensures
            r@ == display_name_spec(opt_view(stem), opt_view(name)),
    {
        match stem {
            Some(s) => s,
            None => match name {
                Some(n) => n,
                None => {
                    proof {
                        reveal_strlit("Untitled");
                    }
                    String::from_str("Untitled")
                },
            },
        }
    }

    /// Renders a page (1-based) to an image, at the given target width and
    /// maximum height in pixels, and returns it; a page already in the cache
    /// is returned from there. First moves the cache window to the pages
    /// around `page_num`. Returns `None` when the page cannot be rendered.
    pub fn render_page(&mut self, page_num: usize, width: i32, height: i32) -> (r: Option<
        &image::DynamicImage,
    >)
        requires
            page_num + BUFFER_PAGES <= usize::MAX,
        ensures
            render_done(
                *old(self),
                page_num,
                width,
                height,
                match r {
                    Some(img) => Some(*img),
                    None => None,
                },
                *final(self),
            ),
    {
        let total = self.total_pages;
        self.renderer.render_page(page_num, total, width, height)
    }

    /// Renders the current page, exactly as `render_page` does for it.
    pub fn get_current_page_image(&mut self, width: i32, height: i32) -> (r: Option<
        &image::DynamicImage,
    >)
        requires
            old(self).metadata.page + BUFFER_PAGES <= usize::MAX,
        ensures
            render_done(
                *old(self),
                old(self).metadata.page,
                width,
                height,
                match r {
                    Some(img) => Some(*img),
                    None => None,
                },
                *final(self),
            ),
    {
        let page = self.metadata.page;
        self.render_page(page, width, height)
    }

    /// Drops every cached page.
    pub fn clear_cache(&mut self)
        ensures
            final(self).renderer.cache() == Map::<usize, PageImage>::empty(),
            final(self).renderer.window() == old(self).renderer.window(),
            final(self).renderer.can_render() == old(self).renderer.can_render(),
            final(self).file == old(self).file,
            final(self).metadata_file == old(self).metadata_file,
            final(self).metadata == old(self).metadata,
            final(self).total_pages == old(self).total_pages,
    {
        self.renderer.clear_cache();
    }
}

} // verus!
