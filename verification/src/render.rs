//! The calls into pdfium-render and image that turn a PDF page into an
//! image. Each outside function has one trusted item here; nothing of what
//! pdfium draws is claimed.

use vstd::prelude::*;
use pdfium_render::prelude::PdfDocument as PdfiumDocument;

verus! {

/// pdfium-render's loaded document.
#[verifier::external_type_specification]
#[verifier::external_body]
pub struct ExPdfiumDocument<'a>(PdfiumDocument<'a>);

/// pdfium-render's page of a loaded document.
#[verifier::external_type_specification]
#[verifier::external_body]
pub struct ExPdfiumPage<'a>(pdfium_render::prelude::PdfPage<'a>);

/// pdfium-render's rendering settings.
#[verifier::external_type_specification]
#[verifier::external_body]
pub struct ExPdfRenderConfig(pdfium_render::prelude::PdfRenderConfig);

/// pdfium-render's rendered bitmap.
#[verifier::external_type_specification]
#[verifier::external_body]
pub struct ExPdfBitmap<'a>(pdfium_render::prelude::PdfBitmap<'a>);

/// pdfium-render's error.
#[verifier::external_type_specification]
#[verifier::external_body]
pub struct ExPdfiumError(pdfium_render::prelude::PdfiumError);

/// image's decoded image.
#[verifier::external_type_specification]
#[verifier::external_body]
pub struct ExDynamicImage(image::DynamicImage);

/// How many pages the pdfium document holds: what its page collection's
/// `PdfPages::len` reports.
pub uninterp spec fn pdfium_page_count(doc: PdfiumDocument<'static>) -> u16;

/// `PdfPages::len` of the document's pages: how many pages pdfium reports,
/// which is `pdfium_page_count` of the document.
#[verifier::external_body]
pub(crate) fn page_count(doc: &PdfiumDocument<'static>) -> (r: u16)
    ensures
        r == pdfium_page_count(*doc),
{
    doc.pages().len()
}

/// A page that pdfium loaded, with the 0-based index it was asked for. Only
/// `load_page` makes one.
pub struct LoadedPage<'a> {
    page: pdfium_render::prelude::PdfPage<'a>,
    index: u16,
}

impl<'a> LoadedPage<'a> {
    /// The 0-based index the page was loaded at.
    pub closed spec fn loaded_index(&self) -> u16 {
        self.index
    }
}

/// Rendering settings, with the target width and maximum height that were
/// set on them. Only the settings functions below make or change them.
pub struct RenderSettings {
    config: pdfium_render::prelude::PdfRenderConfig,
    target_width: Option<i32>,
    maximum_height: Option<i32>,
}

impl RenderSettings {
    /// The target width set on the settings, if any.
    pub closed spec fn target_width_set(&self) -> Option<i32> {
        self.target_width
    }

    /// The maximum height set on the settings, if any.
    pub closed spec fn maximum_height_set(&self) -> Option<i32> {
        self.maximum_height
    }
}

/// A bitmap that pdfium rendered, with the page index and settings it was
/// rendered from. Only `render_with_config` makes one.
pub struct RenderedBitmap<'a> {
    bitmap: pdfium_render::prelude::PdfBitmap<'a>,
    index: u16,
    target_width: Option<i32>,
    maximum_height: Option<i32>,
}

impl<'a> RenderedBitmap<'a> {
    /// The 0-based index of the page the bitmap was rendered from.
    pub closed spec fn drawn_index(&self) -> u16 {
        self.index
    }

    /// The target width the bitmap was rendered with, if one was set.
    pub closed spec fn drawn_target_width(&self) -> Option<i32> {
        self.target_width
    }

    /// The maximum height the bitmap was rendered with, if one was set.
    pub closed spec fn drawn_maximum_height(&self) -> Option<i32> {
        self.maximum_height
    }

    /// The 0-based index of the page the bitmap was rendered from.
    pub fn request_index(&self) -> (r: u16)
        ensures
            r == self.drawn_index(),
    {
        self.index
    }

    /// The target width the bitmap was rendered with, if one was set.
    pub fn request_target_width(&self) -> (r: Option<i32>)
        ensures
            r == self.drawn_target_width(),
    {
        self.target_width
    }

    /// The maximum height the bitmap was rendered with, if one was set.
    pub fn request_maximum_height(&self) -> (r: Option<i32>)
        ensures
            r == self.drawn_maximum_height(),
    {
        self.maximum_height
    }
}

/// An RGBA image with its width and height in pixels. Only
/// `rgba_image_from_raw` makes one.
pub struct RgbaPicture {
    image: image::DynamicImage,
    width: u32,
    height: u32,
}

impl RgbaPicture {
    /// The image's width in pixels.
    pub closed spec fn pixel_width(&self) -> u32 {
        self.width
    }

    /// The image's height in pixels.
    pub closed spec fn pixel_height(&self) -> u32 {
        self.height
    }

    /// The image's width in pixels.
    pub fn width(&self) -> (r: u32)
        ensures
            r == self.pixel_width(),
    {
        self.width
    }

    /// The image's height in pixels.
    pub fn height(&self) -> (r: u32)
        ensures
            r == self.pixel_height(),
    {
        self.height
    }

    /// The image itself.
    pub fn into_image(self) -> (r: image::DynamicImage) {
        self.image
    }
}

/// What pdfium is asked for when a page is rendered: the 0-based page index
/// and the target width and maximum height set on the settings.
#[derive(Clone, Copy, PartialEq, Eq, Structural, Debug)]
pub struct RenderRequest {
    pub index: u16,
    pub target_width: Option<i32>,
    pub maximum_height: Option<i32>,
}

/// A rendered page: the image, its size in pixels, and what pdfium drew it
/// from. Only `page_image_of` makes one, from the bitmap pdfium drew, so the
/// request it carries is the one the bitmap was drawn from.
pub struct PageImage {
    image: image::DynamicImage,
    width: u32,
    height: u32,
    request: RenderRequest,
}

impl PageImage {
    /// The image.
    pub closed spec fn picture(&self) -> image::DynamicImage {
        self.image
    }

    /// The page index and sizes the image was drawn from.
    pub closed spec fn drawn_request(&self) -> RenderRequest {
        self.request
    }

    /// The image's width in pixels.
    pub closed spec fn pixel_width(&self) -> u32 {
        self.width
    }

    /// The image's height in pixels.
    pub closed spec fn pixel_height(&self) -> u32 {
        self.height
    }

    /// The image.
    pub fn image(&self) -> (r: &image::DynamicImage)
        ensures
            *r == self.picture(),
    {
        &self.image
    }

    /// The page index and sizes the image was drawn from.
    pub fn request(&self) -> (r: RenderRequest)
        ensures
            r == self.drawn_request(),
    {
        self.request
    }

    /// The image's width in pixels.
    pub fn width(&self) -> (r: u32)
        ensures
            r == self.pixel_width(),
    {
        self.width
    }

    /// The image's height in pixels.
    pub fn height(&self) -> (r: u32)
        ensures
            r == self.pixel_height(),
    {
        self.height
    }
}

/// The page image of a bitmap that pdfium drew: the bitmap's pixels as an
/// RGBA image of the bitmap's size, carrying the page index and the sizes
/// the bitmap was drawn from. `None` when the bitmap's buffer is too small
/// for an RGBA image of its size.
pub(crate) fn page_image_of(bitmap: &RenderedBitmap) -> (r: Option<PageImage>)
    ensures
        r matches Some(p) ==> p.drawn_request() == (RenderRequest {
            index: bitmap.drawn_index(),
            target_width: bitmap.drawn_target_width(),
            maximum_height: bitmap.drawn_maximum_height(),
        }),
{
    let w = bitmap_width(bitmap);
    let h = bitmap_height(bitmap);
    let data = bitmap_raw_bytes(bitmap);
    let request = RenderRequest {
        index: bitmap.index,
        target_width: bitmap.target_width,
        maximum_height: bitmap.maximum_height,
    };
    match crate::document::image_from_bitmap(w, h, data) {
        Some(p) => Some(PageImage { image: p.image, width: p.width, height: p.height, request }),
        None => None,
    }
}

/// `PdfPages::get` of the document's pages: loads the page at a 0-based index.
/// As pdfium-render's source shows, an index at or past the page count is
/// refused; a loaded page is the one asked for (its index is kept beside
/// it). Nothing is claimed of which index below the count succeeds.
#[verifier::external_body]
pub(crate) fn load_page<'a>(
    doc: &'a PdfiumDocument<'static>,
    index: u16,
) -> (r: Result<LoadedPage<'a>, pdfium_render::prelude::PdfiumError>)
    ensures
        index >= pdfium_page_count(*doc) ==> r is Err,
        r matches Ok(p) ==> p.loaded_index() == index,
{
    match doc.pages().get(index) {
        Ok(page) => Ok(LoadedPage { page, index }),
        Err(e) => Err(e),
    }
}

/// `PdfRenderConfig::new`: default rendering settings, with no target width
/// and no maximum height set.
#[verifier::external_body]
pub(crate) fn new_render_config() -> (r: RenderSettings)
    ensures
        r.target_width_set() is None,
        r.maximum_height_set() is None,
{
    RenderSettings {
        config: pdfium_render::prelude::PdfRenderConfig::new(),
        target_width: None,
        maximum_height: None,
    }
}

/// `PdfRenderConfig::set_target_width`: asks for pages scaled to the given
/// pixel width, which is recorded beside the settings.
#[verifier::external_body]
pub(crate) fn set_target_width(settings: RenderSettings, width: i32) -> (r: RenderSettings)
    ensures
        r.target_width_set() == Some(width),
        r.maximum_height_set() == settings.maximum_height_set(),
{
    RenderSettings {
        config: settings.config.set_target_width(width),
        target_width: Some(width),
        maximum_height: settings.maximum_height,
    }
}

/// `PdfRenderConfig::set_maximum_height`: caps the pixel height of rendered
/// pages, which is recorded beside the settings.
#[verifier::external_body]
pub(crate) fn set_maximum_height(settings: RenderSettings, height: i32) -> (r: RenderSettings)
    ensures
        r.maximum_height_set() == Some(height),
        r.target_width_set() == settings.target_width_set(),
{
    RenderSettings {
        config: settings.config.set_maximum_height(height),
        target_width: settings.target_width,
        maximum_height: Some(height),
    }
}

/// `PdfPage::render_with_config`: draws the page into a new bitmap. Claims
/// only that the bitmap carries the page's index and the settings' sizes;
/// nothing is claimed of whether rendering succeeds or what is drawn.
#[verifier::external_body]
pub(crate) fn render_with_config<'a>(
    page: &'a LoadedPage<'a>,
    settings: &RenderSettings,
) -> (r: Result<RenderedBitmap<'a>, pdfium_render::prelude::PdfiumError>)
    ensures
        r matches Ok(b) ==> b.drawn_index() == page.loaded_index() && b.drawn_target_width()
            == settings.target_width_set() && b.drawn_maximum_height()
            == settings.maximum_height_set(),
{
    match page.page.render_with_config(&settings.config) {
        Ok(bitmap) => Ok(RenderedBitmap {
            bitmap,
            index: page.index,
            target_width: settings.target_width,
            maximum_height: settings.maximum_height,
        }),
        Err(e) => Err(e),
    }
}

/// `PdfBitmap::width`, in pixels. Nothing is claimed of the number.
#[verifier::external_body]
pub(crate) fn bitmap_width(bitmap: &RenderedBitmap) -> (r: i32) {
    bitmap.bitmap.width()
}

/// `PdfBitmap::height`, in pixels. Nothing is claimed of the number.
#[verifier::external_body]
pub(crate) fn bitmap_height(bitmap: &RenderedBitmap) -> (r: i32) {
    bitmap.bitmap.height()
}

/// `PdfBitmap::as_raw_bytes`: a copy of the bitmap's buffer.
/// Nothing is claimed of its contents.
#[verifier::external_body]
pub(crate) fn bitmap_raw_bytes(bitmap: &RenderedBitmap) -> (r: Vec<u8>) {
    bitmap.bitmap.as_raw_bytes()
}

/// `ImageBuffer::from_raw` for RGBA pixels, wrapped as a `DynamicImage`.
/// As image's source shows, it succeeds exactly when the buffer holds at
/// least four bytes for each of the `width * height` pixels, and the image
/// has the width and height given.
#[verifier::external_body]
pub(crate) fn rgba_image_from_raw(width: u32, height: u32, data: Vec<u8>) -> (r: Option<
    RgbaPicture,
>)
    ensures
        r is Some <==> 4 * width * height <= data.len(),
        r matches Some(p) ==> p.pixel_width() == width && p.pixel_height() == height,
{
    match image::RgbaImage::from_raw(width, height, data) {
        Some(img) => Some(RgbaPicture { image: image::DynamicImage::ImageRgba8(img), width, height }),
        None => None,
    }
}

} // verus!
