use vstd::prelude::*;
use crate::errors::{AutoGuiError, is_image_error, is_os_failure, image_processing_error, os_failure};
use crate::frame::{GrayFrame, RgbaFrame, image_fits};
use crate::image_ops::{crop_of, crop_region};
use crate::region::{cut_screen_region_gray, cut_screen_region_rgba};
use crate::keyboard::Keyboard;
use crate::mouse::Mouse;
use crate::pixels::{bgra_to_rgba, gray_from_pixels, gray_levels, is_rgba_of_bgra};

verus! {

/// Screen state of an X11 session: the size of the root window and the last
/// capture, four bytes per pixel. The display connection itself is held by
/// the caller, who performs the X11 requests.
#[derive(Debug, Clone)]
pub struct X11Screen {
    pub screen_width: i32,
    pub screen_height: i32,
    pub root_window: u64,
    pub pixel_data: Vec<u8>,
}

/// The image the X server returned for a capture of the root window: its
/// size, bits per pixel and pixel bytes (blue, green, red, padding).
pub struct XImageData<'a> {
    pub width: i32,
    pub height: i32,
    pub bits_per_pixel: i32,
    pub data: &'a [u8],
}

impl<'a> XImageData<'a> {
    /// Whether the image can be read as four bytes per pixel: its size is
    /// non-negative, its buffer holds four bytes for each pixel and the
    /// byte count fits the 32-bit arithmetic of the conversion.
    pub open spec fn readable(&self) -> bool {
        &&& 0 <= self.width
        &&& 0 <= self.height
        &&& self.width * self.height * 4 <= u32::MAX
        &&& self.data@.len() >= self.width * self.height * 4
    }
}

/// Message when the X server returns no image.
pub open spec fn no_image_message() -> Seq<char> {
    "Error grabbing display image. Unable to get X image. Possible x11 error, check if you're running on x11 and not wayland"@
}

/// Message when the pixel buffer is too small for a grayscale image of the screen size.
pub open spec fn grayscale_failure_message() -> Seq<char> {
    "Failed conversion to grayscale"@
}

/// Message when the pixel buffer is too small for an RGBA image of the screen size.
pub open spec fn rgba_failure_message() -> Seq<char> {
    "Failed conversion to RGBa"@
}

/// What a capture stores: the converted image when the server returned one.
pub open spec fn captured(screen: X11Screen, image: Option<XImageData>, after: X11Screen) -> bool {
    match image {
        None => after == screen,
        Some(img) => {
            &&& after.screen_width == screen.screen_width
            &&& after.screen_height == screen.screen_height
            &&& after.root_window == screen.root_window
            &&& is_rgba_of_bgra(after.pixel_data@, img.data@, img.width * img.height)
        },
    }
}

impl X11Screen {
    /// The pixel size of the screen as the caller uses it for image sizes.
    pub open spec fn frame_width(&self) -> u32 {
        self.screen_width as u32
    }

    /// The pixel height of the screen as the caller uses it for image sizes.
    pub open spec fn frame_height(&self) -> u32 {
        self.screen_height as u32
    }

    /// Screen state for a freshly opened display of the given size: the
    /// pixel buffer holds four zero bytes per pixel.
    pub fn new(screen_width: i32, screen_height: i32, root_window: u64) -> (r: X11Screen)
        requires
            0 <= screen_width * screen_height * 4 <= i32::MAX,
        ensures
            r.screen_width == screen_width,
            r.screen_height == screen_height,
            r.root_window == root_window,
            r.pixel_data@.len() == screen_width * screen_height * 4,
            forall|i: int| 0 <= i < r.pixel_data@.len() ==> r.pixel_data@[i] == 0,
    {
        let len: i32 = screen_width * screen_height * 4;
        let mut pixel_data: Vec<u8> = Vec::new();
        let mut i: i32 = 0;
        while i < len
            invariant
                0 <= i <= len,
                pixel_data@.len() == i,
                forall|j: int| 0 <= j < i ==> pixel_data@[j] == 0,
            decreases len - i,
        {
            pixel_data.push(0u8);
            i = i + 1;
        }
        X11Screen { screen_width, screen_height, root_window, pixel_data }
    }

    /// The screen size `(width, height)`, all monitors included.
    pub fn dimension(&self) -> (r: (i32, i32))
        ensures
            r == (self.screen_width, self.screen_height),
    {
        (self.screen_width, self.screen_height)
    }

    /// Stores a capture of the root window. `image` is what the X server
    /// returned for the request (`None` when it returned no image); its pixels
    /// are stored as red, green, blue and an opaque alpha byte.
    pub fn capture_screen(&mut self, image: Option<XImageData>) -> (r: Result<(), AutoGuiError>)
        requires
            image matches Some(img) ==> img.readable(),
        ensures
            captured(*old(self), image, *final(self)),
            image is None ==> r is Err && is_os_failure(r->Err_0, no_image_message()),
            image is Some ==> r is Ok,
    {
        match image {
            None => Err(
                os_failure(
                    "Error grabbing display image. Unable to get X image. Possible x11 error, check if you're running on x11 and not wayland",
                ),
            ),
            Some(img) => {
                let data = bgra_to_rgba(img.data, img.width as u32, img.height as u32);
                self.pixel_data = data;
                Ok(())
            },
        }
    }

    /// The gray levels of the stored pixels as a screen-sized grayscale image.
    pub fn convert_bitmap_to_grayscale(&self) -> (r: Result<GrayFrame, AutoGuiError>)
        requires
            0 <= self.screen_width * self.screen_height <= i32::MAX,
        ensures
            r is Ok <==> image_fits(
                self.frame_width(),
                self.frame_height(),
                1,
                gray_levels(self.pixel_data@).len(),
            ),
            r matches Ok(f) ==> f.width == self.frame_width() && f.height == self.frame_height()
                && f.data@ == gray_levels(self.pixel_data@),
            r matches Err(e) ==> is_image_error(e, grayscale_failure_message()),
    {
        let gray = gray_from_pixels(self.pixel_data.as_slice());
        match GrayFrame::from_raw(self.screen_width as u32, self.screen_height as u32, gray) {
            Some(frame) => Ok(frame),
            None => Err(image_processing_error("Failed conversion to grayscale")),
        }
    }

    /// The stored pixels as a screen-sized RGBA image.
    pub fn convert_bitmap_to_rgba(&self) -> (r: Result<RgbaFrame, AutoGuiError>)
        ensures
            r is Ok <==> image_fits(
                self.frame_width(),
                self.frame_height(),
                4,
                self.pixel_data@.len(),
            ),
            r matches Ok(f) ==> f.width == self.frame_width() && f.height == self.frame_height()
                && f.data@ == self.pixel_data@,
            r matches Err(e) ==> is_image_error(e, rgba_failure_message()),
    {
        match RgbaFrame::from_raw(
            self.screen_width as u32,
            self.screen_height as u32,
            self.pixel_data.clone(),
        ) {
            Some(frame) => Ok(frame),
            None => Err(image_processing_error("Failed conversion to RGBa")),
        }
    }

    /// Captures the screen and returns the `region` `(x, y, width, height)`
    /// of it as an RGBA image.
    pub fn grab_screen_image(&mut self, image: Option<XImageData>, region: (u32, u32, u32, u32)) -> (r:
        Result<RgbaFrame, AutoGuiError>)
        requires
            image matches Some(img) ==> img.readable(),
        ensures
            captured(*old(self), image, *final(self)),
            image is None ==> r is Err && is_os_failure(r->Err_0, no_image_message()),
            image is Some && !image_fits(
                final(self).frame_width(),
                final(self).frame_height(),
                4,
                final(self).pixel_data@.len(),
            ) ==> r is Err && is_image_error(r->Err_0, rgba_failure_message()),
            r matches Ok(f) ==> f.width == crop_region(
                final(self).frame_width(),
                final(self).frame_height(),
                region.0,
                region.1,
                region.2,
                region.3,
            ).2 && f.height == crop_region(
                final(self).frame_width(),
                final(self).frame_height(),
                region.0,
                region.1,
                region.2,
                region.3,
            ).3 && f.data@ == crop_of(
                final(self).pixel_data@,
                final(self).frame_width(),
                final(self).frame_height(),
                4,
                region.0,
                region.1,
                region.2,
                region.3,
            ),
            image is Some && image_fits(
                final(self).frame_width(),
                final(self).frame_height(),
                4,
                final(self).pixel_data@.len(),
            ) ==> r is Ok,
    {
        let (x, y, width, height) = region;
        self.capture_screen(image)?;
        let frame = self.convert_bitmap_to_rgba()?;
        Ok(cut_screen_region_rgba(x, y, width, height, &frame))
    }
    /// Captures the screen and returns the `region` `(x, y, width, height)`
    /// of it as a grayscale image.
    pub fn grab_screen_image_grayscale(
        &mut self,
        image: Option<XImageData>,
        region: &(u32, u32, u32, u32),
    ) -> (r: Result<GrayFrame, AutoGuiError>)
        requires
            image matches Some(img) ==> img.readable(),
            0 <= old(self).screen_width * old(self).screen_height <= i32::MAX,
        ensures
            captured(*old(self), image, *final(self)),
            image is None ==> r is Err && is_os_failure(r->Err_0, no_image_message()),
            image is Some && !image_fits(
                final(self).frame_width(),
                final(self).frame_height(),
                1,
                gray_levels(final(self).pixel_data@).len(),
            ) ==> r is Err && is_image_error(r->Err_0, grayscale_failure_message()),
            image is Some && image_fits(
                final(self).frame_width(),
                final(self).frame_height(),
                1,
                gray_levels(final(self).pixel_data@).len(),
            ) ==> r is Ok,
            r matches Ok(f) ==> f.width == crop_region(
                final(self).frame_width(),
                final(self).frame_height(),
                region.0,
                region.1,
                region.2,
                region.3,
            ).2 && f.height == crop_region(
                final(self).frame_width(),
                final(self).frame_height(),
                region.0,
                region.1,
                region.2,
                region.3,
            ).3 && f.data@ == crop_of(
                gray_levels(final(self).pixel_data@),
                final(self).frame_width(),
                final(self).frame_height(),
                1,
                region.0,
                region.1,
                region.2,
                region.3,
            ),
    {
        let (x, y, width, height) = *region;
        self.capture_screen(image)?;
        let frame = self.convert_bitmap_to_grayscale()?;
        Ok(cut_screen_region_gray(x, y, width, height, &frame))
    }

    /// Captures the screen and returns it as an RGBA image, ready to be saved.
    pub fn grab_screenshot(&mut self, image: Option<XImageData>) -> (r: Result<
        RgbaFrame,
        AutoGuiError,
    >)
        requires
            image matches Some(img) ==> img.readable(),
        ensures
            captured(*old(self), image, *final(self)),
            image is None ==> r is Err && is_os_failure(r->Err_0, no_image_message()),
            image is Some ==> (r is Ok <==> image_fits(
                final(self).frame_width(),
                final(self).frame_height(),
                4,
                final(self).pixel_data@.len(),
            )),
            r matches Ok(f) ==> f.width == final(self).frame_width() && f.height == final(self).frame_height()
                && f.data@ == final(self).pixel_data@,
            image is Some && r is Err ==> is_image_error(r->Err_0, rgba_failure_message()),
    {
        self.capture_screen(image)?;
        self.convert_bitmap_to_rgba()
    }

    /// The keyboard of an X11 session is served by the X11 backend.
    pub fn create_keyboard(&mut self) -> (r: Keyboard)
        ensures
            r == Keyboard::X11,
            *final(self) == *old(self),
    {
        Keyboard::X11
    }

    /// The mouse of an X11 session is served by the X11 backend.
    pub fn create_mouse(&mut self) -> (r: Mouse)
        ensures
            r == Mouse::X11,
            *final(self) == *old(self),
    {
        Mouse::X11
    }
}

/// A capture of the whole screen (an image of the screen's own size) always
/// converts: the stored pixels then fill a screen-sized RGBA image and a
/// screen-sized grayscale image exactly. (A row's byte count must be a
/// `usize`, which only matters for screens of height 0 on 32-bit targets.)
pub proof fn lemma_screen_capture_converts(before: X11Screen, img: XImageData, after: X11Screen)
    requires
        img.readable(),
        img.width == before.screen_width,
        img.height == before.screen_height,
        4 * before.screen_width <= usize::MAX,
        captured(before, Some(img), after),
    ensures
        image_fits(after.frame_width(), after.frame_height(), 4, after.pixel_data@.len()),
        image_fits(after.frame_width(), after.frame_height(), 1, gray_levels(after.pixel_data@).len()),
{
    let w = after.frame_width();
    let h = after.frame_height();
    assert(w == img.width && h == img.height);
    assert(after.pixel_data@.len() == 4 * (img.width * img.height));
    assert(4 * w * h == 4 * (w * h)) by (nonlinear_arith);
    assert(gray_levels(after.pixel_data@).len() == (w * h));
    assert(1 * w * h == w * h);
}

/// A freshly opened screen's buffer converts to a screen-sized image (a row's
/// byte count being a `usize`, as above).
pub proof fn lemma_new_screen_converts(screen: X11Screen)
    requires
        0 <= screen.screen_width,
        0 <= screen.screen_height,
        screen.screen_width * screen.screen_height * 4 <= i32::MAX,
        screen.pixel_data@.len() == screen.screen_width * screen.screen_height * 4,
        4 * screen.screen_width <= usize::MAX,
    ensures
        image_fits(screen.frame_width(), screen.frame_height(), 4, screen.pixel_data@.len()),
{
    let w = screen.frame_width();
    let h = screen.frame_height();
    assert(4 * w * h == w * h * 4) by (nonlinear_arith);
}

/// Whether two screen states report the same screen size.
pub open spec fn same_screen_size(a: X11Screen, b: X11Screen) -> bool {
    a.screen_width == b.screen_width && a.screen_height == b.screen_height
}

/// A capture (and so every grab, which captures first) keeps the screen size;
/// conversions and `dimension` take the state by shared reference.
pub proof fn lemma_capture_keeps_size(before: X11Screen, image: Option<XImageData>, after: X11Screen)
    requires
        captured(before, image, after),
    ensures
        same_screen_size(before, after),
{
}

/// The screen size never changes: in any run of states where each step keeps
/// the size (as every capture and grab does), every state has the size of the
/// first, so `dimension` keeps answering what it answered after `new`.
pub proof fn lemma_screen_size_is_fixed(states: Seq<X11Screen>)
    requires
        states.len() > 0,
        forall|i: int|
            0 <= i < states.len() - 1 ==> same_screen_size(#[trigger] states[i], states[i + 1]),
    ensures
        forall|i: int| 0 <= i < states.len() ==> same_screen_size(states[0], #[trigger] states[i]),
    decreases states.len(),
{
    if states.len() > 1 {
        let prefix = states.drop_last();
        assert forall|i: int| 0 <= i < prefix.len() - 1 implies same_screen_size(
            #[trigger] prefix[i],
            prefix[i + 1],
        ) by {
            assert(same_screen_size(states[i], states[i + 1]));
        }
        lemma_screen_size_is_fixed(prefix);
        assert forall|i: int| 0 <= i < states.len() implies same_screen_size(
            states[0],
            #[trigger] states[i],
        ) by {
            if i < states.len() - 1 {
                assert(same_screen_size(prefix[0], prefix[i]));
            } else {
                assert(same_screen_size(prefix[0], prefix[i - 1]));
                assert(same_screen_size(states[i - 1], states[i]));
            }
        }
    }
}

} // verus!
