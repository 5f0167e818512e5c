use vstd::prelude::*;
use crate::errors::AutoGuiError;
use crate::frame::{GrayFrame, RgbaFrame};
use crate::image_ops::{crop_of, crop_region, crop_rgba};
use crate::pixels::gray_levels;
use crate::region::{convert_rgba_to_bw, cut_screen_region_rgba};
use crate::keyboard::Keyboard;
use crate::mouse::Mouse;

verus! {

/// Screen state of a Wayland session: the latest frame delivered by the
/// screen-capture stream. The stream itself is held by the caller, who
/// hands over a newer frame whenever one is waiting.
#[derive(Debug, Clone)]
pub struct WaylandScreen {
    pub img: RgbaFrame,
}

/// The frame that holds after a capture: a newer frame replaces the stored one.
pub open spec fn latest_frame(stored: RgbaFrame, newer: Option<RgbaFrame>) -> RgbaFrame {
    match newer {
        Some(f) => f,
        None => stored,
    }
}

impl WaylandScreen {
    /// Screen state holding the first frame of the stream.
    pub fn new(img: RgbaFrame) -> (r: WaylandScreen)
        ensures
            r.img == img,
    {
        WaylandScreen { img }
    }

    /// The size `(width, height)` of the latest frame, all monitors included.
    pub fn dimension(&self) -> (r: (i32, i32))
        ensures
            r == (self.img.width as i32, self.img.height as i32),
    {
        (self.img.width as i32, self.img.height as i32)
    }

    /// Replaces the stored frame by `newer`, the frame waiting in the stream
    /// if there is one.
    pub fn capture_screen(&mut self, newer: Option<RgbaFrame>) -> (r: Result<(), AutoGuiError>)
        ensures
            r is Ok,
            final(self).img == latest_frame(old(self).img, newer),
            newer matches Some(f) ==> final(self).img == f,
            newer is None ==> final(self).img == old(self).img,
    {
        match newer {
            Some(frame) => {
                self.img = frame;
            },
            None => {},
        }
        Ok(())
    }

    /// Captures the screen and returns the `region` `(x, y, width, height)`
    /// of the latest frame.
    pub fn grab_screen_image(&mut self, newer: Option<RgbaFrame>, region: (u32, u32, u32, u32)) -> (r:
        Result<RgbaFrame, AutoGuiError>)
        requires
            old(self).img.wf(),
            newer matches Some(f) ==> f.wf(),
        ensures
            final(self).img == latest_frame(old(self).img, newer),
            newer matches Some(n) ==> final(self).img == n,
            newer is None ==> final(self).img == old(self).img,
            r matches Ok(f) && f.width == crop_region(
                final(self).img.width,
                final(self).img.height,
                region.0,
                region.1,
                region.2,
                region.3,
            ).2 && f.height == crop_region(
                final(self).img.width,
                final(self).img.height,
                region.0,
                region.1,
                region.2,
                region.3,
            ).3 && f.data@ == crop_of(
                final(self).img.data@,
                final(self).img.width,
                final(self).img.height,
                4,
                region.0,
                region.1,
                region.2,
                region.3,
            ),
    {
        self.capture_screen(newer)?;
        let (x, y, width, height) = region;
        Ok(crop_rgba(&self.img, x, y, width, height))
    }

    /// Captures the screen and returns the `region` `(x, y, width, height)`
    /// of the latest frame in grayscale.
    pub fn grab_screen_image_grayscale(
        &mut self,
        newer: Option<RgbaFrame>,
        region: &(u32, u32, u32, u32),
    ) -> (r: Result<GrayFrame, AutoGuiError>)
        requires
            old(self).img.wf(),
            newer matches Some(f) ==> f.wf(),
        ensures
            final(self).img == latest_frame(old(self).img, newer),
            newer matches Some(n) ==> final(self).img == n,
            newer is None ==> final(self).img == old(self).img,
            r matches Ok(f) && f.width == crop_region(
                final(self).img.width,
                final(self).img.height,
                region.0,
                region.1,
                region.2,
                region.3,
            ).2 && f.height == crop_region(
                final(self).img.width,
                final(self).img.height,
                region.0,
                region.1,
                region.2,
                region.3,
            ).3 && f.data@ == gray_levels(
                crop_of(
                    final(self).img.data@,
                    final(self).img.width,
                    final(self).img.height,
                    4,
                    region.0,
                    region.1,
                    region.2,
                    region.3,
                ),
            ),
    {
        self.capture_screen(newer)?;
        let (x, y, width, height) = *region;
        let cropped = cut_screen_region_rgba(x, y, width, height, &self.img);
        convert_rgba_to_bw(cropped)
    }

    /// Captures the screen and returns the latest frame, ready to be saved.
    pub fn grab_screenshot(&mut self, newer: Option<RgbaFrame>) -> (r: Result<RgbaFrame, AutoGuiError>)
        ensures
            final(self).img == latest_frame(old(self).img, newer),
            r matches Ok(f) && f.width == final(self).img.width && f.height == final(self).img.height
                && f.data@ == final(self).img.data@,
            newer matches Some(n) ==> (r matches Ok(f) && f.width == n.width && f.height
                == n.height && f.data@ == n.data@),
            newer is None ==> (r matches Ok(f) && f.width == old(self).img.width && f.height
                == old(self).img.height && f.data@ == old(self).img.data@),
    {
        self.capture_screen(newer)?;
        Ok(self.img.duplicate())
    }

    /// The latest frame in grayscale.
    pub fn convert_bitmap_to_grayscale(&self) -> (r: Result<GrayFrame, AutoGuiError>)
        requires
            self.img.wf(),
        ensures
            r matches Ok(f) && f.width == self.img.width && f.height == self.img.height && f.data@
                == gray_levels(self.img.data@),
    {
        convert_rgba_to_bw(self.img.duplicate())
    }

    /// The latest frame.
    pub fn convert_bitmap_to_rgba(&self) -> (r: Result<RgbaFrame, AutoGuiError>)
        ensures
            r matches Ok(f) && f.width == self.img.width && f.height == self.img.height && f.data@
                == self.img.data@,
    {
        Ok(self.img.duplicate())
    }

    /// Wayland sessions have no keyboard backend yet.
    pub fn create_keyboard(&mut self) -> (r: Keyboard)
        ensures
            r == Keyboard::Wayland,
            *final(self) == *old(self),
    {
        Keyboard::Wayland
    }

    /// Wayland sessions have no mouse backend yet.
    pub fn create_mouse(&mut self) -> (r: Mouse)
        ensures
            r == Mouse::Wayland,
            *final(self) == *old(self),
    {
        Mouse::Wayland
    }
}

/// A capture keeps the newest frame: a waiting frame always replaces the
/// stored one, whatever its size, and without one the stored frame stays, so
/// a later capture with nothing waiting still holds that newer frame.
pub proof fn lemma_newer_frame_replaces_stored(stored: RgbaFrame, newer: RgbaFrame)
    ensures
        latest_frame(stored, Some(newer)) == newer,
        latest_frame(stored, None) == stored,
        latest_frame(latest_frame(stored, Some(newer)), None) == newer,
{
}

} // verus!
