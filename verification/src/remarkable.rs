//! The display driver for reMarkable hardware, over `libremarkable`.
//!
//! The e-ink update primitive is a slow, stateful hardware operation: a
//! submission returns a token, and a separate wait call blocks until the
//! update behind a token has finished streaming.  The core depends only on
//! that token issuance/retirement protocol plus region-based partial
//! updates; everything hardware-specific sits behind the trusted wrappers
//! below, each of which holds exactly one `libremarkable` call.

use vstd::prelude::*;
use crate::event::UpdateMode;
use crate::geom::Rectangle;
use libremarkable::framebuffer::common::color;
use libremarkable::framebuffer::common::display_temp;
use libremarkable::framebuffer::common::dither_mode;
use libremarkable::framebuffer::common::waveform_mode;
use libremarkable::framebuffer::FramebufferIO;
use libremarkable::framebuffer::FramebufferRefresh;
use libremarkable::framebuffer::PartialRefreshMode;

verus! {

#[verifier::external_type_specification]
#[verifier::external_body]
pub struct ExFramebuffer(libremarkable::framebuffer::core::Framebuffer);

/// Errors of the display path.  The hardware interface reports nothing it
/// can recover from, so in practice every call succeeds; the type keeps the
/// fallibility visible at the interface.
#[derive(Clone, Copy, Debug, PartialEq, Eq, Structural)]
pub enum FbError {
    Device,
}

pub struct RemarkableFramebuffer {
    fb: libremarkable::framebuffer::core::Framebuffer,
}

/// Whether a refresh mode submits an asynchronous partial window or a
/// full-panel pass: `Full` repaints the whole panel to eliminate ghosting,
/// every other mode refreshes exactly the requested region.
pub fn refresh_is_partial(mode: UpdateMode) -> (r: bool)
    ensures
        r == !(mode is Full),
{
    !matches!(mode, UpdateMode::Full)
}

impl RemarkableFramebuffer {
    /// Relies on `libremarkable`'s `Framebuffer::device`, which opens the
    /// framebuffer device node through the ioctl interface.  It needs the
    /// device hardware to be present; construction is part of fatal-at-
    /// startup error handling.
    #[verifier::external_body]
    pub fn new() -> (r: Result<RemarkableFramebuffer, FbError>)
        ensures
            r is Ok,
    {
        let framebuffer = libremarkable::framebuffer::core::Framebuffer::device("/dev/fb0");
        Ok(RemarkableFramebuffer { fb: framebuffer })
    }

    /// Relies on `FramebufferRefresh::partial_refresh`: submits an
    /// asynchronous partial refresh of exactly the given window, with the
    /// GC16-fast waveform, the draw temperature and passthrough dithering,
    /// and returns the hardware's update marker.  The marker value is the
    /// driver's to choose.  The driver clips the window against the panel
    /// by adding edge to extent, so those sums must not wrap.
    #[verifier::external_body]
    fn fb_partial_refresh(&mut self, top: u32, left: u32, width: u32, height: u32) -> u32
        requires
            left + width <= u32::MAX,
            top + height <= u32::MAX,
    {
        self.fb.partial_refresh(
            &libremarkable::framebuffer::common::mxcfb_rect { top, left, width, height },
            PartialRefreshMode::Async,
            waveform_mode::WAVEFORM_MODE_GC16_FAST,
            display_temp::TEMP_USE_REMARKABLE_DRAW,
            dither_mode::EPDC_FLAG_USE_DITHERING_PASSTHROUGH,
            0,
            false,
        )
    }

    /// Relies on `FramebufferRefresh::full_refresh`: submits a full-panel
    /// refresh (same waveform parameters as the partial path) and returns
    /// the hardware's update marker.
    #[verifier::external_body]
    fn fb_full_refresh(&mut self) -> u32 {
        self.fb.full_refresh(
            waveform_mode::WAVEFORM_MODE_GC16_FAST,
            display_temp::TEMP_USE_REMARKABLE_DRAW,
            dither_mode::EPDC_FLAG_USE_DITHERING_PASSTHROUGH,
            0,
            false,
        )
    }

    /// Relies on `FramebufferRefresh::wait_refresh_complete`: blocks until
    /// the update behind the marker has completed and returns the driver's
    /// collision-test word.
    #[verifier::external_body]
    fn fb_wait(&mut self, token: u32) -> u32 {
        self.fb.wait_refresh_complete(token)
    }

    /// Relies on `FramebufferIO::write_pixel`.
    #[verifier::external_body]
    fn fb_write_pixel_gray(&mut self, x: i32, y: i32, gray: u8) {
        self.fb.write_pixel(libremarkable::cgmath::Point2 { x, y }, color::GRAY(gray));
    }

    /// Relies on `FramebufferIO::write_pixel`.  Public because alpha
    /// blending, which runs in floating point, lives outside the verified
    /// library and writes its blended result back through this.
    #[verifier::external_body]
    pub fn set_pixel_rgb(&mut self, x: i32, y: i32, red: u8, green: u8, blue: u8) {
        self.fb.write_pixel(
            libremarkable::cgmath::Point2 { x, y },
            color::RGB(red, green, blue),
        );
    }

    /// Relies on `FramebufferIO::read_pixel` and `color::to_rgb8`, which
    /// only unpacks the read colour into its three channels.  Public for
    /// the unverified alpha-blending path.
    #[verifier::external_body]
    pub fn read_pixel_rgb(&self, x: u32, y: u32) -> (u8, u8, u8) {
        let rgb = self.fb.read_pixel(libremarkable::cgmath::Point2 { x, y }).to_rgb8();
        (rgb[0], rgb[1], rgb[2])
    }

    /// Relies on the `xres` field of the driver's variable screen info.
    #[verifier::external_body]
    fn fb_xres(&self) -> u32 {
        self.fb.var_screen_info.xres
    }

    /// Relies on the `yres` field of the driver's variable screen info.
    #[verifier::external_body]
    fn fb_yres(&self) -> u32 {
        self.fb.var_screen_info.yres
    }

    /// Paint one pixel.  The surface stores ink, not light: the caller's
    /// colour scale is inverted into the driver's gray scale.
    pub fn set_pixel(&mut self, x: u32, y: u32, color: u8)
        requires
            x <= i32::MAX,
            y <= i32::MAX,
    {
        let gray: u8 = 255 - color;
        self.fb_write_pixel_gray(x as i32, y as i32, gray);
    }

    /// Region inversion is not supported by this hardware path; kept as a
    /// stub of the driver surface.
    pub fn invert_region(&mut self, _rect: &Rectangle) {
    }

    /// Submit a refresh for `rect`: every mode but `Full` asks for an
    /// asynchronous partial update of exactly that window, `Full` for a
    /// whole-panel pass.  The returned token is the hardware's; the caller
    /// records it in the update ledger.
    pub fn update(&mut self, rect: &Rectangle, mode: UpdateMode) -> (r: Result<u32, FbError>)
        requires
            rect.well_formed(),
        ensures
            r is Ok,
    {
        let top: u32 = rect.min_y as u32;
        let left: u32 = rect.min_x as u32;
        let width: u32 = rect.width();
        let height: u32 = rect.height();
        let token: u32 = if refresh_is_partial(mode) {
            self.fb_partial_refresh(top, left, width, height)
        } else {
            self.fb_full_refresh()
        };
        Ok(token)
    }

    /// Block until the update behind `token` has completed.  The wait
    /// itself cannot fail; its collision-test word is passed through.
    pub fn wait(&mut self, token: u32) -> (r: Result<i32, FbError>)
        ensures
            r is Ok,
    {
        let word: u32 = self.fb_wait(token);
        Ok(#[verifier::truncate] (word as i32))
    }

    /// Persisting a panel capture is delegated to tooling on this
    /// hardware path; kept as a stub of the driver surface.
    pub fn save(&self, _path: &str) -> (r: Result<(), FbError>)
        ensures
            r is Ok,
    {
        Ok(())
    }

    /// Inversion toggling is not supported by this hardware path; kept as
    /// a stub of the driver surface.
    pub fn toggle_inverted(&mut self) {
    }

    /// Monochrome toggling is not supported by this hardware path; kept as
    /// a stub of the driver surface.
    pub fn toggle_monochrome(&mut self) {
    }

    pub fn width(&self) -> u32 {
        self.fb_xres()
    }

    pub fn height(&self) -> u32 {
        self.fb_yres()
    }
}

} // verus!
