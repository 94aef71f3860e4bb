//! The frame buffer of the 4.2" panel.

use crate::color::Color;
use crate::epd4in2::{DEFAULT_BACKGROUND_COLOR, FRAME_BYTES, HEIGHT, WIDTH};
use crate::graphics::{frame_len, plotted, set_pixel, DisplayRotation};
use vstd::prelude::*;

verus! {

/// The number of bytes in the frame of the panel.
pub const BUFFER_SIZE: usize = FRAME_BYTES as usize;

/// A frame for the 4.2" panel, with the rotation under which pixels are
/// plotted into it.
///
/// The bytes of the frame are laid out as the controller takes them,
/// whatever the rotation, so that they are uploaded as they stand.
pub struct Display4in2 {
    buffer: [u8; BUFFER_SIZE],
    rotation: DisplayRotation,
}

impl View for Display4in2 {
    type V = Seq<u8>;

    /// The bytes of the frame.
    closed spec fn view(&self) -> Seq<u8> {
        self.buffer@
    }
}

impl Display4in2 {
    /// The rotation under which pixels are plotted.
    pub closed spec fn orientation(&self) -> DisplayRotation {
        self.rotation
    }

    /// A frame holds one bit for every pixel of the panel.
    pub proof fn lemma_frame_size(&self)
        ensures
            self@.len() == frame_len(WIDTH as int, HEIGHT as int),
            self@.len() == 15000,
    {
    }

    /// Creates a frame in which every pixel has the default background
    /// color, without rotation.
    pub fn new() -> (display: Display4in2)
        ensures
            display@ == Seq::new(
                frame_len(WIDTH as int, HEIGHT as int) as nat,
                |i: int| DEFAULT_BACKGROUND_COLOR.byte(),
            ),
            display.orientation() == DisplayRotation::Rotate0,
    {
        let display = Display4in2 {
            buffer: [DEFAULT_BACKGROUND_COLOR.get_byte_value();BUFFER_SIZE],
            rotation: DisplayRotation::Rotate0,
        };
        assert(display@ =~= Seq::new(
            frame_len(WIDTH as int, HEIGHT as int) as nat,
            |i: int| DEFAULT_BACKGROUND_COLOR.byte(),
        ));
        display
    }

    /// Plots a pixel at the logical coordinate (`x`, `y`) under the
    /// rotation of the frame. A coordinate off the panel is ignored.
    pub fn set_pixel(&mut self, x: u32, y: u32, color: Color)
        ensures
            final(self)@ == plotted(
                old(self)@,
                WIDTH as int,
                HEIGHT as int,
                old(self).orientation(),
                x as int,
                y as int,
                color,
            ),
            final(self).orientation() == old(self).orientation(),
    {
        set_pixel(&mut self.buffer, WIDTH, HEIGHT, self.rotation, x, y, color);
    }

    /// Sets the rotation under which pixels are plotted from now on. The
    /// frame keeps its content.
    pub fn set_rotation(&mut self, rotation: DisplayRotation)
        ensures
            final(self).orientation() == rotation,
            final(self)@ == old(self)@,
    {
        self.rotation = rotation;
    }

    /// Returns the rotation under which pixels are plotted.
    pub fn rotation(&self) -> (rotation: DisplayRotation)
        ensures
            rotation == self.orientation(),
    {
        self.rotation
    }

    /// Returns the bytes of the frame, as the driver uploads them.
    pub fn bytes(&self) -> (bytes: &[u8])
        ensures
            bytes@ == self@,
            bytes@.len() == WIDTH / 8 * HEIGHT,
    {
        self.buffer.as_slice()
    }
}

impl Default for Display4in2 {
    fn default() -> (display: Display4in2)
        ensures
            display@ == Seq::new(
                frame_len(WIDTH as int, HEIGHT as int) as nat,
                |i: int| DEFAULT_BACKGROUND_COLOR.byte(),
            ),
            display.orientation() == DisplayRotation::Rotate0,
    {
        Display4in2::new()
    }
}

} // verus!
