//! Pixels in a bit-packed frame.
//!
//! A frame holds one bit per pixel, row by row in the native orientation of
//! the panel, eight pixels to a byte with the leftmost pixel in the highest
//! bit. A set bit is a white pixel. The layout is what the controller takes,
//! so a frame is sent as it stands.
//!
//! A rotation changes where a logical coordinate lands in the frame, never
//! the layout of the frame.

use crate::color::Color;
use vstd::prelude::*;

verus! {

/// The rotation of the logical coordinates against the panel.
#[derive(Clone, Copy, Debug, PartialEq, Eq, Structural)]
pub enum DisplayRotation {
    /// No rotation.
    Rotate0,
    /// Rotated by 90 degrees clockwise.
    Rotate90,
    /// Rotated by 180 degrees.
    Rotate180,
    /// Rotated by 270 degrees clockwise.
    Rotate270,
}

impl Default for DisplayRotation {
    fn default() -> (rotation: DisplayRotation)
        ensures
            rotation == DisplayRotation::Rotate0,
    {
        DisplayRotation::Rotate0
    }
}

impl DisplayRotation {
    /// The rotation that undoes this one.
    pub open spec fn reversed(self) -> DisplayRotation {
        match self {
            DisplayRotation::Rotate0 => DisplayRotation::Rotate0,
            DisplayRotation::Rotate90 => DisplayRotation::Rotate270,
            DisplayRotation::Rotate180 => DisplayRotation::Rotate180,
            DisplayRotation::Rotate270 => DisplayRotation::Rotate90,
        }
    }

    /// Whether this rotation swaps width and height.
    pub open spec fn swaps_axes(self) -> bool {
        self == DisplayRotation::Rotate90 || self == DisplayRotation::Rotate270
    }

    /// Returns the rotation that undoes this one.
    pub fn inverse(self) -> (rotation: DisplayRotation)
        ensures
            rotation == self.reversed(),
    {
        match self {
            DisplayRotation::Rotate0 => DisplayRotation::Rotate0,
            DisplayRotation::Rotate90 => DisplayRotation::Rotate270,
            DisplayRotation::Rotate180 => DisplayRotation::Rotate180,
            DisplayRotation::Rotate270 => DisplayRotation::Rotate90,
        }
    }
}

/// The width of the logical coordinate space of a panel under a rotation.
pub open spec fn logical_width(width: int, height: int, rotation: DisplayRotation) -> int {
    if rotation.swaps_axes() {
        height
    } else {
        width
    }
}

/// The height of the logical coordinate space of a panel under a rotation.
pub open spec fn logical_height(width: int, height: int, rotation: DisplayRotation) -> int {
    if rotation.swaps_axes() {
        width
    } else {
        height
    }
}

/// Whether the logical coordinate (`x`, `y`) lies on a panel of `width` by
/// `height` pixels under a rotation.
pub open spec fn inside(x: int, y: int, width: int, height: int, rotation: DisplayRotation) -> bool {
    &&& 0 <= x < logical_width(width, height, rotation)
    &&& 0 <= y < logical_height(width, height, rotation)
}

/// The native coordinate on a panel of `width` by `height` pixels at which
/// the logical coordinate (`x`, `y`) lands under a rotation.
pub open spec fn rotated(x: int, y: int, width: int, height: int, rotation: DisplayRotation) -> (
    int,
    int,
) {
    match rotation {
        DisplayRotation::Rotate0 => (x, y),
        DisplayRotation::Rotate90 => (width - 1 - y, x),
        DisplayRotation::Rotate180 => (width - 1 - x, height - 1 - y),
        DisplayRotation::Rotate270 => (y, height - 1 - x),
    }
}

/// Whether a frame can be laid out for a panel of `width` by `height`
/// pixels: each row is a whole number of bytes.
pub open spec fn packs(width: int, height: int) -> bool {
    0 <= width && 0 <= height && width % 8 == 0
}

/// The number of bytes in the frame of a panel.
pub open spec fn frame_len(width: int, height: int) -> int {
    width / 8 * height
}

/// The index of the byte that holds the pixel at the native coordinate
/// (`u`, `v`) in the frame of a panel that is `width` pixels wide.
pub open spec fn byte_index(u: int, v: int, width: int) -> int {
    u / 8 + v * (width / 8)
}

/// The number of the bit that holds the pixel in column `u` within its
/// byte, counted from the lowest bit.
pub open spec fn bit_index(u: int) -> int {
    7 - u % 8
}

/// The byte in which only the bit of the pixel in column `u` is set.
pub open spec fn bit_mask(u: int) -> u8 {
    1u8 << (bit_index(u) as u8)
}

/// The color of the pixel at the native coordinate (`u`, `v`) of a frame.
pub open spec fn pixel_at(frame: Seq<u8>, width: int, u: int, v: int) -> Color {
    if frame[byte_index(u, v, width)] & bit_mask(u) != 0 {
        Color::White
    } else {
        Color::Black
    }
}

/// The frame with the pixel at the native coordinate (`u`, `v`) given a color.
pub open spec fn painted(frame: Seq<u8>, width: int, u: int, v: int, color: Color) -> Seq<u8> {
    let index = byte_index(u, v, width);
    let mask = bit_mask(u);
    frame.update(
        index,
        match color {
            Color::White => frame[index] | mask,
            Color::Black => frame[index] & !mask,
        },
    )
}

/// The frame after a pixel is plotted at the logical coordinate (`x`, `y`):
/// the pixel at the native coordinate that the rotation gives has the color,
/// and a coordinate that lies off the panel leaves the frame as it is.
pub open spec fn plotted(
    frame: Seq<u8>,
    width: int,
    height: int,
    rotation: DisplayRotation,
    x: int,
    y: int,
    color: Color,
) -> Seq<u8> {
    if inside(x, y, width, height, rotation) {
        let (u, v) = rotated(x, y, width, height, rotation);
        painted(frame, width, u, v, color)
    } else {
        frame
    }
}

/// A logical coordinate on the panel lands on a native coordinate on the
/// panel.
pub proof fn lemma_rotated_on_panel(
    x: int,
    y: int,
    width: int,
    height: int,
    rotation: DisplayRotation,
)
    requires
        inside(x, y, width, height, rotation),
    ensures
        0 <= rotated(x, y, width, height, rotation).0 < width,
        0 <= rotated(x, y, width, height, rotation).1 < height,
{
}

/// Rotating a coordinate and then rotating the result back, on the panel
/// as the rotation shows it, gives the coordinate again. This holds of
/// every coordinate, on the panel or off it.
pub proof fn lemma_rotation_round_trip(
    x: int,
    y: int,
    width: int,
    height: int,
    rotation: DisplayRotation,
)
    ensures
        ({
            let (u, v) = rotated(x, y, width, height, rotation);
            rotated(
                u,
                v,
                logical_width(width, height, rotation),
                logical_height(width, height, rotation),
                rotation.reversed(),
            )
        }) == (x, y),
        ({
            let (u, v) = rotated(
                x,
                y,
                logical_width(width, height, rotation),
                logical_height(width, height, rotation),
                rotation.reversed(),
            );
            rotated(u, v, width, height, rotation)
        }) == (x, y),
        inside(x, y, width, height, rotation) <==> inside(
            rotated(x, y, width, height, rotation).0,
            rotated(x, y, width, height, rotation).1,
            width,
            height,
            DisplayRotation::Rotate0,
        ),
{
}

/// The byte of a pixel on the panel lies in the frame.
pub proof fn lemma_byte_index_in_frame(u: int, v: int, width: int, height: int)
    requires
        packs(width, height),
        0 <= u < width,
        0 <= v < height,
    ensures
        0 <= byte_index(u, v, width) < frame_len(width, height),
{
    let stride = width / 8;
    assert(u / 8 < stride);
    assert(v * stride + stride <= height * stride) by (nonlinear_arith)
        requires
            v + 1 <= height,
            0 <= stride,
    ;
    assert(0 <= v * stride) by (nonlinear_arith)
        requires
            0 <= v,
            0 <= stride,
    ;
    assert(height * stride == stride * height) by (nonlinear_arith);
}

/// Two pixels on the panel that share a byte and a bit are the same pixel.
pub proof fn lemma_pixels_apart(u1: int, v1: int, u2: int, v2: int, width: int, height: int)
    requires
        packs(width, height),
        0 <= u1 < width,
        0 <= v1 < height,
        0 <= u2 < width,
        0 <= v2 < height,
        byte_index(u1, v1, width) == byte_index(u2, v2, width),
        bit_index(u1) == bit_index(u2),
    ensures
        u1 == u2,
        v1 == v2,
{
    let stride = width / 8;
    assert(u1 / 8 < stride && u2 / 8 < stride);
    if v1 < v2 {
        assert(v1 * stride + stride <= v2 * stride) by (nonlinear_arith)
            requires
                v1 + 1 <= v2,
                0 <= stride,
        ;
    } else if v2 < v1 {
        assert(v2 * stride + stride <= v1 * stride) by (nonlinear_arith)
            requires
                v2 + 1 <= v1,
                0 <= stride,
        ;
    }
}

/// How setting and clearing one bit of a byte shows in its bits.
proof fn lemma_bit_algebra(byte: u8, i: u8, j: u8)
    requires
        i < 8,
        j < 8,
    ensures
        (byte | (1u8 << i)) & (1u8 << i) != 0,
        (byte & !(1u8 << i)) & (1u8 << i) == 0,
        i != j ==> (byte | (1u8 << i)) & (1u8 << j) == byte & (1u8 << j),
        i != j ==> (byte & !(1u8 << i)) & (1u8 << j) == byte & (1u8 << j),
        (byte | (1u8 << i)) | (1u8 << i) == byte | (1u8 << i),
        (byte & !(1u8 << i)) | (1u8 << i) == byte | (1u8 << i),
        (byte | (1u8 << i)) & !(1u8 << i) == byte & !(1u8 << i),
        (byte & !(1u8 << i)) & !(1u8 << i) == byte & !(1u8 << i),
{
    assert((byte | (1u8 << i)) & (1u8 << i) != 0) by (bit_vector)
        requires
            i < 8,
    ;
    assert((byte & !(1u8 << i)) & (1u8 << i) == 0) by (bit_vector)
        requires
            i < 8,
    ;
    assert(i != j ==> (byte | (1u8 << i)) & (1u8 << j) == byte & (1u8 << j)) by (bit_vector)
        requires
            i < 8,
            j < 8,
    ;
    assert(i != j ==> (byte & !(1u8 << i)) & (1u8 << j) == byte & (1u8 << j)) by (bit_vector)
        requires
            i < 8,
            j < 8,
    ;
    assert((byte | (1u8 << i)) | (1u8 << i) == byte | (1u8 << i)) by (bit_vector);
    assert((byte & !(1u8 << i)) | (1u8 << i) == byte | (1u8 << i)) by (bit_vector);
    assert((byte | (1u8 << i)) & !(1u8 << i) == byte & !(1u8 << i)) by (bit_vector);
    assert((byte & !(1u8 << i)) & !(1u8 << i) == byte & !(1u8 << i)) by (bit_vector);
}

/// After a pixel is painted it has the color it was given, and every other
/// pixel of the panel has the color it had.
pub proof fn lemma_painted_pixels(
    frame: Seq<u8>,
    width: int,
    height: int,
    u: int,
    v: int,
    color: Color,
    u2: int,
    v2: int,
)
    requires
        packs(width, height),
        frame.len() == frame_len(width, height),
        0 <= u < width,
        0 <= v < height,
        0 <= u2 < width,
        0 <= v2 < height,
    ensures
        painted(frame, width, u, v, color).len() == frame.len(),
        pixel_at(painted(frame, width, u, v, color), width, u, v) == color,
        (u2, v2) != (u, v) ==> pixel_at(painted(frame, width, u, v, color), width, u2, v2)
            == pixel_at(frame, width, u2, v2),
{
    lemma_byte_index_in_frame(u, v, width, height);
    lemma_byte_index_in_frame(u2, v2, width, height);
    let index = byte_index(u, v, width);
    lemma_bit_algebra(frame[index], bit_index(u) as u8, bit_index(u2) as u8);
    if (u2, v2) != (u, v) && byte_index(u2, v2, width) == index {
        if bit_index(u2) == bit_index(u) {
            lemma_pixels_apart(u, v, u2, v2, width, height);
        }
    }
}

/// Painting a pixel that was painted before leaves the frame that painting
/// it once with the later color gives.
pub proof fn lemma_painted_twice(
    frame: Seq<u8>,
    width: int,
    height: int,
    u: int,
    v: int,
    first: Color,
    second: Color,
)
    requires
        packs(width, height),
        frame.len() == frame_len(width, height),
        0 <= u < width,
        0 <= v < height,
    ensures
        painted(painted(frame, width, u, v, first), width, u, v, second) == painted(
            frame,
            width,
            u,
            v,
            second,
        ),
{
    lemma_byte_index_in_frame(u, v, width, height);
    let index = byte_index(u, v, width);
    lemma_bit_algebra(frame[index], bit_index(u) as u8, bit_index(u) as u8);
    assert(painted(painted(frame, width, u, v, first), width, u, v, second) =~= painted(
        frame,
        width,
        u,
        v,
        second,
    ));
}

/// After a pixel is plotted at a logical coordinate on the panel, the pixel
/// at the native coordinate that the rotation gives has the plotted color.
/// Every other pixel of the panel has the color it had.
pub proof fn lemma_plotted_round_trip(
    frame: Seq<u8>,
    width: int,
    height: int,
    rotation: DisplayRotation,
    x: int,
    y: int,
    color: Color,
    u2: int,
    v2: int,
)
    requires
        packs(width, height),
        frame.len() == frame_len(width, height),
        inside(x, y, width, height, rotation),
        0 <= u2 < width,
        0 <= v2 < height,
    ensures
        plotted(frame, width, height, rotation, x, y, color).len() == frame.len(),
        (u2, v2) == rotated(x, y, width, height, rotation) ==> pixel_at(
            plotted(frame, width, height, rotation, x, y, color),
            width,
            u2,
            v2,
        ) == color,
        (u2, v2) != rotated(x, y, width, height, rotation) ==> pixel_at(
            plotted(frame, width, height, rotation, x, y, color),
            width,
            u2,
            v2,
        ) == pixel_at(frame, width, u2, v2),
{
    let (u, v) = rotated(x, y, width, height, rotation);
    lemma_rotated_on_panel(x, y, width, height, rotation);
    lemma_painted_pixels(frame, width, height, u, v, color, u2, v2);
}

/// Plotting a pixel twice at one coordinate leaves what the later plot
/// alone leaves. So plotting a color a second time changes nothing, and
/// plotting a color, then the opposite color, then the color again leaves
/// what plotting the color once leaves.
pub proof fn lemma_plotted_again(
    frame: Seq<u8>,
    width: int,
    height: int,
    rotation: DisplayRotation,
    x: int,
    y: int,
    first: Color,
    second: Color,
)
    requires
        packs(width, height),
        frame.len() == frame_len(width, height),
    ensures
        plotted(
            plotted(frame, width, height, rotation, x, y, first),
            width,
            height,
            rotation,
            x,
            y,
            second,
        ) == plotted(frame, width, height, rotation, x, y, second),
        plotted(
            plotted(frame, width, height, rotation, x, y, second),
            width,
            height,
            rotation,
            x,
            y,
            second,
        ) == plotted(frame, width, height, rotation, x, y, second),
        plotted(
            plotted(
                plotted(frame, width, height, rotation, x, y, second),
                width,
                height,
                rotation,
                x,
                y,
                second.opposite(),
            ),
            width,
            height,
            rotation,
            x,
            y,
            second,
        ) == plotted(frame, width, height, rotation, x, y, second),
{
    if inside(x, y, width, height, rotation) {
        let (u, v) = rotated(x, y, width, height, rotation);
        lemma_rotated_on_panel(x, y, width, height, rotation);
        lemma_painted_twice(frame, width, height, u, v, first, second);
        lemma_painted_twice(frame, width, height, u, v, second, second);
        lemma_byte_index_in_frame(u, v, width, height);
        let once = painted(frame, width, u, v, second);
        lemma_painted_twice(once, width, height, u, v, second.opposite(), second);
    }
}

/// Tells whether the logical coordinate (`x`, `y`) lies off a panel of
/// `width` by `height` pixels under a rotation.
pub fn outside_display(x: u32, y: u32, width: u32, height: u32, rotation: DisplayRotation) -> (off:
    bool)
    ensures
        off == !inside(x as int, y as int, width as int, height as int, rotation),
{
    match rotation {
        DisplayRotation::Rotate0 | DisplayRotation::Rotate180 => x >= width || y >= height,
        DisplayRotation::Rotate90 | DisplayRotation::Rotate270 => y >= width || x >= height,
    }
}

/// Returns the native coordinate at which the logical coordinate
/// (`x`, `y`) lands on a panel of `width` by `height` pixels under a
/// rotation. The coordinate has to lie on the panel.
pub fn find_rotation(x: u32, y: u32, width: u32, height: u32, rotation: DisplayRotation) -> (native:
    (u32, u32))
    requires
        inside(x as int, y as int, width as int, height as int, rotation),
    ensures
        (native.0 as int, native.1 as int) == rotated(
            x as int,
            y as int,
            width as int,
            height as int,
            rotation,
        ),
        native.0 < width,
        native.1 < height,
{
    match rotation {
        DisplayRotation::Rotate0 => (x, y),
        DisplayRotation::Rotate90 => (width - 1 - y, x),
        DisplayRotation::Rotate180 => (width - 1 - x, height - 1 - y),
        DisplayRotation::Rotate270 => (y, height - 1 - x),
    }
}

/// Returns the place of the pixel at the logical coordinate (`x`, `y`) in
/// the frame: the index of its byte, and the byte in which only its bit is
/// set. The coordinate has to lie on the panel.
pub fn find_position(x: u32, y: u32, width: u32, height: u32, rotation: DisplayRotation) -> (place:
    (usize, u8))
    requires
        packs(width as int, height as int),
        frame_len(width as int, height as int) <= usize::MAX,
        inside(x as int, y as int, width as int, height as int, rotation),
    ensures
        place.0 == byte_index(
            rotated(x as int, y as int, width as int, height as int, rotation).0,
            rotated(x as int, y as int, width as int, height as int, rotation).1,
            width as int,
        ),
        place.0 < frame_len(width as int, height as int),
        place.1 == bit_mask(rotated(x as int, y as int, width as int, height as int, rotation).0),
{
    let (nx, ny) = find_rotation(x, y, width, height, rotation);
    proof {
        lemma_byte_index_in_frame(nx as int, ny as int, width as int, height as int);
        assert(0 <= ny * (width / 8) <= byte_index(nx as int, ny as int, width as int))
            by (nonlinear_arith)
            requires
                0 <= ny,
                0 <= width / 8,
                0 <= nx / 8,
                byte_index(nx as int, ny as int, width as int) == nx / 8 + ny * (width / 8),
        ;
    }
    let stride = (width / 8) as usize;
    let index = (nx / 8) as usize + ny as usize * stride;
    let shift = nx % 8;
    assert(0x80u8 >> (shift as u8) == 1u8 << ((7 - shift) as u8)) by (bit_vector)
        requires
            shift < 8,
    ;
    (index, 0x80u8 >> (shift as u8))
}

/// Plots a pixel at the logical coordinate (`x`, `y`) of the frame of a
/// panel of `width` by `height` pixels. A coordinate off the panel is
/// ignored.
pub fn set_pixel(
    buffer: &mut [u8],
    width: u32,
    height: u32,
    rotation: DisplayRotation,
    x: u32,
    y: u32,
    color: Color,
)
    requires
        packs(width as int, height as int),
        old(buffer)@.len() == frame_len(width as int, height as int),
    ensures
        final(buffer)@ == plotted(
            old(buffer)@,
            width as int,
            height as int,
            rotation,
            x as int,
            y as int,
            color,
        ),
{
    if outside_display(x, y, width, height, rotation) {
        return ;
    }
    proof {
        vstd::slice::axiom_spec_len(buffer);
    }
    // the index of the byte and the bit in that byte which has to change
    let (index, bit) = find_position(x, y, width, height, rotation);
    match color {
        Color::Black => {
            buffer[index] &= !bit;
        },
        Color::White => {
            buffer[index] |= bit;
        },
    }
}

} // verus!
