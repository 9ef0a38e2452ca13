//! What the window shows of the simulation: where integers decide, they
//! decide here.

use vstd::prelude::*;

verus! {

/// The number of bytes of one pixel.
pub const BYTES_PER_PIXEL: usize = 4;

/// The value of an opaque alpha byte.
pub const OPAQUE: u8 = 0xff;

/// A frame whose pixels are all opaque: the last byte of every pixel is the
/// opaque value, and every other byte is as it was.
pub open spec fn spec_opaque_frame(frame: Seq<u8>) -> Seq<u8> {
    Seq::new(
        frame.len(),
        |i: int|
            if i % 4 == 3 {
                OPAQUE
            } else {
                frame[i]
            },
    )
}

/// Makes every pixel of a frame opaque.
pub fn make_opaque(frame: &mut Vec<u8>)
    requires
        old(frame)@.len() % 4 == 0,
    ensures
        final(frame)@ == spec_opaque_frame(old(frame)@),
{
    let mut i: usize = 0;
    while i < frame.len()
        invariant
            i % 4 == 0,
            i <= frame@.len(),
            frame@.len() == old(frame)@.len(),
            frame@.len() % 4 == 0,
            forall|k: int|
                0 <= k < frame@.len() ==> frame@[k] == (if k < i && k % 4 == 3 {
                    OPAQUE
                } else {
                    old(frame)@[k]
                }),
        decreases frame@.len() - i,
    {
        frame.set(i + 3, OPAQUE);
        i = i + BYTES_PER_PIXEL;
    }
}

/// The largest whole factor by which a frame fits into a viewport, and at
/// least one.
pub open spec fn spec_scaling_factor(
    viewport_width: u32,
    viewport_height: u32,
    frame_width: u32,
    frame_height: u32,
) -> int {
    let across = viewport_width as int / frame_width as int;
    let down = viewport_height as int / frame_height as int;
    let fit = if across <= down {
        across
    } else {
        down
    };
    if fit >= 1 {
        fit
    } else {
        1
    }
}

/// The factor by which the frame is scaled up in the viewport.
pub fn scaling_factor(
    viewport_width: u32,
    viewport_height: u32,
    frame_width: u32,
    frame_height: u32,
) -> (factor: u32)
    requires
        frame_width > 0,
        frame_height > 0,
    ensures
        factor == spec_scaling_factor(viewport_width, viewport_height, frame_width, frame_height),
        factor >= 1,
{
    let across: u32 = viewport_width / frame_width;
    let down: u32 = viewport_height / frame_height;
    let fit: u32 = if across <= down {
        across
    } else {
        down
    };
    if fit >= 1 {
        fit
    } else {
        1
    }
}

/// The side of the window: the side of the screen times the scale, and at
/// least the side of the frame.
pub fn window_side(screen_side: u32, window_scale: u32, frame_side: u32) -> (side: u32)
    requires
        screen_side * window_scale <= u32::MAX,
    ensures
        side == (if screen_side * window_scale >= frame_side {
            screen_side * window_scale
        } else {
            frame_side as int
        }),
{
    let scaled: u32 = screen_side * window_scale;
    if scaled >= frame_side {
        scaled
    } else {
        frame_side
    }
}

/// The number that the title shows for a player: players are counted from
/// one.
pub fn player_number(player_index: u8) -> (number: u8)
    requires
        player_index < u8::MAX,
    ensures
        number == player_index + 1,
{
    player_index + 1
}

/// The place of a pixel's first byte in a frame of the given size, where the
/// pixel lies in the frame.
pub open spec fn spec_pixel_offset(width: i32, height: i32, x: i32, y: i32) -> Option<int> {
    if x >= width || y >= height || x < 0 || y < 0 {
        None
    } else {
        Some((y * width + x) * 4)
    }
}

/// Paints one pixel of a frame in a shade of gray. Nothing is painted where
/// the pixel lies outside the frame.
pub fn paint_gray(frame: &mut Vec<u8>, width: i32, height: i32, x: i32, y: i32, gray: u8)
    requires
        old(frame)@.len() == width * height * 4,
        width >= 0,
        height >= 0,
    ensures
        final(frame)@ == (match spec_pixel_offset(width, height, x, y) {
            Some(offset) => old(frame)@.update(offset, gray).update(offset + 1, gray).update(
                offset + 2,
                gray,
            ).update(offset + 3, OPAQUE),
            None => old(frame)@,
        }),
{
    if x >= width || y >= height || x < 0 || y < 0 {
        return ;
    }
    assert(0 <= y * width && y * width + x < width * height) by (nonlinear_arith)
        requires
            0 <= x < width,
            0 <= y < height,
    ;
    proof {
        vstd::std_specs::vec::axiom_spec_len(frame);
    }
    let row: usize = y as usize * width as usize;
    let offset: usize = (row + x as usize) * BYTES_PER_PIXEL;
    frame.set(offset, gray);
    frame.set(offset + 1, gray);
    frame.set(offset + 2, gray);
    frame.set(offset + 3, OPAQUE);
}

} // verus!
