use vstd::prelude::*;

verus! {

pub const WIDTH: usize = 256;
pub const HEIGHT: usize = 240;

/// An RGB picture of 256 x 240 pixels, three bytes per pixel, row by row.
pub struct Frame {
    pub data: Vec<u8>,
}

/// Where the three bytes of pixel (x, y) start.
pub open spec fn pixel_index(x: int, y: int) -> int {
    y * 3 * 256 + x * 3
}

/// The bytes of the frame after pixel (x, y) is painted, when the pixel lies
/// within the buffer.
pub open spec fn painted(data: Seq<u8>, x: int, y: int, rgb: (u8, u8, u8)) -> Seq<u8> {
    let i = pixel_index(x, y);
    if i + 2 < data.len() {
        data.update(i, rgb.0).update(i + 1, rgb.1).update(i + 2, rgb.2)
    } else {
        data
    }
}

/// The colour of pixel (x, y), black outside the buffer.
pub open spec fn pixel_at(data: Seq<u8>, x: int, y: int) -> (u8, u8, u8) {
    let i = pixel_index(x, y);
    if i + 2 < data.len() {
        (data[i], data[i + 1], data[i + 2])
    } else {
        (0, 0, 0)
    }
}

/// The largest coordinates for which the byte index of a pixel fits in a
/// `usize`.
pub open spec fn coords_fit(x: usize, y: usize) -> bool {
    y * 3 * 256 + x * 3 + 2 <= usize::MAX
}

impl Frame {
    /// A black frame.
    pub fn new() -> (f: Frame)
        ensures
            f.data.len() == 256 * 240 * 3,
            forall|i: int| 0 <= i < f.data.len() ==> f.data@[i] == 0,
    {
        Frame { data: vec![0u8; 256 * 240 * 3] }
    }

    /// Paints one pixel; a pixel outside the buffer is ignored.
    pub fn set_pixel(&mut self, x: usize, y: usize, rgb: (u8, u8, u8))
        requires
            coords_fit(x, y),
        ensures
            final(self).data@ == painted(old(self).data@, x as int, y as int, rgb),
    {
        let index = y * 3 * 256 + x * 3;
        if index + 2 < self.data.len() {
            self.data.set(index + 0, rgb.0);
            self.data.set(index + 1, rgb.1);
            self.data.set(index + 2, rgb.2);
        }
    }

    /// The colour of one pixel; black outside the buffer.
    pub fn get_pixel(&mut self, x: usize, y: usize) -> (r: (u8, u8, u8))
        requires
            coords_fit(x, y),
        ensures
            r == pixel_at(old(self).data@, x as int, y as int),
            final(self).data@ == old(self).data@,
    {
        let index = y * 3 * 256 + x * 3;
        if index + 2 < self.data.len() {
            return (self.data[index + 0], self.data[index + 1], self.data[index + 2]);
        }
        return (0, 0, 0);
    }
}

/// Whether pixel (x, y) lies within a buffer of `len` bytes.
pub open spec fn in_buffer(len: int, x: int, y: int) -> bool {
    pixel_index(x, y) + 2 < len
}

/// Painting a pixel and reading it back gives the colour painted, wherever
/// the pixel lies within the buffer; every other pixel keeps its colour, and
/// the buffer keeps its length.
pub proof fn lemma_set_then_get(data: Seq<u8>, x: int, y: int, rgb: (u8, u8, u8), x2: int, y2: int)
    requires
        0 <= x < 256,
        0 <= y,
        0 <= x2 < 256,
        0 <= y2,
    ensures
        in_buffer(data.len() as int, x, y) ==> pixel_at(painted(data, x, y, rgb), x, y) == rgb,
        (x2 != x || y2 != y) ==> pixel_at(painted(data, x, y, rgb), x2, y2) == pixel_at(data, x2, y2),
        painted(data, x, y, rgb).len() == data.len(),
{
}

/// Painting an on-screen pixel leaves every byte past the 256 x 240 picture
/// as it was.
pub proof fn lemma_paint_keeps_tail(data: Seq<u8>, x: int, y: int, rgb: (u8, u8, u8))
    requires
        0 <= x < 256,
        0 <= y < 240,
    ensures
        forall|i: int| 256 * 240 * 3 <= i < data.len() ==> #[trigger] painted(data, x, y, rgb)[i] == data[i],
{
}

} // verus!
