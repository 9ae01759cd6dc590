//! An RGB8 image held as a flat, row-major byte buffer.
use vstd::prelude::*;

verus! {

/// Byte offset of the red channel of pixel `(x, y)` in a row-major RGB8
/// buffer whose rows are `width` pixels wide.
pub open spec fn pixel_offset(width: nat, x: nat, y: nat) -> nat {
    3 * (width * y + x)
}

/// An image of `size.0 * size.1` pixels, three bytes `(r, g, b)` each.
pub struct Image {
    pub buffer: Vec<u8>,
    pub size: (u32, u32),
}

impl Image {
    /// The buffer holds exactly three bytes per pixel.
    pub open spec fn wf(&self) -> bool {
        self.buffer@.len() == 3 * (self.size.0 as nat * self.size.1 as nat)
    }

    /// Creates a black image: every byte of the buffer is zero.
    pub fn new(width: u32, height: u32) -> (r: Image)
        requires
            3 * (width as nat * height as nat) <= usize::MAX,
        ensures
            r.wf(),
            r.size == (width, height),
            forall|i: int| 0 <= i < r.buffer@.len() ==> r.buffer@[i] == 0u8,
    {
        let n: usize = 3 * ((width as usize) * (height as usize));
        Image { buffer: vec![0u8; n], size: (width, height) }
    }

    /// Writes `color` as `(r, g, b)` into pixel `position = (x, y)`; every
    /// other byte is left as it was.
    pub fn write(&mut self, position: (u32, u32), color: (u8, u8, u8))
        requires
            old(self).wf(),
            position.0 < old(self).size.0,
            position.1 < old(self).size.1,
        ensures
            final(self).wf(),
            final(self).size == old(self).size,
            ({
                let i = pixel_offset(old(self).size.0 as nat, position.0 as nat, position.1 as nat) as int;
                final(self).buffer@ == old(self).buffer@.update(i, color.0).update(i + 1, color.1).update(
                    i + 2,
                    color.2,
                )
            }),
    {
        let len = self.buffer.len();
        proof {
            let w = self.size.0 as nat;
            let h = self.size.1 as nat;
            let x = position.0 as nat;
            let y = position.1 as nat;
            assert(w * y + x < w * h) by (nonlinear_arith)
                requires
                    x < w,
                    y < h,
            ;
            assert(w * y <= w * y + x);
        }
        let index: usize = 3 * ((self.size.0 as usize) * (position.1 as usize) + position.0 as usize);
        self.buffer.set(index, color.0);
        self.buffer.set(index + 1, color.1);
        self.buffer.set(index + 2, color.2);
    }
}

} // verus!
