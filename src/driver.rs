//! The framebuffer of the chain and its translation into row frames.
use vstd::prelude::*;

verus! {

/// A pixel assignment handed to the drawing surface.
pub struct Pixel {
    pub x: i32,
    pub y: i32,
    pub on: bool,
}

/// An error of an operation that talks to the chain.
#[derive(Debug)]
pub enum Error<E> {
    /// The transport failed to send bytes.
    Comm(E),
    /// A control line could not be set; it cannot occur.
    Pin(core::convert::Infallible),
}

/// `n` cells, all off.
pub open spec fn zeros(n: nat) -> Seq<u8> {
    Seq::new(n, |i: int| 0u8)
}

/// Whether (x, y) lies on the surface of a chain of `count` modules.
pub open spec fn in_bounds(x: int, y: int, count: int) -> bool {
    0 <= x < 8 * count && 0 <= y < 8
}

/// Framebuffer index of pixel (x, y).
pub open spec fn cell_index(x: int, y: int, count: int) -> int {
    x + y * (8 * count)
}

/// The cells after writing one pixel; a pixel off the surface changes nothing.
pub open spec fn write_cell(cells: Seq<u8>, x: int, y: int, on: bool, count: int) -> Seq<u8> {
    if in_bounds(x, y, count) {
        cells.update(cell_index(x, y, count), if on { 1u8 } else { 0u8 })
    } else {
        cells
    }
}

/// The cells after writing the pixels in order.
pub open spec fn apply_pixels(cells: Seq<u8>, ps: Seq<Pixel>, count: int) -> Seq<u8>
    decreases ps.len(),
{
    if ps.len() == 0 {
        cells
    } else {
        let p = ps.last();
        write_cell(apply_pixels(cells, ps.drop_last(), count), p.x as int, p.y as int, p.on, count)
    }
}

/// Eight cells as one byte, the first cell in the most significant bit.
pub open spec fn pack8(c: Seq<u8>) -> int {
    128 * c[0] + 64 * c[1] + 32 * c[2] + 16 * c[3] + 8 * c[4] + 4 * c[5] + 2 * c[6] + c[7]
}

/// First cell of the columns of `module` in `row`.
pub open spec fn module_base(module: int, row: int, count: int) -> int {
    module * 8 + row * (count * 8)
}

/// The columns of `module` in `row`, packed.
pub open spec fn module_row_byte(cells: Seq<u8>, module: int, row: int, count: int) -> int {
    pack8(cells.subrange(module_base(module, row, count), module_base(module, row, count) + 8))
}

/// The frame that updates `row` on every chip: each slot is the row register
/// (`row + 1`) and a data byte, the slots in chain order, which is the reverse
/// of the modules' left-to-right order.
pub open spec fn row_frame_spec(cells: Seq<u8>, row: int, count: int) -> Seq<u8> {
    Seq::new(
        (2 * count) as nat,
        |k: int|
            if k % 2 == 0 {
                (row + 1) as u8
            } else {
                module_row_byte(cells, count - 1 - k / 2, row, count) as u8
            },
    )
}

/// The eight frames of a flush, row 0 first.
pub open spec fn flush_frames_spec(cells: Seq<u8>, count: int) -> Seq<Seq<u8>> {
    Seq::new(8, |row: int| row_frame_spec(cells, row, count))
}

/// A chain of `COUNT` modules with a framebuffer of `BUFLEN` cells, one per
/// pixel, and the transport it is reached through.
pub struct MAX7219LedMat<SPI, const BUFLEN: usize, const COUNT: usize> {
    pub spi: SPI,
    framebuffer: Vec<u8>,
}

impl<SPI, const BUFLEN: usize, const COUNT: usize> MAX7219LedMat<SPI, BUFLEN, COUNT> {
    /// The framebuffer, cell `x + y * 8 * COUNT` for pixel (x, y).
    pub closed spec fn cells(&self) -> Seq<u8> {
        self.framebuffer@
    }

    /// The transport handle.
    pub closed spec fn transport(&self) -> SPI {
        self.spi
    }

    /// Eight rows of `8 * COUNT` cells, each 0 or 1.
    pub open spec fn wf(&self) -> bool {
        &&& COUNT >= 1
        &&& BUFLEN as int == 64 * COUNT as int
        &&& self.cells().len() == BUFLEN
        &&& forall|k: int| 0 <= k < self.cells().len() ==> #[trigger] self.cells()[k] <= 1
    }

    /// Whether pixel (x, y) is on.
    pub open spec fn pixel_on(&self, x: int, y: int) -> bool {
        self.cells()[cell_index(x, y, COUNT as int)] == 1
    }

    /// A driver over `spi` with every pixel off. Sends nothing.
    pub fn new(spi: SPI) -> (r: Self)
        requires
            COUNT >= 1,
            BUFLEN as int == 64 * COUNT as int,
        ensures
            r.wf(),
            r.cells() == zeros(BUFLEN as nat),
            r.transport() == spi,
    {
        let mut framebuffer: Vec<u8> = Vec::new();
        let mut i: usize = 0;
        while i < BUFLEN
            invariant
                i <= BUFLEN,
                framebuffer@ == zeros(i as nat),
            decreases BUFLEN - i,
        {
            framebuffer.push(0);
            i = i + 1;
            assert(framebuffer@ =~= zeros(i as nat));
        }
        MAX7219LedMat { spi, framebuffer }
    }

    /// Turns every pixel off. Sends nothing.
    pub fn clear(&mut self)
        requires
            old(self).wf(),
        ensures
            final(self).wf(),
            final(self).cells() == zeros(BUFLEN as nat),
            final(self).transport() == old(self).transport(),
            forall|x: int, y: int| in_bounds(x, y, COUNT as int) ==> !final(self).pixel_on(x, y),
    {
        let mut i: usize = 0;
        while i < BUFLEN
            invariant
                COUNT >= 1,
                BUFLEN as int == 64 * COUNT as int,
                i <= BUFLEN,
                self.cells().len() == BUFLEN,
                self.spi == old(self).spi,
                forall|k: int| 0 <= k < i ==> #[trigger] self.cells()[k] == 0,
            decreases BUFLEN - i,
        {
            self.framebuffer.set(i, 0);
            i = i + 1;
        }
        assert(self.cells() =~= zeros(BUFLEN as nat));
        assert forall|x: int, y: int| in_bounds(x, y, COUNT as int) implies !self.pixel_on(x, y) by {
            assert(0 <= cell_index(x, y, COUNT as int) < BUFLEN) by (nonlinear_arith)
                requires
                    0 <= x < 8 * COUNT,
                    0 <= y < 8,
                    BUFLEN as int == 64 * COUNT as int,
            ;
        }
    }
    /// Writes pixel (x, y); a pixel off the surface is ignored.
    pub fn set_pixel(&mut self, x: i32, y: i32, on: bool)
        requires
            old(self).wf(),
        ensures
            final(self).wf(),
            final(self).cells() == write_cell(old(self).cells(), x as int, y as int, on, COUNT as int),
            final(self).transport() == old(self).transport(),
    {
        if x >= 0 && y >= 0 && (x as usize) < 8 * COUNT && y < 8 {
            proof {
                assert(0 <= cell_index(x as int, y as int, COUNT as int) < BUFLEN) by (nonlinear_arith)
                    requires
                        0 <= x < 8 * COUNT,
                        0 <= y < 8,
                        BUFLEN as int == 64 * COUNT as int,
                ;
            }
            let index: usize = x as usize + y as usize * (8 * COUNT);
            self.framebuffer.set(index, if on { 1 } else { 0 });
        }
    }

    /// Whether pixel (x, y) is on; `None` off the surface.
    pub fn get_pixel(&self, x: i32, y: i32) -> (r: Option<bool>)
        requires
            self.wf(),
        ensures
            r == (if in_bounds(x as int, y as int, COUNT as int) {
                Some(self.pixel_on(x as int, y as int))
            } else {
                None::<bool>
            }),
    {
        if x >= 0 && y >= 0 && (x as usize) < 8 * COUNT && y < 8 {
            proof {
                assert(0 <= cell_index(x as int, y as int, COUNT as int) < BUFLEN) by (nonlinear_arith)
                    requires
                        0 <= x < 8 * COUNT,
                        0 <= y < 8,
                        BUFLEN as int == 64 * COUNT as int,
                ;
            }
            let index: usize = x as usize + y as usize * (8 * COUNT);
            Some(self.framebuffer[index] == 1)
        } else {
            None
        }
    }

    /// Writes the pixels in order, ignoring those off the surface.
    pub fn draw_iter(&mut self, pixels: &[Pixel])
        requires
            old(self).wf(),
        ensures
            final(self).wf(),
            final(self).cells() == apply_pixels(old(self).cells(), pixels@, COUNT as int),
            final(self).transport() == old(self).transport(),
    {
        let mut i: usize = 0;
        while i < pixels.len()
            invariant
                i <= pixels@.len(),
                self.wf(),
                self.cells() == apply_pixels(old(self).cells(), pixels@.take(i as int), COUNT as int),
                self.transport() == old(self).transport(),
            decreases pixels@.len() - i,
        {
            let p = &pixels[i];
            self.set_pixel(p.x, p.y, p.on);
            proof {
                let ps = pixels@.take(i + 1);
                assert(ps.drop_last() =~= pixels@.take(i as int));
            }
            i = i + 1;
        }
        assert(pixels@.take(pixels@.len() as int) =~= pixels@);
    }

    /// Width and height of the surface in pixels.
    pub fn size(&self) -> (r: (u32, u32))
        requires
            8 * COUNT <= u32::MAX,
        ensures
            r == ((8 * COUNT) as u32, 8u32),
    {
        ((COUNT * 8) as u32, 8)
    }

    /// The columns of `module` in `row`, packed with the leftmost column in
    /// the most significant bit.
    pub fn module_byte(&self, module: usize, row: usize) -> (r: u8)
        requires
            self.wf(),
            module < COUNT,
            row < 8,
        ensures
            r as int == module_row_byte(self.cells(), module as int, row as int, COUNT as int),
    {
        proof {
            assert(0 <= module_base(module as int, row as int, COUNT as int)
                && module_base(module as int, row as int, COUNT as int) + 8 <= BUFLEN) by (nonlinear_arith)
                requires
                    module < COUNT,
                    row < 8,
                    BUFLEN as int == 64 * COUNT as int,
            ;
        }
        let base: usize = module * 8 + row * (COUNT * 8);
        let c = &self.framebuffer;
        let b: u8 = 128 * c[base] + 64 * c[base + 1] + 32 * c[base + 2] + 16 * c[base + 3]
            + 8 * c[base + 4] + 4 * c[base + 5] + 2 * c[base + 6] + c[base + 7];
        b
    }

    /// The frame that updates `row` on every chip of the chain.
    pub fn row_frame(&self, row: usize) -> (r: Vec<u8>)
        requires
            self.wf(),
            row < 8,
        ensures
            r@ == row_frame_spec(self.cells(), row as int, COUNT as int),
    {
        let mut r: Vec<u8> = Vec::new();
        let mut i: usize = 0;
        while i < COUNT
            invariant
                self.wf(),
                row < 8,
                i <= COUNT,
                r@.len() == 2 * i,
                forall|k: int| 0 <= k < 2 * i ==> #[trigger] r@[k] == row_frame_spec(self.cells(), row as int, COUNT as int)[k],
            decreases COUNT - i,
        {
            let b = self.module_byte(COUNT - 1 - i, row);
            r.push(row as u8 + 1);
            r.push(b);
            proof {
                assert((2 * i) / 2 == i && (2 * i + 1) / 2 == i && (2 * i) % 2 == 0 && (2 * i + 1) % 2 == 1) by (nonlinear_arith);
            }
            i = i + 1;
        }
        assert(r@ =~= row_frame_spec(self.cells(), row as int, COUNT as int));
        r
    }

    /// The eight frames that a flush sends, row 0 first: the whole framebuffer,
    /// whatever changed since the last flush. What the chips show is defined
    /// only once the start-up commands were sent.
    pub fn flush_frames(&self) -> (r: Vec<Vec<u8>>)
        requires
            self.wf(),
        ensures
            r@.len() == 8,
            forall|row: int| 0 <= row < 8 ==> (#[trigger] r@[row])@ == flush_frames_spec(self.cells(), COUNT as int)[row],
    {
        let mut r: Vec<Vec<u8>> = Vec::new();
        let mut row: usize = 0;
        while row < 8
            invariant
                self.wf(),
                row <= 8,
                r@.len() == row,
                forall|k: int| 0 <= k < row ==> (#[trigger] r@[k])@ == flush_frames_spec(self.cells(), COUNT as int)[k],
            decreases 8 - row,
        {
            r.push(self.row_frame(row));
            row = row + 1;
        }
        r
    }
}

} // verus!
