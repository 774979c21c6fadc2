use vstd::prelude::*;

verus! {

/// A fixed-size two-dimensional pixel buffer, stored row by row.
///
/// The pixel at column `x` and row `y` lives at position `x + y * width`.
#[derive(Clone)]
pub struct Film<T> {
    width: u32,
    height: u32,
    data: Vec<T>,
}

/// Position of pixel `(x, y)` in a row-major buffer of the given width.
pub open spec fn pixel_index(width: nat, x: nat, y: nat) -> nat {
    x + y * width
}

impl<T> Film<T> {
    pub closed spec fn spec_width(&self) -> nat {
        self.width as nat
    }

    pub closed spec fn spec_height(&self) -> nat {
        self.height as nat
    }

    /// The pixels, row by row.
    pub closed spec fn pixels(&self) -> Seq<T> {
        self.data@
    }

    /// The buffer holds exactly `width * height` pixels, and every index fits in a `u32`.
    pub open spec fn wf(&self) -> bool {
        &&& self.pixels().len() == self.spec_width() * self.spec_height()
        &&& self.spec_width() * self.spec_height() <= u32::MAX
    }

    /// The pixel at column `x`, row `y`.
    pub open spec fn pixel(&self, x: nat, y: nat) -> T {
        self.pixels()[pixel_index(self.spec_width(), x, y) as int]
    }

    pub fn width(&self) -> (r: u32)
        ensures
            r == self.spec_width(),
    {
        self.width
    }

    pub fn height(&self) -> (r: u32)
        ensures
            r == self.spec_height(),
    {
        self.height
    }

    /// Number of pixels in the buffer.
    pub fn size(&self) -> (r: usize)
        ensures
            r == self.pixels().len(),
    {
        self.data.len()
    }

    /// Position in the buffer of pixel `(x, y)`.
    fn index(&self, x: u32, y: u32) -> (r: usize)
        requires
            self.wf(),
            x < self.spec_width(),
            y < self.spec_height(),
        ensures
            r == pixel_index(self.spec_width(), x as nat, y as nat),
            r < self.pixels().len(),
    {
        proof {
            let w = self.width as int;
            let h = self.height as int;
            assert(x + y * w < w * h) by (nonlinear_arith)
                requires
                    0 <= x < w,
                    0 <= y < h,
            ;
            assert(y * w <= x + y * w) by (nonlinear_arith)
                requires
                    0 <= x,
                    0 <= y,
                    0 <= w,
            ;
        }
        (x + y * self.width) as usize
    }

    /// The pixel at column `x`, row `y`.
    pub fn at(&self, x: u32, y: u32) -> (r: &T)
        requires
            self.wf(),
            x < self.spec_width(),
            y < self.spec_height(),
        ensures
            *r == self.pixel(x as nat, y as nat),
    {
        let i = self.index(x, y);
        &self.data[i]
    }

    /// A mutable handle on the pixel at column `x`, row `y`; the other pixels and the size stay.
    pub fn at_mut(&mut self, x: u32, y: u32) -> (r: &mut T)
        requires
            old(self).wf(),
            x < old(self).spec_width(),
            y < old(self).spec_height(),
        ensures
            *r == old(self).pixel(x as nat, y as nat),
            final(self).spec_width() == old(self).spec_width(),
            final(self).spec_height() == old(self).spec_height(),
            final(self).pixels() == old(self).pixels().update(
                pixel_index(old(self).spec_width(), x as nat, y as nat) as int,
                *final(r),
            ),
    {
        let i = self.index(x, y);
        &mut self.data[i]
    }

    /// All pixels, row by row.
    pub fn to_raw(&self) -> (r: &Vec<T>)
        ensures
            r@ == self.pixels(),
    {
        &self.data
    }
}

impl<T: Copy> Film<T> {
    /// A `width` by `height` film with every pixel set to `color`.
    pub fn new_with_color(width: u32, height: u32, color: T) -> (r: Self)
        requires
            width * height <= u32::MAX,
        ensures
            r.wf(),
            r.spec_width() == width,
            r.spec_height() == height,
            r.pixels() == Seq::new((width * height) as nat, |i: int| color),
    {
        let n = width * height;
        let mut data: Vec<T> = Vec::new();
        let mut i: u32 = 0;
        while i < n
            invariant
                i <= n,
                data@ == Seq::new(i as nat, |k: int| color),
            decreases n - i,
        {
            data.push(color);
            i = i + 1;
            assert(data@ =~= Seq::new(i as nat, |k: int| color));
        }
        Film { width, height, data }
    }
}

impl<T: Copy + Default> Film<T> {
    /// A `width` by `height` film with every pixel set to the default value of `T`.
    pub fn new(width: u32, height: u32) -> (r: Self)
        requires
            width * height <= u32::MAX,
        ensures
            r.wf(),
            r.spec_width() == width,
            r.spec_height() == height,
            forall|i: int, j: int|
                0 <= i < r.pixels().len() && 0 <= j < r.pixels().len() ==> r.pixels()[i]
                    == r.pixels()[j],
    {
        Self::new_with_color(width, height, T::default())
    }
}

/// Pixels are independent: writing one pixel leaves every other pixel as it was, so passes
/// that fill disjoint sets of pixels do not interfere.
pub proof fn lemma_write_keeps_other_pixels<T>(
    f: Film<T>,
    g: Film<T>,
    x: nat,
    y: nat,
    v: T,
    x2: nat,
    y2: nat,
)
    requires
        f.wf(),
        x < f.spec_width(),
        y < f.spec_height(),
        x2 < f.spec_width(),
        y2 < f.spec_height(),
        g.spec_width() == f.spec_width(),
        g.spec_height() == f.spec_height(),
        g.pixels() == f.pixels().update(pixel_index(f.spec_width(), x, y) as int, v),
    ensures
        g.wf(),
        g.pixel(x, y) == v,
        x2 != x || y2 != y ==> g.pixel(x2, y2) == f.pixel(x2, y2),
{
    let w = f.spec_width() as int;
    let h = f.spec_height() as int;
    assert(x + y * w < w * h) by (nonlinear_arith)
        requires
            0 <= x < w,
            0 <= y < h,
    ;
    assert(x2 + y2 * w < w * h) by (nonlinear_arith)
        requires
            0 <= x2 < w,
            0 <= y2 < h,
    ;
    if x2 != x || y2 != y {
        assert(x + y * w != x2 + y2 * w) by (nonlinear_arith)
            requires
                0 <= x < w,
                0 <= x2 < w,
                0 <= y,
                0 <= y2,
                x2 != x || y2 != y,
        {
            if y == y2 {
            } else if y < y2 {
                assert(y * w + w <= y2 * w);
            } else {
                assert(y2 * w + w <= y * w);
            }
        }
    }
}

} // verus!
