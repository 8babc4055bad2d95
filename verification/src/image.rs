use vstd::prelude::*;

verus! {

/// A 2D rectangular array of generic values, in row-major order.
#[derive(Debug)]
pub struct Image<C> {
    dim: (usize, usize),
    values: Vec<C>,
}

impl<C: Copy + core::default::Default> Image<C> {
    /// Width of the image, in pixels.
    pub closed spec fn width_spec(self) -> nat {
        self.dim.0 as nat
    }

    /// Height of the image, in pixels.
    pub closed spec fn height_spec(self) -> nat {
        self.dim.1 as nat
    }

    /// The pixel values, row-major.
    pub closed spec fn pixels_spec(self) -> Seq<C> {
        self.values@
    }

    /// The pixel buffer covers the rectangle exactly.
    pub open spec fn wf(self) -> bool {
        self.pixels_spec().len() == self.width_spec() * self.height_spec()
    }

    /// An image of the given width and height, every pixel the
    /// element's default value.
    pub fn new(w: u32, h: u32) -> (r: Image<C>)
        requires
            w as int * h as int <= usize::MAX,
        ensures
            r.wf(),
            r.width_spec() == w as nat,
            r.height_spec() == h as nat,
            r.pixels_spec().len() == w as int * h as int,
            forall|k: int, l: int|
                #![trigger r.pixels_spec()[k], r.pixels_spec()[l]]
                0 <= k < r.pixels_spec().len() && 0 <= l < r.pixels_spec().len()
                    ==> r.pixels_spec()[k] == r.pixels_spec()[l],
    {
        let w = w as usize;
        let h = h as usize;
        proof {
            assert(w * h <= usize::MAX) by (nonlinear_arith)
                requires
                    w as int * h as int <= usize::MAX,
                    w >= 0,
                    h >= 0,
            ;
        }
        let n = w * h;
        let fill = C::default();
        let mut values: Vec<C> = Vec::new();
        let mut i: usize = 0;
        while i < n
            invariant
                i <= n,
                values@.len() == i,
                forall|k: int| 0 <= k < i ==> values@[k] == fill,
            decreases n - i,
        {
            values.push(fill);
            i = i + 1;
        }
        Image { dim: (w, h), values }
    }

    /// The pixel at `(x, y)`.
    pub fn at(&self, p: (i32, i32)) -> (r: C)
        requires
            self.wf(),
            0 <= p.0 < self.width_spec(),
            0 <= p.1 < self.height_spec(),
        ensures
            r == self.pixels_spec()[p.1 * self.width_spec() + p.0],
    {
        let x = p.0 as usize;
        let y = p.1 as usize;
        let n = self.values.len();
        proof {
            let w0 = (self.dim.0) as int;
            let h0 = (self.dim.1) as int;
            assert((y as int) * w0 + (x as int) < w0 * h0) by (nonlinear_arith)
                requires
                    0 <= (x as int) < w0,
                    0 <= (y as int) < h0,
            ;
            assert(w0 * h0 == n as int);
        }
        self.values[y * self.dim.0 + x]
    }

    /// Overwrite the pixel at `(x, y)`.
    pub fn set_at(&mut self, p: (i32, i32), v: C)
        requires
            old(self).wf(),
            0 <= p.0 < old(self).width_spec(),
            0 <= p.1 < old(self).height_spec(),
        ensures
            final(self).wf(),
            final(self).width_spec() == old(self).width_spec(),
            final(self).height_spec() == old(self).height_spec(),
            final(self).pixels_spec() == old(self).pixels_spec().update(
                p.1 * old(self).width_spec() + p.0,
                v,
            ),
    {
        let x = p.0 as usize;
        let y = p.1 as usize;
        let n = self.values.len();
        proof {
            let w0 = (self.dim.0) as int;
            let h0 = (self.dim.1) as int;
            assert((y as int) * w0 + (x as int) < w0 * h0) by (nonlinear_arith)
                requires
                    0 <= (x as int) < w0,
                    0 <= (y as int) < h0,
            ;
            assert(w0 * h0 == n as int);
        }
        let i = y * self.dim.0 + x;
        self.values.set(i, v);
    }

    /// Width of the image, in pixels.
    pub fn width(&self) -> (r: usize)
        ensures
            r == self.width_spec(),
    {
        self.dim.0
    }

    /// Height of the image, in pixels.
    pub fn height(&self) -> (r: usize)
        ensures
            r == self.height_spec(),
    {
        self.dim.1
    }

    /// Width and height of the image.
    pub fn dimensions(&self) -> (r: (i32, i32))
        requires
            self.width_spec() <= i32::MAX,
            self.height_spec() <= i32::MAX,
        ensures
            r.0 == self.width_spec(),
            r.1 == self.height_spec(),
    {
        (self.dim.0 as i32, self.dim.1 as i32)
    }

    /// The pixels in row-major order, iterable.
    pub fn pixels(&self) -> (r: &Vec<C>)
        ensures
            r@ == self.pixels_spec(),
    {
        &self.values
    }
}

impl<C: Copy + core::default::Default> Default for Image<C> {
    /// The empty image.
    fn default() -> (r: Self)
        ensures
            r.wf(),
            r.width_spec() == 0,
            r.height_spec() == 0,
            r.pixels_spec() == Seq::<C>::empty(),
    {
        let values: Vec<C> = Vec::new();
        let r = Image { dim: (0, 0), values };
        proof {
            assert(r.pixels_spec() =~= Seq::<C>::empty());
            assert(r.width_spec() * r.height_spec() == 0) by (nonlinear_arith)
                requires
                    r.width_spec() == 0,
            ;
        }
        r
    }
}

} // verus!
