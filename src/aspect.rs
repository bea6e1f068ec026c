//! The viewport's aspect ratio, kept as the exact ratio of the last valid
//! window size. A resize to a zero width or height would make the ratio zero
//! or undefined; such an event leaves the ratio as it was.
use vstd::prelude::*;

verus! {

/// The viewport's aspect ratio, width over height, both positive.
pub struct AspectRatio {
    width: u32,
    height: u32,
}

impl View for AspectRatio {
    /// The pair (width, height) whose quotient is the ratio.
    type V = (nat, nat);

    closed spec fn view(&self) -> (nat, nat) {
        (self.width as nat, self.height as nat)
    }
}

/// Whether the ratio held by `a` equals `p / q`.
pub open spec fn ratio_is(a: (nat, nat), p: int, q: int) -> bool {
    a.0 * q == a.1 * p
}

impl AspectRatio {
    #[verifier::type_invariant]
    spec fn inv(self) -> bool {
        self.width > 0 && self.height > 0
    }

    /// The ratio of a square viewport, 1.
    pub fn new() -> (r: AspectRatio)
        ensures
            r@ == (1nat, 1nat),
    {
        AspectRatio { width: 1, height: 1 }
    }

    /// The ratio of a `width` by `height` viewport; `None` where either is zero.
    pub fn from_size(width: u32, height: u32) -> (r: Option<AspectRatio>)
        ensures
            width > 0 && height > 0 <==> r is Some,
            r matches Some(a) ==> a@ == (width as nat, height as nat),
    {
        if width > 0 && height > 0 {
            Some(AspectRatio { width, height })
        } else {
            None
        }
    }

    /// The numerator of the ratio: the viewport's width.
    pub fn width(&self) -> (r: u32)
        ensures
            r == self@.0,
            r > 0,
    {
        proof {
            use_type_invariant(self);
        }
        self.width
    }

    /// The denominator of the ratio: the viewport's height.
    pub fn height(&self) -> (r: u32)
        ensures
            r == self@.1,
            r > 0,
    {
        proof {
            use_type_invariant(self);
        }
        self.height
    }

    /// Handles a window resize: the ratio becomes `width / height`. An event
    /// with a zero width or height is ignored and the previous ratio stays.
    pub fn on_resize(&mut self, width: u32, height: u32)
        ensures
            width > 0 && height > 0 ==> final(self)@ == (width as nat, height as nat),
            !(width > 0 && height > 0) ==> final(self)@ == old(self)@,
            final(self)@.0 > 0 && final(self)@.1 > 0,
    {
        if width > 0 && height > 0 {
            *self = AspectRatio { width, height };
        }
        proof {
            use_type_invariant(&*self);
        }
    }

    /// Whether two ratios are equal as fractions.
    pub fn same_ratio(&self, other: &AspectRatio) -> (r: bool)
        ensures
            r == ratio_is(self@, other@.0 as int, other@.1 as int),
    {
        let a: u64 = self.width as u64;
        let b: u64 = other.height as u64;
        let c: u64 = self.height as u64;
        let d: u64 = other.width as u64;
        proof {
            assert(a * b <= 0xffff_ffff * 0xffff_ffff) by (nonlinear_arith)
                requires
                    a <= 0xffff_ffff,
                    b <= 0xffff_ffff,
            ;
            assert(c * d <= 0xffff_ffff * 0xffff_ffff) by (nonlinear_arith)
                requires
                    c <= 0xffff_ffff,
                    d <= 0xffff_ffff,
            ;
        }
        a * b == c * d
    }
}

impl Default for AspectRatio {
    fn default() -> (r: AspectRatio)
        ensures
            r@ == (1nat, 1nat),
    {
        AspectRatio::new()
    }
}

} // verus!
