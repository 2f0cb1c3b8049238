use vstd::prelude::*;

verus! {

/// A drawable area in physical pixels.
#[derive(Clone, Copy, PartialEq, Eq, Structural, Debug)]
pub struct Size {
    pub width: u32,
    pub height: u32,
}

impl Size {
    /// A minimized or collapsed window reports a zero-area size; such a size
    /// must never be sent to the surface configurator.
    pub open spec fn is_zero_area(self) -> bool {
        self.width == 0 || self.height == 0
    }

    /// Both dimensions divided by the host's pixel-ratio divisor.
    pub open spec fn shrunk(self, divisor: u32) -> Size
        recommends
            divisor >= 1,
    {
        Size {
            width: ((self.width as int) / (divisor as int)) as u32,
            height: ((self.height as int) / (divisor as int)) as u32,
        }
    }

    pub fn new(width: u32, height: u32) -> (s: Size)
        ensures
            s == (Size { width, height }),
    {
        Size { width, height }
    }

    /// Executable counterpart of `shrunk`.
    pub fn shrink(self, divisor: u32) -> (s: Size)
        requires
            divisor >= 1,
        ensures
            s == self.shrunk(divisor),
    {
        Size { width: self.width / divisor, height: self.height / divisor }
    }
}

/// A display scale factor, held as an exact rational: `num / den`.
#[derive(Clone, Copy, PartialEq, Eq, Structural, Debug)]
pub struct ScaleFactor {
    pub num: u32,
    pub den: u32,
}

impl ScaleFactor {
    pub open spec fn wf(self) -> bool {
        self.den >= 1
    }

    pub fn new(num: u32, den: u32) -> (f: ScaleFactor)
        requires
            den >= 1,
        ensures
            f == (ScaleFactor { num, den }),
            f.wf(),
    {
        ScaleFactor { num, den }
    }
}

/// One dimension multiplied by the factor and truncated toward zero,
/// saturating at `u32::MAX`.
pub open spec fn scaled_len(len: u32, factor: ScaleFactor) -> u32
    recommends
        factor.wf(),
{
    let q = (len * factor.num) / (factor.den as int);
    if q > u32::MAX { u32::MAX } else { q as u32 }
}

impl Size {
    /// Both dimensions multiplied by the factor and truncated.
    pub open spec fn scaled(self, factor: ScaleFactor) -> Size
        recommends
            factor.wf(),
    {
        Size { width: scaled_len(self.width, factor), height: scaled_len(self.height, factor) }
    }
}

/// Executable counterpart of `scaled_len`.
pub fn scale_len(len: u32, factor: ScaleFactor) -> (r: u32)
    requires
        factor.wf(),
    ensures
        r == scaled_len(len, factor),
{
    proof {
        assert((len as int) * (factor.num as int) <= 0xffff_ffff * 0xffff_ffff)
            by (nonlinear_arith)
            requires
                len <= 0xffff_ffffu32,
                factor.num <= 0xffff_ffffu32,
        ;
    }
    let p: u64 = (len as u64) * (factor.num as u64);
    let q: u64 = p / (factor.den as u64);
    if q > (u32::MAX as u64) {
        u32::MAX
    } else {
        q as u32
    }
}

/// Executable counterpart of `Size::scaled`.
pub fn scale_size(size: Size, factor: ScaleFactor) -> (r: Size)
    requires
        factor.wf(),
    ensures
        r == size.scaled(factor),
{
    Size { width: scale_len(size.width, factor), height: scale_len(size.height, factor) }
}

} // verus!
