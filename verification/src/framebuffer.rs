//! The framebuffer: a color buffer and a per-pixel nearest-depth buffer,
//! with the standard nearer-wins depth test.  Out-of-range writes are
//! silently skipped — never an error.
use vstd::prelude::*;

use vstd::pervasive::VecAdditionalExecFns;

verus! {

/// The depth a cleared pixel starts at: farther than any representable
/// fragment depth, so the first fragment always wins.
pub const DEPTH_FAR: i64 = 0x7fff_ffff_ffff_ffff;

/// The mathematical state of a framebuffer: flat row-major color and depth
/// grids plus the two color registers.
#[verifier::ext_equal]
pub struct FbModel {
    pub colors: Seq<u32>,
    pub depths: Seq<i64>,
    pub width: nat,
    pub height: nat,
    pub background: u32,
    pub current: u32,
}

/// The row-major index of pixel `(x, y)`.
pub open spec fn pixel_index_spec(width: nat, x: int, y: int) -> int {
    y * width + x
}

/// One depth-tested write: if `(x, y)` is inside the grid and `depth` is
/// strictly nearer than the stored depth, the pixel takes `color` and the
/// new depth; otherwise everything but the current-color register is
/// unchanged.  The register always takes `color`, as a set-then-point pair
/// would leave it.
pub open spec fn fb_write_spec(m: FbModel, x: int, y: int, depth: int, color: u32) -> FbModel {
    let i = pixel_index_spec(m.width, x, y);
    if 0 <= x < m.width && 0 <= y < m.height && depth < m.depths[i] {
        FbModel {
            colors: m.colors.update(i, color),
            depths: m.depths.update(i, depth as i64),
            width: m.width,
            height: m.height,
            background: m.background,
            current: color,
        }
    } else {
        FbModel {
            colors: m.colors,
            depths: m.depths,
            width: m.width,
            height: m.height,
            background: m.background,
            current: color,
        }
    }
}

pub struct Framebuffer {
    pub width: usize,
    pub height: usize,
    /// Packed `0xRRGGBB` colors, row-major.
    pub buffer: Vec<u32>,
    /// Nearest depth seen so far at each pixel.
    pub depths: Vec<i64>,
    pub background_color: u32,
    pub current_color: u32,
}

pub open spec fn fb_wf(fb: Framebuffer) -> bool {
    fb.buffer@.len() == fb.width * fb.height && fb.depths@.len() == fb.width * fb.height
}

impl Framebuffer {
    /// The mathematical state this buffer holds.
    pub open spec fn model(self) -> FbModel {
        FbModel {
            colors: self.buffer@,
            depths: self.depths@,
            width: self.width as nat,
            height: self.height as nat,
            background: self.background_color,
            current: self.current_color,
        }
    }

    /// A fresh buffer: every pixel black and as far as possible, black
    /// background, white draw color.
    pub fn new(width: usize, height: usize) -> (fb: Framebuffer)
        requires
            (width as int) * (height as int) <= usize::MAX as int,
        ensures
            fb_wf(fb),
            fb.width == width,
            fb.height == height,
            fb.background_color == 0,
            fb.current_color == 0xffffff,
            fb.model().colors =~= Seq::new((width * height) as nat, |i: int| 0u32),
            fb.model().depths =~= Seq::new((width * height) as nat, |i: int| DEPTH_FAR),
    {
        proof {
            assert((width as int) * (height as int) >= 0) by (nonlinear_arith);
        }
        let n: usize = width * height;
        let mut buffer: Vec<u32> = Vec::new();
        let mut depths: Vec<i64> = Vec::new();
        let mut i: usize = 0;
        while i < n
            invariant
                i <= n,
                buffer@.len() == i,
                depths@.len() == i,
                forall|j: int| 0 <= j < i ==> buffer@[j] == 0u32,
                forall|j: int| 0 <= j < i ==> depths@[j] == DEPTH_FAR,
            decreases n - i,
        {
            buffer.push(0);
            depths.push(DEPTH_FAR);
            i = i + 1;
        }
        proof {
            assert(buffer@ =~= Seq::new(n as nat, |i: int| 0u32));
            assert(depths@ =~= Seq::new(n as nat, |i: int| DEPTH_FAR));
        }
        Framebuffer {
            width,
            height,
            buffer,
            depths,
            background_color: 0,
            current_color: 0xffffff,
        }
    }

    /// Reset every pixel to the background color and every depth to the far
    /// sentinel.
    pub fn clear(&mut self)
        requires
            fb_wf(*old(self)),
        ensures
            fb_wf(*final(self)),
            final(self).width == old(self).width,
            final(self).height == old(self).height,
            final(self).background_color == old(self).background_color,
            final(self).current_color == old(self).current_color,
            final(self).buffer@ =~= Seq::new(
                old(self).model().colors.len(),
                |i: int| old(self).background_color,
            ),
            final(self).depths@ =~= Seq::new(old(self).model().depths.len(), |i: int| DEPTH_FAR),
    {
        let n: usize = self.buffer.len();
        let bg: u32 = self.background_color;
        let mut i: usize = 0;
        while i < n
            invariant
                i <= n,
                self.buffer@.len() == n,
                self.depths@.len() == n,
                self.width == old(self).width,
                self.height == old(self).height,
                self.background_color == old(self).background_color,
                self.current_color == old(self).current_color,
                bg == old(self).background_color,
                forall|j: int| 0 <= j < i ==> self.buffer@[j] == bg,
                forall|j: int| 0 <= j < i ==> self.depths@[j] == DEPTH_FAR,
            decreases n - i,
        {
            self.buffer.set(i, bg);
            self.depths.set(i, DEPTH_FAR);
            i = i + 1;
        }
    }

    pub fn set_background_color(&mut self, color: u32)
        ensures
            *final(self) == (Framebuffer { background_color: color, ..*old(self) }),
    {
        self.background_color = color;
    }

    pub fn set_current_color(&mut self, color: u32)
        ensures
            *final(self) == (Framebuffer { current_color: color, ..*old(self) }),
    {
        self.current_color = color;
    }

    /// Depth-tested write of an explicit color at `(x, y)`.
    pub fn write(&mut self, x: usize, y: usize, depth: i64, color: u32)
        requires
            fb_wf(*old(self)),
        ensures
            fb_wf(*final(self)),
            final(self).model() == fb_write_spec(
                old(self).model(),
                x as int,
                y as int,
                depth as int,
                color,
            ),
    {
        self.current_color = color;
        self.point(x, y, depth);
    }

    /// Depth-tested write of the current draw color at `(x, y)`: the pixel
    /// takes the color only if `depth` is strictly nearer than what is
    /// stored; out-of-range coordinates are a no-op.
    pub fn point(&mut self, x: usize, y: usize, depth: i64)
        requires
            fb_wf(*old(self)),
        ensures
            fb_wf(*final(self)),
            final(self).model() == fb_write_spec(
                old(self).model(),
                x as int,
                y as int,
                depth as int,
                old(self).current_color,
            ),
    {
        if x < self.width && y < self.height {
            let n: usize = self.buffer.len();
            proof {
                let wi: int = self.width as int;
                let hi: int = self.height as int;
                let xi: int = x as int;
                let yi: int = y as int;
                assert(yi * wi + xi < wi * hi) by (nonlinear_arith)
                    requires
                        0 <= xi < wi,
                        0 <= yi < hi,
                ;
                assert(yi * wi + xi < n as int);
            }
            let i: usize = y * self.width + x;
            if depth < self.depths[i] {
                let color = self.current_color;
                self.buffer.set(i, color);
                self.depths.set(i, depth);
            }
        }
    }
}

/// Depth order independence: two depth-tested writes to the same pixel with
/// strictly different depths leave the same colors and the same depths in
/// whichever order they happen — the strictly nearer fragment wins.
pub proof fn lemma_depth_order_independent(
    m: FbModel,
    x: int,
    y: int,
    d1: i64,
    c1: u32,
    d2: i64,
    c2: u32,
)
    requires
        d1 != d2,
        m.colors.len() == m.width * m.height,
        m.depths.len() == m.width * m.height,
    ensures
        fb_write_spec(fb_write_spec(m, x, y, d1 as int, c1), x, y, d2 as int, c2).colors == fb_write_spec(
            fb_write_spec(m, x, y, d2 as int, c2),
            x,
            y,
            d1 as int,
            c1,
        ).colors,
        fb_write_spec(fb_write_spec(m, x, y, d1 as int, c1), x, y, d2 as int, c2).depths == fb_write_spec(
            fb_write_spec(m, x, y, d2 as int, c2),
            x,
            y,
            d1 as int,
            c1,
        ).depths,
{
    let a = fb_write_spec(fb_write_spec(m, x, y, d1 as int, c1), x, y, d2 as int, c2);
    let b = fb_write_spec(fb_write_spec(m, x, y, d2 as int, c2), x, y, d1 as int, c1);
    if 0 <= x < m.width && 0 <= y < m.height {
        let i = pixel_index_spec(m.width, x, y);
        assert(0 <= i < m.width * m.height) by (nonlinear_arith)
            requires
                0 <= x < m.width,
                0 <= y < m.height,
                i == y * m.width + x,
        ;
        let dd = m.depths[i];
        let m1 = fb_write_spec(m, x, y, d1 as int, c1);
        let m2 = fb_write_spec(m, x, y, d2 as int, c2);
        assert(m1.depths.len() == m.depths.len() && m1.colors.len() == m.colors.len());
        assert(m2.depths.len() == m.depths.len() && m2.colors.len() == m.colors.len());
        assert(m1.width == m.width && m1.height == m.height);
        assert(m2.width == m.width && m2.height == m.height);
        assert(a == fb_write_spec(m1, x, y, d2 as int, c2));
        assert(b == fb_write_spec(m2, x, y, d1 as int, c1));
        assert(pixel_index_spec(m1.width, x, y) == i);
        assert(pixel_index_spec(m2.width, x, y) == i);
        assert(m1.depths[i] == if d1 < dd {
            d1 as i64
        } else {
            dd
        });
        assert(m2.depths[i] == if d2 < dd {
            d2 as i64
        } else {
            dd
        });
        if d1 < dd {
            assert(m1.colors == m.colors.update(i, c1));
            assert(m1.depths == m.depths.update(i, d1 as i64));
        }
        if d2 < dd {
            assert(m2.colors == m.colors.update(i, c2));
            assert(m2.depths == m.depths.update(i, d2 as i64));
        }
        if d1 < dd {
            if d2 < d1 {
                assert(a.colors == m1.colors.update(i, c2));
                assert(a.depths == m1.depths.update(i, d2 as i64));
                assert(b.colors == m2.colors);
                assert(b.depths == m2.depths);
                assert(a.colors =~= b.colors);
                assert(a.depths =~= b.depths);
            } else {
                assert(a.colors == m1.colors);
                assert(a.depths == m1.depths);
                if d2 < dd {
                    assert(b.colors == m2.colors.update(i, c1));
                    assert(b.depths == m2.depths.update(i, d1 as i64));
                } else {
                    assert(b.colors == m.colors.update(i, c1));
                    assert(b.depths == m.depths.update(i, d1 as i64));
                }
                assert(a.colors =~= b.colors);
                assert(a.depths =~= b.depths);
            }
        } else {
            if d2 < dd {
                assert(a.colors == m.colors.update(i, c2));
                assert(a.depths == m.depths.update(i, d2 as i64));
                assert(b.colors == m2.colors);
                assert(b.depths == m2.depths);
                assert(a.colors =~= b.colors);
                assert(a.depths =~= b.depths);
            } else {
                assert(a.colors == m.colors);
                assert(a.depths == m.depths);
                assert(b.colors == m.colors);
                assert(b.depths == m.depths);
                assert(a.colors =~= b.colors);
                assert(a.depths =~= b.depths);
            }
        }
    } else {
        assert(a.colors =~= b.colors);
        assert(a.depths =~= b.depths);
    }
}

} // verus!
