//! A fixed-size 2D pixel buffer with a verified binary (PPM) serialization.

use vstd::prelude::*;

use crate::color::Color;

verus! {

/// A dense, row-major pixel buffer of `width * height` colors
/// (`index = x + y * width`), fixed at construction.
pub struct Framebuffer {
    pub width: usize,
    pub height: usize,
    pub data: Vec<Color>,
}

/// The decimal digits of `n` as ASCII bytes, most significant first.
pub open spec fn spec_decimal(n: nat) -> Seq<u8>
    decreases n,
{
    if n < 10 {
        seq![(48 + n) as u8]
    } else {
        spec_decimal(n / 10).push((48 + n % 10) as u8)
    }
}

/// The fixed serialization header: magic bytes `P6`, the two extents
/// in decimal, and the maximum channel value `255`, newline-separated.
pub open spec fn spec_ppm_header(width: nat, height: nat) -> Seq<u8> {
    seq![80u8, 54u8, 10u8] + spec_decimal(width) + seq![32u8] + spec_decimal(height)
        + seq![10u8, 50u8, 53u8, 53u8, 10u8]
}

/// The first `n` pixels as consecutive R, G, B byte triples
/// (alpha is dropped on serialization).
pub open spec fn spec_ppm_body(pixels: Seq<Color>, n: int) -> Seq<u8>
    decreases n,
{
    if n <= 0 {
        Seq::<u8>::empty()
    } else {
        spec_ppm_body(pixels, n - 1) + seq![pixels[n - 1].r, pixels[n - 1].g, pixels[n - 1].b]
    }
}

/// The whole serialized image: header, then one RGB triple per pixel
/// in row-major order.
pub open spec fn spec_ppm_bytes(fb: Framebuffer) -> Seq<u8> {
    spec_ppm_header(fb.width as nat, fb.height as nat) + spec_ppm_body(
        fb.data@,
        fb.data@.len() as int,
    )
}

/// Appends the decimal digits of `n` in ASCII, most significant first.
fn push_decimal(out: &mut Vec<u8>, n: usize)
    ensures
        final(out)@ == old(out)@ + spec_decimal(n as nat),
    decreases n,
{
    if n < 10 {
        let d: u8 = 48 + (n as u8);
        out.push(d);
        assert(out@ =~= old(out)@ + spec_decimal(n as nat));
    } else {
        push_decimal(out, n / 10);
        let d: u8 = 48 + ((n % 10) as u8);
        out.push(d);
        assert(out@ =~= old(out)@ + spec_decimal(n as nat));
    }
}

impl Framebuffer {
    /// The buffer holds exactly one color per grid cell.
    pub open spec fn wf(&self) -> bool {
        &&& self.data@.len() == self.width * self.height
        &&& self.width * self.height <= usize::MAX
    }

    /// A `width` x `height` buffer with every pixel set to the default
    /// fill color, opaque red.
    pub fn new(width: usize, height: usize) -> (fb: Framebuffer)
        requires
            width * height <= usize::MAX,
        ensures
            fb.wf(),
            fb.width == width,
            fb.height == height,
            forall|i: int|
                0 <= i < width * height ==> fb.data@[i] == (Color {
                    r: 255u8,
                    g: 0u8,
                    b: 0u8,
                    a: 255u8,
                }),
    {
        let red = Color::rgb(255, 0, 0);
        let n = width * height;
        let mut data: Vec<Color> = Vec::new();
        while data.len() < n
            invariant
                data@.len() <= n,
                red == (Color { r: 255u8, g: 0u8, b: 0u8, a: 255u8 }),
                forall|i: int|
                    0 <= i < data@.len() ==> data@[i] == (Color {
                        r: 255u8,
                        g: 0u8,
                        b: 0u8,
                        a: 255u8,
                    }),
            decreases n - data@.len(),
        {
            data.push(red);
        }
        Framebuffer { width, height, data }
    }

    /// Writes one pixel. Out-of-range coordinates are a programming
    /// error and are excluded by contract rather than wrapped.
    pub fn set(&mut self, x: usize, y: usize, color: Color)
        requires
            old(self).wf(),
            x < old(self).width,
            y < old(self).height,
        ensures
            final(self).wf(),
            final(self).width == old(self).width,
            final(self).height == old(self).height,
            final(self).data@ == old(self).data@.update(x + y * old(self).width as int, color),
    {
        proof {
            assert(x + y * self.width < self.width * self.height) by (nonlinear_arith)
                requires
                    x < self.width,
                    y < self.height,
            ;
        }
        let idx = x + y * self.width;
        self.data[idx] = color;
    }

    /// Reads one pixel; same bounds contract as `set`.
    pub fn get(&self, x: usize, y: usize) -> (c: Color)
        requires
            self.wf(),
            x < self.width,
            y < self.height,
        ensures
            c == self.data@[x + y * self.width as int],
    {
        proof {
            assert(x + y * self.width < self.width * self.height) by (nonlinear_arith)
                requires
                    x < self.width,
                    y < self.height,
            ;
        }
        let idx = x + y * self.width;
        self.data[idx]
    }

    /// The serialized image, byte for byte as `spec_ppm_bytes` lays it
    /// out; an external sink persists the returned buffer unchanged.
    pub fn ppm_bytes(&self) -> (out: Vec<u8>)
        requires
            self.wf(),
        ensures
            out@ == spec_ppm_bytes(*self),
    {
        let ghost header = spec_ppm_header(self.width as nat, self.height as nat);
        let mut out: Vec<u8> = Vec::new();
        out.push(80);
        out.push(54);
        out.push(10);
        push_decimal(&mut out, self.width);
        out.push(32);
        push_decimal(&mut out, self.height);
        out.push(10);
        out.push(50);
        out.push(53);
        out.push(53);
        out.push(10);
        assert(out@ =~= header);
        let mut i: usize = 0;
        while i < self.data.len()
            invariant
                i <= self.data@.len(),
                out@ == header + spec_ppm_body(self.data@, i as int),
            decreases self.data@.len() - i,
        {
            let c = self.data[i];
            out.push(c.r);
            out.push(c.g);
            out.push(c.b);
            assert(out@ =~= header + spec_ppm_body(self.data@, i + 1));
            i = i + 1;
        }
        out
    }
}

} // verus!
