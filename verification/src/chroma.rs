//! Chroma-key background removal.
//!
//! An image is a row-major RGBA8 buffer. A pixel matches the configured
//! color-key range when its R, G and B channels each lie inside one
//! inclusive interval `[lo, hi]`, the three channels compared
//! independently. Every matching pixel has its alpha set to 0 and its RGB
//! left untouched; every other pixel is byte-identical to the input.
//!
//! The match policy is deliberately fixed to this inclusive per-channel
//! range test on 8-bit channels: it is the most general of the common
//! policies (a single exact value per channel is the range `[v, v]`), and
//! parameterizing the range keeps the one open policy question — which
//! region of color space counts as background — out of the algorithm.

use vstd::prelude::*;

verus! {

/// An inclusive per-channel threshold interval, applied identically to the
/// R, G and B channels.
#[derive(Clone, Copy, Debug, PartialEq, Eq, Structural)]
pub struct ColorKeyRange {
    pub lo: u8,
    pub hi: u8,
}

/// Whether a pixel with channels `(r, g, b)` falls inside the key range:
/// all three channels independently inside `[lo, hi]`.
pub open spec fn pixel_matches(r: u8, g: u8, b: u8, range: ColorKeyRange) -> bool {
    &&& range.lo <= r <= range.hi
    &&& range.lo <= g <= range.hi
    &&& range.lo <= b <= range.hi
}

/// A raw RGBA8 image: `width * height` pixels, four bytes each, row-major.
pub struct RawImage {
    pub width: u32,
    pub height: u32,
    pub data: Vec<u8>,
}

impl RawImage {
    /// Well-formedness: exactly four bytes per pixel.
    pub open spec fn wf(self) -> bool {
        self.data.len() == 4 * self.width * self.height
    }
}

/// One byte of the keyed output: an alpha byte becomes 0 when its pixel's
/// RGB matches the range; every other byte keeps its input value.
pub open spec fn keyed_byte(data: Seq<u8>, range: ColorKeyRange, i: int) -> u8 {
    if i % 4 == 3 && pixel_matches(data[i - 3], data[i - 2], data[i - 1], range) {
        0
    } else {
        data[i]
    }
}

/// The whole keyed buffer.
pub open spec fn keyed_data(data: Seq<u8>, range: ColorKeyRange) -> Seq<u8> {
    Seq::new(data.len(), |i: int| keyed_byte(data, range, i))
}

/// Applies the chroma key: returns an image of identical dimensions whose
/// buffer is the keyed input buffer — matching pixels fully transparent
/// with RGB preserved, all other pixels unchanged.
pub fn chroma_key(img: &RawImage, range: ColorKeyRange) -> (out: RawImage)
    requires
        img.wf(),
    ensures
        out.wf(),
        out.width == img.width,
        out.height == img.height,
        out.data@ =~= keyed_data(img.data@, range),
{
    let mut data: Vec<u8> = Vec::new();
    let len = img.data.len();
    proof {
        vstd::arithmetic::div_mod::lemma_mod_multiples_basic(
            img.width as int * img.height as int,
            4,
        );
        assert(4 * (img.width as int) * (img.height as int) == (img.width as int * img.height
            as int) * 4) by (nonlinear_arith);
    }
    let mut i: usize = 0;
    while i < len
        invariant
            img.wf(),
            len == img.data.len(),
            i % 4 == 0,
            i <= len,
            len % 4 == 0,
            data@.len() == i,
            forall|j: int| 0 <= j < i ==> data@[j] == keyed_byte(img.data@, range, j),
        decreases len - i,
    {
        proof {
            assert(len - i >= 4) by (nonlinear_arith)
                requires
                    i % 4 == 0,
                    len % 4 == 0,
                    i < len,
            ;
        }
        let r = img.data[i];
        let g = img.data[i + 1];
        let b = img.data[i + 2];
        let a = img.data[i + 3];
        data.push(r);
        data.push(g);
        data.push(b);
        if range.lo <= r && r <= range.hi && range.lo <= g && g <= range.hi && range.lo <= b && b
            <= range.hi {
            data.push(0);
        } else {
            data.push(a);
        }
        proof {
            assert((i + 3) % 4 == 3 && (i as int) % 4 == 0 && (i + 1) % 4 == 1 && (i + 2) % 4
                == 2) by (nonlinear_arith)
                requires
                    i % 4 == 0,
                    i >= 0,
            ;
        }
        i += 4;
    }
    RawImage { width: img.width, height: img.height, data }
}

/// Idempotence: re-keying an already keyed buffer changes nothing, for
/// every range — including one whose interval holds 0. Keying preserves
/// every RGB byte, so the match set of the output equals that of the
/// input, and an alpha byte already 0 stays 0.
pub proof fn lemma_chroma_key_idempotent(data: Seq<u8>, range: ColorKeyRange)
    ensures
        keyed_data(keyed_data(data, range), range) =~= keyed_data(data, range),
{
    let once = keyed_data(data, range);
    assert forall|i: int| 0 <= i < once.len() implies keyed_data(once, range)[i] == once[i] by {
        if i % 4 == 3 {
            assert((i - 3) % 4 == 0 && (i - 2) % 4 == 1 && (i - 1) % 4 == 2) by (nonlinear_arith)
                requires
                    i % 4 == 3,
                    i >= 3,
            ;
            assert(once[i - 3] == data[i - 3]);
            assert(once[i - 2] == data[i - 2]);
            assert(once[i - 1] == data[i - 1]);
        }
    }
}

} // verus!
