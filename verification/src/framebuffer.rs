//! Packed 1-bit-per-pixel bitmap: row-major, byte-aligned rows, MSB-first.
//!
//! Pixel `(x, y)` lives in bit `7 - x % 8` of byte `y * row_bytes + x / 8`,
//! where `row_bytes = width / 8`. Bit value 1 means white/unset, 0 means
//! black/set; the polarity is fixed by the panel controller's command set.

use vstd::prelude::*;

use crate::EpdError;

verus! {

/// The bit that pixel `(x, y)` occupies in the packed byte sequence `s`
/// whose rows are `row_bytes` bytes wide.
pub open spec fn bit_of(s: Seq<u8>, row_bytes: int, x: int, y: int) -> bool {
    (s[y * row_bytes + x / 8] >> ((7 - x % 8) as u8)) & 1u8 == 1u8
}

/// An owned packed bitmap with a fixed pixel geometry.
///
/// Invariant: the width is a multiple of 8 and the byte length is exactly
/// `(width / 8) * height`, so every row packs into whole bytes.
#[derive(Debug)]
pub struct Framebuffer {
    width: u32,
    height: u32,
    bytes: Vec<u8>,
}

impl View for Framebuffer {
    type V = Seq<u8>;

    closed spec fn view(&self) -> Seq<u8> {
        self.bytes@
    }
}

impl Framebuffer {
    /// The geometry and size invariant that every `Framebuffer` satisfies.
    #[verifier::type_invariant]
    pub closed spec fn wf(self) -> bool {
        self.width % 8 == 0
            && self.bytes@.len() == (self.width as int / 8) * (self.height as int)
    }

    /// Width of the panel image in pixels.
    pub closed spec fn spec_width(self) -> u32 {
        self.width
    }

    /// Height of the panel image in pixels.
    pub closed spec fn spec_height(self) -> u32 {
        self.height
    }

    /// Bytes in one packed row.
    pub open spec fn spec_row_bytes(self) -> int {
        self.spec_width() as int / 8
    }

    /// Allocates a zero-filled buffer of the invariant-mandated size.
    ///
    /// Fails with `InvalidGeometry` exactly when `width` is not a multiple
    /// of 8; on success the buffer holds `(width / 8) * height` zero bytes.
    pub fn create(width: u32, height: u32) -> (r: Result<Framebuffer, EpdError>)
        requires
            (width as int / 8) * (height as int) <= usize::MAX,
        ensures
            width % 8 != 0 <==> r == Err::<Framebuffer, EpdError>(EpdError::InvalidGeometry),
            width % 8 == 0 ==> r is Ok && {
                let fb = r->Ok_0;
                &&& fb.spec_width() == width
                &&& fb.spec_height() == height
                &&& fb@ =~= Seq::new(((width as int / 8) * (height as int)) as nat, |i: int| 0u8)
                &&& fb@.len() == (width as int / 8) * (height as int)
            },
    {
        if width % 8 != 0 {
            return Err(EpdError::InvalidGeometry);
        }
        let row_bytes: usize = (width / 8) as usize;
        let size: usize = row_bytes * (height as usize);
        let mut bytes: Vec<u8> = Vec::new();
        let mut i: usize = 0;
        while i < size
            invariant
                i <= size,
                bytes@.len() == i,
                forall|j: int| 0 <= j < i ==> bytes@[j] == 0u8,
            decreases size - i,
        {
            bytes.push(0u8);
            i = i + 1;
        }
        Ok(Framebuffer { width, height, bytes })
    }

    /// Wraps externally supplied bytes.
    ///
    /// Fails with `InvalidGeometry` when `width` is not a multiple of 8, and
    /// with `SizeMismatch` exactly when the byte count differs from
    /// `(width / 8) * height`; otherwise it succeeds and the wrapped view is
    /// byte-identical to the input.
    pub fn from_bytes(width: u32, height: u32, bytes: Vec<u8>) -> (r: Result<Framebuffer, EpdError>)
        ensures
            width % 8 != 0 ==> r == Err::<Framebuffer, EpdError>(EpdError::InvalidGeometry),
            width % 8 == 0 && bytes@.len() != (width as int / 8) * (height as int)
                ==> r == Err::<Framebuffer, EpdError>(EpdError::SizeMismatch),
            width % 8 == 0 && bytes@.len() == (width as int / 8) * (height as int)
                ==> r is Ok && {
                    let fb = r->Ok_0;
                    &&& fb.spec_width() == width
                    &&& fb.spec_height() == height
                    &&& fb@ == bytes@
                },
    {
        if width % 8 != 0 {
            return Err(EpdError::InvalidGeometry);
        }
        let wq: u64 = (width / 8) as u64;
        let hq: u64 = height as u64;
        proof {
            assert((wq as int) * (hq as int) <= u64::MAX) by (nonlinear_arith)
                requires
                    0 <= wq as int <= 0x2000_0000,
                    0 <= hq as int <= 0xFFFF_FFFF,
            ;
        }
        let expected: u64 = wq * hq;
        if bytes.len() as u64 != expected {
            return Err(EpdError::SizeMismatch);
        }
        Ok(Framebuffer { width, height, bytes })
    }

    /// The exact packed representation, ready for transfer; no copy is made.
    pub fn as_bytes(&self) -> (r: &[u8])
        ensures
            r@ == self@,
            r@.len() == self.spec_row_bytes() * (self.spec_height() as int),
            self.spec_width() % 8 == 0,
    {
        proof {
            use_type_invariant(self);
        }
        self.bytes.as_slice()
    }

    /// Width of the panel image in pixels.
    pub fn width(&self) -> (r: u32)
        ensures
            r == self.spec_width(),
    {
        self.width
    }

    /// Height of the panel image in pixels.
    pub fn height(&self) -> (r: u32)
        ensures
            r == self.spec_height(),
    {
        self.height
    }

    /// Reads the bit backing pixel `(x, y)`: bit `7 - x % 8` of byte
    /// `y * row_bytes + x / 8` of the packed representation.
    pub fn pixel(&self, x: u32, y: u32) -> (r: bool)
        requires
            x < self.spec_width(),
            y < self.spec_height(),
        ensures
            r == bit_of(self@, self.spec_row_bytes(), x as int, y as int),
    {
        proof {
            use_type_invariant(self);
        }
        let row_bytes: usize = (self.width / 8) as usize;
        proof {
            assert(self@.len() <= usize::MAX) by {
                assert(self.bytes@.len() == self.bytes.len());
            }
            assert(0 <= (x as int) / 8 < row_bytes as int
                && 0 <= (y as int) * (row_bytes as int) + (x as int) / 8 < self@.len())
                by (nonlinear_arith)
                requires
                    row_bytes as int == self.spec_width() as int / 8,
                    self.spec_width() % 8 == 0,
                    0 <= (x as int) < (self.spec_width() as int),
                    0 <= (y as int) < (self.spec_height() as int),
                    self@.len() == (self.spec_width() as int / 8) * (self.spec_height() as int),
            ;
        }
        let idx: usize = (y as usize) * row_bytes + (x / 8) as usize;
        let shift: u32 = 7 - (x % 8);
        (self.bytes[idx] >> (shift as u8)) & 1u8 == 1u8
    }
}

} // verus!
