use vstd::prelude::*;
use crate::encoding::DecodePath;
use crate::marshal::{append_word, lemma_serialized_len, serialized, ByteOrder};

verus! {

/// The bit pattern of a signed 16-bit value, read as unsigned.
pub open spec fn bits16(v: i16) -> nat {
    if v < 0 {
        (v + 0x1_0000) as nat
    } else {
        v as nat
    }
}

/// The bit pattern of a signed 32-bit value, read as unsigned.
pub open spec fn bits32(v: i32) -> nat {
    if v < 0 {
        (v + 0x1_0000_0000) as nat
    } else {
        v as nat
    }
}

/// The typed pixels of one read, in row-major order.
///
/// Floating-point pixels are held as their IEEE-754 bit patterns.
pub enum PixelBuffer {
    UInt8(Vec<u8>),
    Int16(Vec<i16>),
    UInt16(Vec<u16>),
    Int32(Vec<i32>),
    UInt32(Vec<u32>),
    Float32Bits(Vec<u32>),
    Float64Bits(Vec<u64>),
}

impl PixelBuffer {
    /// The read path that produced pixels of this kind.
    pub open spec fn path_spec(&self) -> DecodePath {
        match self {
            PixelBuffer::UInt8(_) => DecodePath::UInt8,
            PixelBuffer::Int16(_) => DecodePath::Int16,
            PixelBuffer::UInt16(_) => DecodePath::UInt16,
            PixelBuffer::Int32(_) => DecodePath::Int32,
            PixelBuffer::UInt32(_) => DecodePath::UInt32,
            PixelBuffer::Float32Bits(_) => DecodePath::Float32,
            PixelBuffer::Float64Bits(_) => DecodePath::Float64,
        }
    }

    /// Each pixel's bit pattern as an unsigned number.
    pub open spec fn words(&self) -> Seq<nat> {
        match self {
            PixelBuffer::UInt8(v) => v@.map_values(|x: u8| x as nat),
            PixelBuffer::Int16(v) => v@.map_values(|x: i16| bits16(x)),
            PixelBuffer::UInt16(v) => v@.map_values(|x: u16| x as nat),
            PixelBuffer::Int32(v) => v@.map_values(|x: i32| bits32(x)),
            PixelBuffer::UInt32(v) => v@.map_values(|x: u32| x as nat),
            PixelBuffer::Float32Bits(v) => v@.map_values(|x: u32| x as nat),
            PixelBuffer::Float64Bits(v) => v@.map_values(|x: u64| x as nat),
        }
    }

    /// The bytes these pixels are laid out as, in order `order`.
    pub open spec fn bytes_spec(&self, order: ByteOrder) -> Seq<u8> {
        serialized(self.words(), self.path_spec().width_spec(), order)
    }

    pub fn path(&self) -> (r: DecodePath)
        ensures
            r == self.path_spec(),
    {
        match self {
            PixelBuffer::UInt8(_) => DecodePath::UInt8,
            PixelBuffer::Int16(_) => DecodePath::Int16,
            PixelBuffer::UInt16(_) => DecodePath::UInt16,
            PixelBuffer::Int32(_) => DecodePath::Int32,
            PixelBuffer::UInt32(_) => DecodePath::UInt32,
            PixelBuffer::Float32Bits(_) => DecodePath::Float32,
            PixelBuffer::Float64Bits(_) => DecodePath::Float64,
        }
    }

    /// Number of pixels.
    pub fn len(&self) -> (r: usize)
        ensures
            r == self.words().len(),
    {
        match self {
            PixelBuffer::UInt8(v) => v.len(),
            PixelBuffer::Int16(v) => v.len(),
            PixelBuffer::UInt16(v) => v.len(),
            PixelBuffer::Int32(v) => v.len(),
            PixelBuffer::UInt32(v) => v.len(),
            PixelBuffer::Float32Bits(v) => v.len(),
            PixelBuffer::Float64Bits(v) => v.len(),
        }
    }

    /// The bit pattern of pixel `i`.
    pub fn word_at(&self, i: usize) -> (r: u64)
        requires
            i < self.words().len(),
        ensures
            r as nat == self.words()[i as int],
    {
        match self {
            PixelBuffer::UInt8(v) => v[i] as u64,
            PixelBuffer::Int16(v) => {
                let x = v[i];
                if x < 0 {
                    (x as i32 + 0x1_0000) as u64
                } else {
                    x as u64
                }
            },
            PixelBuffer::UInt16(v) => v[i] as u64,
            PixelBuffer::Int32(v) => {
                let x = v[i];
                if x < 0 {
                    (x as i64 + 0x1_0000_0000) as u64
                } else {
                    x as u64
                }
            },
            PixelBuffer::UInt32(v) => v[i] as u64,
            PixelBuffer::Float32Bits(v) => v[i] as u64,
            PixelBuffer::Float64Bits(v) => v[i],
        }
    }

    /// Lays the pixels out as one flat byte sequence: each pixel as its
    /// element width's bytes in order `order`, pixels in row-major order.
    pub fn to_bytes(&self, order: ByteOrder) -> (r: Vec<u8>)
        ensures
            r@ == self.bytes_spec(order),
            r@.len() == self.words().len() * self.path_spec().width_spec(),
    {
        let width = self.path().width();
        let n = self.len();
        let ghost words = self.words();
        let mut out: Vec<u8> = Vec::new();
        let mut i: usize = 0;
        while i < n
            invariant
                i <= n,
                n == words.len(),
                words == self.words(),
                width == self.path_spec().width_spec(),
                width <= 8,
                out@ == serialized(words.take(i as int), width as nat, order),
            decreases n - i,
        {
            let w = self.word_at(i);
            append_word(&mut out, w, width, order);
            assert(words.take(i + 1).drop_last() == words.take(i as int));
            i = i + 1;
        }
        assert(words.take(n as int) == words);
        proof {
            lemma_serialized_len(words, width as nat, order);
        }
        out
    }
}

} // verus!
