use vstd::prelude::*;
use crate::encoding::{is_supported, path_of, BandDataType};
use crate::marshal::{byte_at, lemma_serialized_len, serialized, word_bytes, ByteOrder};
use crate::pixels::PixelBuffer;

verus! {

/// Why a call on a dataset failed.
#[derive(Debug)]
pub enum BridgeError {
    /// The dataset could not be opened; the raster library's diagnostic.
    Open(String),
    /// `index` names no band of a dataset with `count` bands.
    Band { index: usize, count: usize },
    /// The dataset's lock was poisoned by an earlier failed call.
    Lock(String),
    /// The raster library reported a failure; its diagnostic.
    Library(String),
}

/// Band indices are 1-based.
pub open spec fn band_exists(index: nat, count: nat) -> bool {
    1 <= index && index <= count
}

/// Checks a 1-based band index against the dataset's band count.
pub fn resolve_band(index: usize, count: usize) -> (r: Result<usize, BridgeError>)
    ensures
        r.is_ok() <==> band_exists(index as nat, count as nat),
        r.is_ok() ==> r == Ok::<usize, BridgeError>(index),
        r.is_err() ==> r == Err::<usize, BridgeError>(BridgeError::Band { index, count }),
{
    if index == 0 || index > count {
        Err(BridgeError::Band { index, count })
    } else {
        Ok(index)
    }
}

/// The bytes returned by a full-band read of a `width` x `height` band of
/// encoding `dt`, from the pixels read through that encoding's path.
pub fn band_bytes(
    dt: BandDataType,
    width: usize,
    height: usize,
    pixels: &PixelBuffer,
    order: ByteOrder,
) -> (r: Vec<u8>)
    requires
        pixels.path_spec() == path_of(dt),
        pixels.words().len() == width * height,
    ensures
        r@ == pixels.bytes_spec(order),
        r@.len() == width * height * path_of(dt).width_spec(),
        !is_supported(dt) ==> r@.len() == width * height * 8,
{
    pixels.to_bytes(order)
}

/// The bytes returned by a windowed read of `w` x `h` pixels: the raster
/// library's 8-bit samples of the window, copied verbatim, whatever the
/// band's own encoding.
pub fn window_bytes(w: usize, h: usize, samples: &Vec<u8>) -> (r: Vec<u8>)
    requires
        samples@.len() == w * h,
    ensures
        r@ == samples@,
        r@.len() == w * h * 1,
{
    let mut out: Vec<u8> = Vec::new();
    let mut i: usize = 0;
    while i < samples.len()
        invariant
            i <= samples@.len(),
            out@ == samples@.take(i as int),
        decreases samples@.len() - i,
    {
        out.push(samples[i]);
        i = i + 1;
        assert(out@ == samples@.take(i as int));
    }
    assert(samples@.take(samples@.len() as int) == samples@);
    out
}

/// Laying out 8-bit pixels copies them verbatim, in either byte order.
pub proof fn lemma_uint8_verbatim(v: Seq<u8>, order: ByteOrder)
    ensures
        serialized(v.map_values(|x: u8| x as nat), 1, order) == v,
    decreases v.len(),
{
    let words = v.map_values(|x: u8| x as nat);
    if v.len() > 0 {
        lemma_uint8_verbatim(v.drop_last(), order);
        assert(words.drop_last() == v.drop_last().map_values(|x: u8| x as nat));
        let last = v.last();
        assert(byte_at(last as nat, 0) == last) by {
            assert(crate::marshal::pow256(0) == 1);
            assert((last as nat) / 1 == last as nat);
        }
        assert(word_bytes(words.last(), 1, order) == seq![last]);
        assert(v == v.drop_last() + seq![last]);
    }
}

/// A full-band read of a `width` x `height` band yields
/// `width * height * w` bytes, `w` the element width of the band's read path.
pub proof fn lemma_band_length(pixels: PixelBuffer, width: nat, height: nat, order: ByteOrder)
    requires
        pixels.words().len() == width * height,
    ensures
        pixels.bytes_spec(order).len() == width * height * pixels.path_spec().width_spec(),
{
    lemma_serialized_len(pixels.words(), pixels.path_spec().width_spec(), order);
}

} // verus!
