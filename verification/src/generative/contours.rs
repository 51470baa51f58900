//! The work split of the multi-threaded contour generator.
//!
//! The image is cut into bands of whole rows, one band per thread. Each thread
//! writes its band into a buffer of its own, row by row; the image is then
//! copied back pixel by pixel from those buffers.
use vstd::prelude::*;
use vstd::arithmetic::div_mod::{
    lemma_fundamental_div_mod_converse, lemma_div_is_ordered, lemma_div_multiples_vanish,
};

verus! {

/// The number of rows of the image each thread computes.
pub fn rows_per_thread(height: usize, num_threads: usize) -> (r: usize)
    requires
        num_threads > 0,
    ensures
        r == height / num_threads,
{
    height / num_threads
}

/// The number of pixels in each thread's buffer.
pub fn pixels_per_thread(width: usize, height: usize, num_threads: usize) -> (p: usize)
    requires
        num_threads > 0,
        width * height <= usize::MAX,
    ensures
        p == (width * height) / (num_threads as int),
{
    width * height / num_threads
}

/// Where a thread writes the pixel at column `x` of the `y`-th row of its
/// band: rows are laid out one after the other.
pub fn band_index(x: usize, y: usize, width: usize) -> (i: usize)
    requires
        x < width,
        y * width + x <= usize::MAX,
    ensures
        i == y * width + x,
{
    y * width + x
}

/// Where pixel `i` of the image is copied from: the thread whose band holds
/// it, and the position in that thread's buffer.
pub fn pixel_source(i: usize, pixels_per_band: usize) -> (s: (usize, usize))
    requires
        pixels_per_band > 0,
    ensures
        s == (i / pixels_per_band, i % pixels_per_band),
{
    (i / pixels_per_band, i % pixels_per_band)
}

/// The pixel a thread writes at column `x` of row `y` of its band is the one
/// copied back to the image pixel at column `x` of image row
/// `thread * rows + y`.
pub proof fn lemma_copy_back_reads_what_was_written(
    thread: int,
    rows: int,
    y: int,
    x: int,
    width: int,
)
    requires
        thread >= 0,
        0 <= y < rows,
        0 <= x < width,
    ensures
        ((thread * rows + y) * width + x) / (rows * width) == thread,
        ((thread * rows + y) * width + x) % (rows * width) == y * width + x,
{
    assert((thread * rows + y) * width == thread * (rows * width) + y * width) by (nonlinear_arith);
    assert(y * width + x < rows * width) by (nonlinear_arith)
        requires
            0 <= y < rows,
            0 <= x < width,
    ;
    assert(0 <= y * width) by (nonlinear_arith)
        requires
            0 <= y,
            0 <= width,
    ;
    assert((rows * width) * thread == thread * (rows * width)) by (nonlinear_arith);
    lemma_fundamental_div_mod_converse(
        (thread * rows + y) * width + x,
        rows * width,
        thread,
        y * width + x,
    );
}

/// A thread's writes stay inside its buffer: its band of
/// `height / num_threads` rows fits in `width * height / num_threads` pixels.
pub proof fn lemma_band_fits_buffer(width: int, height: int, num_threads: int, y: int, x: int)
    requires
        num_threads > 0,
        width >= 0,
        height >= 0,
        0 <= y < height / num_threads,
        0 <= x < width,
    ensures
        y * width + x < (width * height) / num_threads,
{
    let rows = height / num_threads;
    assert(y * width + x < rows * width) by (nonlinear_arith)
        requires
            0 <= y < rows,
            0 <= x < width,
    ;
    // rows * num_threads <= height, so rows * width * num_threads <= width * height
    assert(rows * num_threads <= height) by (nonlinear_arith)
        requires
            rows == height / num_threads,
            num_threads > 0,
            height >= 0,
    {
        vstd::arithmetic::div_mod::lemma_fundamental_div_mod(height, num_threads);
    }
    assert((rows * width) * num_threads <= width * height) by (nonlinear_arith)
        requires
            rows * num_threads <= height,
            width >= 0,
            rows >= 0,
    ;
    lemma_div_multiples_vanish(rows * width, num_threads);
    assert((rows * width * num_threads) / num_threads == rows * width) by {
        assert(rows * width * num_threads == num_threads * (rows * width)) by (nonlinear_arith);
    }
    lemma_div_is_ordered(rows * width * num_threads, width * height, num_threads);
}

} // verus!
