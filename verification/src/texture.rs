//! Pixel data for the fallback ground texture.
//!
//! When no ground texture can be loaded, the world falls back to a
//! generated checkerboard.  Only the pixel bytes are computed here; wrapping
//! them into a host engine's image resource is the host's business.

use vstd::prelude::*;

verus! {

/// The four RGBA bytes of the checkerboard cell at row `i`, column `j`:
/// transparent white on even parity, translucent grey on odd.
pub open spec fn checker_pixel(i: int, j: int) -> Seq<u8> {
    if (i + j) % 2 == 0 {
        seq![255u8, 255u8, 255u8, 0u8]
    } else {
        seq![100u8, 100u8, 100u8, 100u8]
    }
}

/// The first `j` pixels of row `i`, concatenated.
pub open spec fn checker_row(i: int, j: nat) -> Seq<u8>
    decreases j,
{
    if j == 0 {
        Seq::empty()
    } else {
        checker_row(i, (j - 1) as nat) + checker_pixel(i, j - 1)
    }
}

/// The first `i` full rows of `h` pixels each, concatenated.
pub open spec fn checker_rows(i: nat, h: nat) -> Seq<u8>
    decreases i,
{
    if i == 0 {
        Seq::empty()
    } else {
        checker_rows((i - 1) as nat, h) + checker_row(i - 1, h)
    }
}

/// The complete pixel buffer of a `w` by `h` checkerboard, row-major.
pub open spec fn checker_data(w: nat, h: nat) -> Seq<u8> {
    checker_rows(w, h)
}

pub proof fn lemma_checker_row_len(i: int, j: nat)
    ensures
        checker_row(i, j).len() == 4 * j,
    decreases j,
{
    if j > 0 {
        lemma_checker_row_len(i, (j - 1) as nat);
    }
}

pub proof fn lemma_checker_rows_len(i: nat, h: nat)
    ensures
        checker_rows(i, h).len() == 4 * i * h,
    decreases i,
{
    if i > 0 {
        lemma_checker_rows_len((i - 1) as nat, h);
        lemma_checker_row_len(i - 1, h);
        assert(4 * ((i - 1) as nat) * h + 4 * h == 4 * i * h) by (nonlinear_arith)
            requires
                i >= 1,
        ;
    } else {
        assert(checker_rows(i, h).len() == 0);
        assert(4 * i * h == 0) by (nonlinear_arith)
            requires
                i == 0,
        ;
    }
}

/// Builds the RGBA pixel buffer of a `width` by `height` checkerboard.
pub fn checkerboard_rgba(width: u32, height: u32) -> (data: Vec<u8>)
    ensures
        data@ == checker_data(width as nat, height as nat),
        data@.len() == 4 * (width as int) * (height as int),
{
    let mut data: Vec<u8> = Vec::new();
    let mut ii: u32 = 0;
    while ii < width
        invariant
            ii <= width,
            data@ == checker_rows(ii as nat, height as nat),
        decreases width - ii,
    {
        let mut jj: u32 = 0;
        while jj < height
            invariant
                jj <= height,
                ii < width,
                data@ == checker_rows(ii as nat, height as nat) + checker_row(
                    ii as int,
                    jj as nat,
                ),
            decreases height - jj,
        {
            let ghost before = data@;
            if (ii as u64 + jj as u64) % 2 == 0 {
                data.push(255);
                data.push(255);
                data.push(255);
                data.push(0);
                proof {
                    assert(data@ =~= before + checker_pixel(ii as int, jj as int));
                }
            } else {
                data.push(100);
                data.push(100);
                data.push(100);
                data.push(100);
                proof {
                    assert(data@ =~= before + checker_pixel(ii as int, jj as int));
                }
            }
            proof {
                assert(data@ =~= checker_rows(ii as nat, height as nat) + checker_row(
                    ii as int,
                    (jj + 1) as nat,
                ));
            }
            jj = jj + 1;
        }
        proof {
            assert(data@ =~= checker_rows((ii + 1) as nat, height as nat));
        }
        ii = ii + 1;
    }
    proof {
        lemma_checker_rows_len(width as nat, height as nat);
    }
    data
}

} // verus!
