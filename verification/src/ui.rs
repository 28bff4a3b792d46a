use vstd::prelude::*;

verus! {

/// The gray level of a color index: 0 is white, 3 is black.
pub open spec fn rgb_of(idx: u8) -> Seq<u8> {
    if idx == 3 {
        seq![0u8, 0u8, 0u8]
    } else if idx == 2 {
        seq![85u8, 85u8, 85u8]
    } else if idx == 1 {
        seq![170u8, 170u8, 170u8]
    } else {
        seq![255u8, 255u8, 255u8]
    }
}

/// The RGB color of a 2-bit color index.
pub fn idx_to_rgb(idx: u8) -> (r: [u8; 3])
    requires
        idx < 4,
    ensures
        r@ == rgb_of(idx),
{
    let r = match idx {
        3 => [0, 0, 0],
        2 => [85, 85, 85],
        1 => [170, 170, 170],
        _ => [255, 255, 255],
    };
    assert(r@ =~= rgb_of(idx));
    r
}

/// The RGB bytes of a row-by-row run of color indexes, three bytes per pixel.
pub fn tile_rgb_data(color_indexes: &Vec<u8>) -> (r: Vec<u8>)
    requires
        forall|i: int| 0 <= i < color_indexes@.len() ==> #[trigger] color_indexes@[i] < 4,
    ensures
        r@.len() == 3 * color_indexes@.len(),
        forall|i: int, j: int|
            0 <= i < color_indexes@.len() && 0 <= j < 3 ==> #[trigger] r@[3 * i + j] == rgb_of(
                color_indexes@[i],
            )[j],
{
    let mut out: Vec<u8> = Vec::new();
    let mut i: usize = 0;
    while i < color_indexes.len()
        invariant
            i <= color_indexes@.len(),
            forall|k: int| 0 <= k < color_indexes@.len() ==> #[trigger] color_indexes@[k] < 4,
            out@.len() == 3 * i,
            forall|k: int, j: int|
                0 <= k < i && 0 <= j < 3 ==> #[trigger] out@[3 * k + j] == rgb_of(
                    color_indexes@[k],
                )[j],
        decreases color_indexes@.len() - i,
    {
        let rgb = idx_to_rgb(color_indexes[i]);
        out.push(rgb[0]);
        out.push(rgb[1]);
        out.push(rgb[2]);
        proof {
            assert forall|k: int, j: int|
                0 <= k < i + 1 && 0 <= j < 3 implies #[trigger] out@[3 * k + j] == rgb_of(
                color_indexes@[k],
            )[j] by {
                if k < i {
                } else {
                    assert(3 * k + j == 3 * i + j);
                }
            }
        }
        i = i + 1;
    }
    out
}

/// Every color index is a gray (three equal channels); index 0 is white, 3 is black, and a
/// higher index is strictly darker.
pub proof fn lemma_palette_darkens(i: u8, j: u8)
    requires
        i < j < 4,
    ensures
        rgb_of(i).len() == 3,
        rgb_of(i)[0] == rgb_of(i)[1] && rgb_of(i)[1] == rgb_of(i)[2],
        rgb_of(j)[0] < rgb_of(i)[0],
        rgb_of(0) == seq![255u8, 255u8, 255u8],
        rgb_of(3) == seq![0u8, 0u8, 0u8],
{
}

} // verus!
