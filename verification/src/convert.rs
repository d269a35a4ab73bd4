//! Conversion of packed four-byte pixels into RGB triplets.

use crate::video::PixelFormat;
use vstd::arithmetic::div_mod::lemma_fundamental_div_mod_converse;
use vstd::prelude::*;

verus! {

/// Why a frame could not be converted.
#[derive(Clone, Copy, Debug, PartialEq, Eq, Structural)]
pub enum ConvertError {
    /// The pixel layout is not one of the packed four-byte layouts.
    UnsupportedFormat,
}

/// Number of complete four-byte pixels in `data`.
pub open spec fn whole_pixels(data: Seq<u8>) -> nat {
    data.len() / 4
}

/// Byte `j` of the RGB rendering of `data`.
///
/// Byte `j` belongs to pixel `j / 3` and is its channel `j % 3` (red, green,
/// blue). Red-first layouts keep the first three bytes of the pixel; the
/// others hold blue first, so the first and third byte change places.
pub open spec fn rgb_byte(data: Seq<u8>, format: PixelFormat, j: int) -> u8 {
    let pixel = j / 3;
    let channel = j % 3;
    if format.red_first() {
        data[4 * pixel + channel]
    } else {
        data[4 * pixel + 2 - channel]
    }
}

/// The RGB rendering of `data`: three bytes for every complete pixel. A
/// trailing group of fewer than four bytes is left out.
pub open spec fn rgb_of(data: Seq<u8>, format: PixelFormat) -> Seq<u8> {
    Seq::new(3 * whole_pixels(data), |j: int| rgb_byte(data, format, j))
}

/// `rgb` with a fourth byte `fill` after every triplet, blue first.
pub open spec fn pad_to_bgrx(rgb: Seq<u8>, fill: u8) -> Seq<u8> {
    Seq::new(
        (4 * (rgb.len() / 3)) as nat,
        |k: int|
            if k % 4 == 3 {
                fill
            } else {
                rgb[3 * (k / 4) + 2 - k % 4]
            },
    )
}

/// The RGB triplets of a frame in a packed layout.
#[verifier::rlimit(40)]
pub(crate) fn triplets(data: &[u8], format: PixelFormat) -> (out: Vec<u8>)
    requires
        format.is_packed(),
    ensures
        out@ == rgb_of(data@, format),
{
    let swap = match format {
        PixelFormat::Rgbx8888 | PixelFormat::Rgba8888 => false,
        _ => true,
    };
    let pixels: usize = data.len() / 4;
    let mut out: Vec<u8> = Vec::new();
    let mut i: usize = 0;
    while i < pixels
        invariant
            i <= pixels,
            pixels == data@.len() / 4,
            4 * pixels <= data@.len() <= usize::MAX,
            swap == !format.red_first(),
            out@.len() == 3 * i,
            forall|j: int| 0 <= j < 3 * i ==> out@[j] == rgb_byte(data@, format, j),
        decreases pixels - i,
    {
        let base: usize = 4 * i;
        let ghost before = out@;
        if swap {
            out.push(data[base + 2]);
            out.push(data[base + 1]);
            out.push(data[base]);
        } else {
            out.push(data[base]);
            out.push(data[base + 1]);
            out.push(data[base + 2]);
        }
        proof {
            assert forall|j: int| 0 <= j < 3 * (i + 1) implies out@[j] == rgb_byte(
                data@,
                format,
                j,
            ) by {
                if j < 3 * i {
                    assert(out@[j] == before[j]);
                } else {
                    assert(j / 3 == i as int);
                }
            }
        }
        i += 1;
    }
    assert(out@ =~= rgb_of(data@, format));
    out
}

/// Converts a frame of packed four-byte pixels to RGB triplets.
///
/// Fails exactly when `format` is not a packed layout. Otherwise pixel `i` of
/// the result is bytes 0, 1, 2 of pixel `i` of `data` for the red-first
/// layouts, and bytes 2, 1, 0 for the blue-first ones. Bytes after the last
/// complete pixel are ignored.
pub fn convert_to_rgb(data: &[u8], format: PixelFormat) -> (r: Result<Vec<u8>, ConvertError>)
    ensures
        r is Ok <==> format.is_packed(),
        r matches Err(e) ==> e == ConvertError::UnsupportedFormat,
        r matches Ok(out) ==> {
            &&& out@ == rgb_of(data@, format)
            &&& out@.len() == 3 * (data@.len() / 4)
            &&& forall|i: int|
                #![trigger out@[3 * i]]
                0 <= i < data@.len() / 4 ==> {
                    if format.red_first() {
                        &&& out@[3 * i] == data@[4 * i]
                        &&& out@[3 * i + 1] == data@[4 * i + 1]
                        &&& out@[3 * i + 2] == data@[4 * i + 2]
                    } else {
                        &&& out@[3 * i] == data@[4 * i + 2]
                        &&& out@[3 * i + 1] == data@[4 * i + 1]
                        &&& out@[3 * i + 2] == data@[4 * i]
                    }
                }
        },
{
    if !format.packed() {
        return Err(ConvertError::UnsupportedFormat);
    }
    let out = triplets(data, format);
    proof {
        rgb_triplets(data@, format);
    }
    Ok(out)
}

/// Pixel `i` of the RGB rendering, channel by channel: the first three bytes
/// of pixel `i` of the input for a red-first layout, and the same bytes in
/// reverse order otherwise. The rendering has three bytes for each complete
/// input pixel.
#[verifier::rlimit(40)]
pub proof fn rgb_triplets(data: Seq<u8>, format: PixelFormat)
    ensures
        rgb_of(data, format).len() == 3 * (data.len() / 4),
        forall|i: int|
            #![trigger rgb_of(data, format)[3 * i]]
            0 <= i < data.len() / 4 ==> {
                if format.red_first() {
                    &&& rgb_of(data, format)[3 * i] == data[4 * i]
                    &&& rgb_of(data, format)[3 * i + 1] == data[4 * i + 1]
                    &&& rgb_of(data, format)[3 * i + 2] == data[4 * i + 2]
                } else {
                    &&& rgb_of(data, format)[3 * i] == data[4 * i + 2]
                    &&& rgb_of(data, format)[3 * i + 1] == data[4 * i + 1]
                    &&& rgb_of(data, format)[3 * i + 2] == data[4 * i]
                }
            },
{
    assert forall|i: int| 0 <= i < data.len() / 4 implies {
        if format.red_first() {
            &&& #[trigger] rgb_of(data, format)[3 * i] == data[4 * i]
            &&& rgb_of(data, format)[3 * i + 1] == data[4 * i + 1]
            &&& rgb_of(data, format)[3 * i + 2] == data[4 * i + 2]
        } else {
            &&& rgb_of(data, format)[3 * i] == data[4 * i + 2]
            &&& rgb_of(data, format)[3 * i + 1] == data[4 * i + 1]
            &&& rgb_of(data, format)[3 * i + 2] == data[4 * i]
        }
    } by {
        assert((3 * i) / 3 == i && (3 * i) % 3 == 0);
        assert((3 * i + 1) / 3 == i && (3 * i + 1) % 3 == 1);
        assert((3 * i + 2) / 3 == i && (3 * i + 2) % 3 == 2);
    }
}

/// A frame of `width * height` four-byte pixels renders to exactly
/// `3 * width * height` bytes.
pub proof fn rgb_of_full_frame(data: Seq<u8>, format: PixelFormat, width: nat, height: nat)
    requires
        data.len() == 4 * (width * height),
    ensures
        rgb_of(data, format).len() == 3 * (width * height),
{
}

/// Round trip through the blue-first layout: triplets padded to four bytes
/// with blue first, then converted as `Bgrx8888` or `Bgra8888`, are the
/// triplets one started from, whatever the fill byte.
#[verifier::rlimit(40)]
pub proof fn bgrx_round_trip(rgb: Seq<u8>, fill: u8, format: PixelFormat)
    requires
        rgb.len() % 3 == 0,
        format == PixelFormat::Bgrx8888 || format == PixelFormat::Bgra8888,
    ensures
        rgb_of(pad_to_bgrx(rgb, fill), format) == rgb,
{
    let padded = pad_to_bgrx(rgb, fill);
    let back = rgb_of(padded, format);
    let pixels = rgb.len() as int / 3;
    assert(padded.len() == 4 * pixels);
    lemma_fundamental_div_mod_converse(4 * pixels, 4, pixels, 0);
    assert(back.len() == 3 * pixels);
    assert(rgb.len() == 3 * pixels);
    assert forall|j: int| 0 <= j < back.len() implies back[j] == rgb[j] by {
        let pixel = j / 3;
        let channel = j % 3;
        let k = 4 * pixel + (2 - channel);
        assert(j == 3 * pixel + channel && 0 <= channel < 3);
        assert(0 <= pixel < pixels);
        lemma_fundamental_div_mod_converse(k, 4, pixel, 2 - channel);
        assert(0 <= k < padded.len());
        assert(back[j] == padded[k]);
        assert(padded[k] == rgb[3 * pixel + 2 - (2 - channel)]);
    }
    assert(back =~= rgb);
}

/// Bytes after the last complete pixel never reach the output: a frame and
/// the same frame cut back to whole pixels render alike.
#[verifier::rlimit(40)]
pub proof fn partial_pixel_ignored(data: Seq<u8>, format: PixelFormat)
    ensures
        rgb_of(data, format) == rgb_of(data.take(4 * whole_pixels(data) as int), format),
{
    let whole = data.take(4 * whole_pixels(data) as int);
    assert(whole.len() / 4 == data.len() / 4);
    assert forall|j: int| 0 <= j < 3 * (data.len() / 4) implies rgb_byte(data, format, j)
        == rgb_byte(whole, format, j) by {
        let pixel = j / 3;
        let channel = j % 3;
        assert(0 <= 4 * pixel + channel < whole.len());
        assert(0 <= 4 * pixel + 2 - channel < whole.len());
    }
    assert(rgb_of(data, format) =~= rgb_of(whole, format));
}

} // verus!
