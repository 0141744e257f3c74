//! Turning pixels by quarter turns.
use vstd::prelude::*;

verus! {

/// The dimensions after `turns` quarter turns.
pub open spec fn turned_size(width: int, height: int, turns: int) -> (int, int) {
    if turns % 2 == 1 {
        (height, width)
    } else {
        (width, height)
    }
}

/// Where the pixel at column `x` and row `y` of the turned image comes from:
/// a clockwise quarter turn puts the left column of the original on top.
pub open spec fn source_of(width: int, height: int, turns: int, x: int, y: int) -> (int, int) {
    if turns % 4 == 1 {
        (y, height - 1 - x)
    } else if turns % 4 == 2 {
        (width - 1 - x, height - 1 - y)
    } else if turns % 4 == 3 {
        (width - 1 - y, x)
    } else {
        (x, y)
    }
}

/// Where byte `k` of the turned image comes from, at four bytes a pixel.
pub open spec fn source_byte(width: int, height: int, turns: int, k: int) -> int {
    let (w, _) = turned_size(width, height, turns);
    let (x, y) = source_of(width, height, turns, (k / 4) % w, (k / 4) / w);
    (y * width + x) * 4 + k % 4
}

/// The number of bytes of an image, at four bytes a pixel.
pub open spec fn image_bytes(width: int, height: int) -> int {
    width * height * 4
}

/// Byte `k` of a turned image lies at a pixel inside it, and that pixel comes
/// from one inside the original.
proof fn lemma_source(width: int, height: int, turns: int, k: int)
    requires
        0 <= k < image_bytes(width, height),
        width >= 0,
        height >= 0,
        turns >= 0,
    ensures
        width > 0,
        height > 0,
        ({
            let (w, h) = turned_size(width, height, turns);
            &&& 0 <= (k / 4) % w < w
            &&& 0 <= (k / 4) / w < h
        }),
        0 <= source_byte(width, height, turns, k) < image_bytes(width, height),
{
    assert(width > 0 && height > 0) by (nonlinear_arith)
        requires
            0 <= k < width * height * 4,
            width >= 0,
            height >= 0,
    ;
    let (w, h) = turned_size(width, height, turns);
    let p = k / 4;
    assert(w * h == width * height) by (nonlinear_arith)
        requires
            (w == width && h == height) || (w == height && h == width),
    ;
    assert(0 <= p < w * h) by (nonlinear_arith)
        requires
            p == k / 4,
            0 <= k < width * height * 4,
            w * h == width * height,
    ;
    let x = p % w;
    let y = p / w;
    vstd::arithmetic::div_mod::lemma_fundamental_div_mod(p, w);
    vstd::arithmetic::div_mod::lemma_mod_bound(p, w);
    assert(0 <= y < h) by (nonlinear_arith)
        requires
            p == w * y + x,
            0 <= x < w,
            0 <= p < w * h,
            w > 0,
    ;
    let (sx, sy) = source_of(width, height, turns, x, y);
    assert(0 <= sx < width && 0 <= sy < height);
    let c = k % 4;
    assert(0 <= (sy * width + sx) * 4 + c < width * height * 4) by (nonlinear_arith)
        requires
            0 <= sx < width,
            0 <= sy < height,
            0 <= c < 4,
    ;
}

/// Turn four-byte pixels clockwise by quarter turns. `None` when there are
/// fewer bytes than the dimensions say.
pub fn rotate_pixels(width: u32, height: u32, pixels: &Vec<u8>, turns: u8) -> (turned: Option<
    (u32, u32, Vec<u8>),
>)
    ensures
        match turned {
            Some((w, h, out)) => {
                &&& pixels@.len() >= image_bytes(width as int, height as int)
                &&& (w as int, h as int) == turned_size(
                    width as int,
                    height as int,
                    turns as int,
                )
                &&& turns % 4 == 0 ==> out@ == pixels@
                &&& turns % 4 != 0 ==> out@.len() == image_bytes(width as int, height as int)
                    && forall|k: int|
                    0 <= k < out@.len() ==> #[trigger] out@[k] == pixels@[source_byte(
                        width as int,
                        height as int,
                        turns as int,
                        k,
                    )]
            },
            None => pixels@.len() < image_bytes(width as int, height as int),
        },
{
    assert(0 <= width * height <= 0xffff_ffff * 0xffff_ffff) by (nonlinear_arith)
        requires
            0 <= width <= 0xffff_ffff,
            0 <= height <= 0xffff_ffff,
    ;
    let need: u128 = width as u128 * height as u128 * 4;
    if (pixels.len() as u128) < need {
        return None;
    }
    let quarter: u8 = turns % 4;
    if quarter == 0 {
        return Some((width, height, copy_bytes(pixels)));
    }
    let n: usize = need as usize;
    let odd: bool = quarter == 1 || quarter == 3;
    let (w, h): (u32, u32) = if odd {
        (height, width)
    } else {
        (width, height)
    };
    let mut out: Vec<u8> = Vec::new();
    let mut k: usize = 0;
    while k < n
        invariant
            k <= n,
            n == image_bytes(width as int, height as int),
            n <= pixels@.len(),
            quarter == turns % 4,
            quarter != 0,
            odd == (quarter == 1 || quarter == 3),
            (w as int, h as int) == turned_size(width as int, height as int, turns as int),
            out@.len() == k,
            forall|j: int|
                0 <= j < k ==> #[trigger] out@[j] == pixels@[source_byte(
                    width as int,
                    height as int,
                    turns as int,
                    j,
                )],
        decreases n - k,
    {
        proof {
            lemma_source(width as int, height as int, turns as int, k as int);
        }
        let p: usize = k / 4;
        let x: usize = p % (w as usize);
        let y: usize = p / (w as usize);
        let (sx, sy): (usize, usize) = if quarter == 1 {
            (y, height as usize - 1 - x)
        } else if quarter == 2 {
            (width as usize - 1 - x, height as usize - 1 - y)
        } else {
            (width as usize - 1 - y, x)
        };
        let ghost src = source_byte(width as int, height as int, turns as int, k as int);
        assert(src == (sy * width + sx) * 4 + (k as int) % 4);
        assert(0 <= sy * width && sy * width + sx <= src && (sy * width + sx) * 4 <= src)
            by (nonlinear_arith)
            requires
                src == (sy * width + sx) * 4 + (k as int) % 4,
                0 <= sy,
                0 <= sx,
                0 <= width,
                (k as int) % 4 >= 0,
        ;
        let at: usize = (sy * (width as usize) + sx) * 4 + k % 4;
        out.push(pixels[at]);
        k = k + 1;
    }
    Some((w, h, out))
}

fn copy_bytes(bytes: &Vec<u8>) -> (copy: Vec<u8>)
    ensures
        copy@ == bytes@,
{
    let mut copy: Vec<u8> = Vec::new();
    let mut i: usize = 0;
    while i < bytes.len()
        invariant
            i <= bytes@.len(),
            copy@ == bytes@.take(i as int),
        decreases bytes@.len() - i,
    {
        copy.push(bytes[i]);
        i = i + 1;
        assert(copy@ =~= bytes@.take(i as int));
    }
    assert(copy@ =~= bytes@);
    copy
}

/// Two turns in a row read the pixel their sum reads: turning an image by
/// `first` and the result by `second` is turning it by both at once.
pub proof fn law_turns_add_up(
    width: int,
    height: int,
    first: int,
    second: int,
    x: int,
    y: int,
)
    requires
        width > 0,
        height > 0,
        first >= 0,
        second >= 0,
        ({
            let (w, h) = turned_size(width, height, first + second);
            0 <= x < w && 0 <= y < h
        }),
    ensures
        ({
            let (w, h) = turned_size(width, height, first);
            let (mx, my) = source_of(w, h, second, x, y);
            source_of(width, height, first, mx, my) == source_of(
                width,
                height,
                first + second,
                x,
                y,
            )
        }),
{
}

/// Four quarter turns are no turn.
pub proof fn law_full_turn(width: int, height: int, x: int, y: int)
    ensures
        source_of(width, height, 4, x, y) == (x, y),
        turned_size(width, height, 4) == (width, height),
{
}

} // verus!
