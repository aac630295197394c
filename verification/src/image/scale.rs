use vstd::prelude::*;

use super::Image;

verus! {

/// Why an image could not be scaled.
#[derive(Copy, Clone, Debug, PartialEq)]
pub enum Error {
    /// (new width, new height, old width, old height): the scale would grow the image or
    /// empty it.
    InvalidScaleForImage(usize, usize, usize, usize),
    /// (expected number of bytes, actual number of bytes): the bytes do not match the
    /// claimed dimensions.
    InvalidImage(usize, usize),
}

/// A pointer to a byte of an image seen as a one-dimensional array of bytes.
#[derive(Clone, Copy, Debug, PartialEq)]
pub struct Coordinate1D<'a> {
    pub image: &'a Image,
    pub index: usize,
}

/// A pointer to a byte of an image seen as a three-dimensional collection of bytes:
/// `x` for the column, `y` for the row, `color` for the RGB channel.
#[derive(Clone, Copy, Debug, PartialEq)]
pub struct Coordinate3D<'a> {
    pub image: &'a Image,
    pub color: usize,
    pub x: usize,
    pub y: usize,
}

/// Channel of the byte at `index` in an image of width `w`.
pub open spec fn color_of(index: int) -> int {
    index % 3
}

/// Column of the byte at `index` in an image of width `w`.
pub open spec fn column_of(w: int, index: int) -> int {
    (index / 3) % w
}

/// Row of the byte at `index` in an image of width `w`.
pub open spec fn row_of(w: int, index: int) -> int {
    (index / 3) / w
}

/// Position of the byte of channel `color` of the pixel `(x, y)` in an image of width `w`.
pub open spec fn index_of(w: int, x: int, y: int, color: int) -> int {
    3 * (y * w + x) + color
}

/// A position `p` along a dimension of size `old`, projected on a dimension of size `new`.
pub open spec fn project(p: int, old: int, new: int) -> int {
    p * new / old
}

/// Where the byte at `i` of a `w`×`h` image lands in the `nw`×`nh` scaled image.
pub open spec fn target_index(w: int, h: int, nw: int, nh: int, i: int) -> int {
    index_of(
        nw,
        project(column_of(w, i), w, nw),
        project(row_of(w, i), h, nh),
        color_of(i),
    )
}

/// How many of the first `n` bytes of a `w`×`h` image land on byte `j` of the scaled image.
pub open spec fn bucket_count(w: int, h: int, nw: int, nh: int, n: nat, j: int) -> nat
    decreases n,
{
    if n == 0 {
        0
    } else {
        bucket_count(w, h, nw, nh, (n - 1) as nat, j) + if target_index(w, h, nw, nh, n - 1)
            == j {
            1nat
        } else {
            0nat
        }
    }
}

/// The sum of those of the first `n` bytes that land on byte `j` of the scaled image.
pub open spec fn bucket_sum(bytes: Seq<u8>, w: int, h: int, nw: int, nh: int, n: nat, j: int) -> nat
    decreases n,
{
    if n == 0 {
        0
    } else {
        bucket_sum(bytes, w, h, nw, nh, (n - 1) as nat, j) + if target_index(
            w,
            h,
            nw,
            nh,
            n - 1,
        ) == j {
            bytes[n - 1] as nat
        } else {
            0nat
        }
    }
}

/// Byte `j` of the `w`×`h` image `bytes` scaled to `nw`×`nh`: the (rounded down) average
/// of the bytes landing on it.
pub open spec fn averaged_byte(w: int, h: int, bytes: Seq<u8>, nw: int, nh: int, j: int) -> int {
    (bucket_sum(bytes, w, h, nw, nh, bytes.len(), j) as int) / (bucket_count(
        w,
        h,
        nw,
        nh,
        bytes.len(),
        j,
    ) as int)
}

/// The bytes of the `w`×`h` image `bytes` scaled down to `nw`×`nh`.
pub open spec fn scaled_bytes(w: int, h: int, bytes: Seq<u8>, nw: int, nh: int) -> Seq<u8> {
    Seq::new((3 * nw * nh) as nat, |j: int| averaged_byte(w, h, bytes, nw, nh, j) as u8)
}

/// The error that scaling a `w`×`h` image of `len` bytes to `nw`×`nh` reports, if any.
pub open spec fn scale_error(w: usize, h: usize, len: int, nw: usize, nh: usize) -> Option<Error> {
    if nw > w || nw == 0 || nh > h || nh == 0 {
        Some(Error::InvalidScaleForImage(nw, nh, w, h))
    } else if 3 * w * h != len {
        Some(Error::InvalidImage((3 * w * h) as usize, len as usize))
    } else {
        None
    }
}

/// The sizes for which the arithmetic of `scale` fits in a `usize`.
pub open spec fn scale_fits(w: usize, h: usize, nw: usize, nh: usize) -> bool {
    &&& 765 * w * h <= usize::MAX
    &&& w * nw <= usize::MAX
    &&& h * nh <= usize::MAX
}

/// Whether the arithmetic of `scale` fits in a `usize` for these sizes, computed.
pub fn scale_fits_for(w: usize, h: usize, nw: usize, nh: usize) -> (b: bool)
    ensures
        b == scale_fits(w, h, nw, nh),
{
    let a = w.checked_mul(nw);
    let b = h.checked_mul(nh);
    let c = w.checked_mul(h);
    match (a, b, c) {
        (Some(_), Some(_), Some(wh)) => {
            proof {
                assert(765 * w * h == wh * 765) by (nonlinear_arith)
                    requires
                        wh == w * h,
                ;
            }
            wh.checked_mul(765).is_some()
        },
        _ => {
            proof {
                if c is None {
                    assert(765 * w * h >= w * h) by (nonlinear_arith);
                }
            }
            false
        },
    }
}

impl<'a> Coordinate3D<'a> {
    /// Projects this coordinate on an image of another size.
    pub fn scale_to<'b>(&self, image: &'b Image) -> (r: Coordinate3D<'b>)
        requires
            self.image.width > 0,
            self.image.height > 0,
            self.x * image.width <= usize::MAX,
            self.y * image.height <= usize::MAX,
        ensures
            r.image == image,
            r.color == self.color,
            r.x == project(self.x as int, self.image.width as int, image.width as int),
            r.y == project(self.y as int, self.image.height as int, image.height as int),
    {
        let x = self.x * image.width / self.image.width;
        let y = self.y * image.height / self.image.height;
        Coordinate3D { image, color: self.color, x, y }
    }

    /// The coordinate of the byte that `coordinate_1d` points to.
    pub fn from(coordinate_1d: Coordinate1D<'a>) -> (r: Coordinate3D<'a>)
        requires
            coordinate_1d.image.width > 0,
        ensures
            r.image == coordinate_1d.image,
            r.color == color_of(coordinate_1d.index as int),
            r.x == column_of(coordinate_1d.image.width as int, coordinate_1d.index as int),
            r.y == row_of(coordinate_1d.image.width as int, coordinate_1d.index as int),
    {
        let Coordinate1D { image, index } = coordinate_1d;
        let color = index % 3;
        let y = (index / 3) / image.width;
        let x = (index / 3) % image.width;
        Coordinate3D { image, color, x, y }
    }
}

impl<'a> Coordinate1D<'a> {
    /// The position in the array of bytes of the byte that `coordinate_3d` points to.
    pub fn from(coordinate_3d: Coordinate3D<'a>) -> (r: Coordinate1D<'a>)
        requires
            index_of(
                coordinate_3d.image.width as int,
                coordinate_3d.x as int,
                coordinate_3d.y as int,
                coordinate_3d.color as int,
            ) <= usize::MAX,
        ensures
            r.image == coordinate_3d.image,
            r.index == index_of(
                coordinate_3d.image.width as int,
                coordinate_3d.x as int,
                coordinate_3d.y as int,
                coordinate_3d.color as int,
            ),
    {
        let Coordinate3D { image, color, x, y } = coordinate_3d;
        proof {
            assert(0 <= y * image.width <= y * image.width + x) by (nonlinear_arith);
        }
        let index = 3 * (y * image.width + x) + color;
        Coordinate1D { image, index }
    }
}

/// For `0 <= k < small <= big`, the first position along a dimension of size `big` that
/// projects on `k` in a dimension of size `small`.
pub open spec fn preimage(k: int, small: int, big: int) -> int {
    (k * big + small - 1) / small
}

proof fn lemma_project_bound(p: int, old: int, new: int)
    requires
        0 <= p < old,
        0 < new,
    ensures
        0 <= project(p, old, new) < new,
{
    assert(0 <= p * new) by (nonlinear_arith)
        requires
            0 <= p,
            0 < new,
    ;
    assert(p * new < old * new) by (nonlinear_arith)
        requires
            p < old,
            0 < new,
    ;
    vstd::arithmetic::div_mod::lemma_div_pos_is_pos(p * new, old);
    assert((p * new) / old < new) by (nonlinear_arith)
        requires
            0 <= p * new < old * new,
            0 < old,
    {
        vstd::arithmetic::div_mod::lemma_fundamental_div_mod(p * new, old);
        vstd::arithmetic::div_mod::lemma_mod_bound(p * new, old);
    }
}

proof fn lemma_preimage(k: int, small: int, big: int)
    requires
        0 < small <= big,
        0 <= k < small,
    ensures
        0 <= preimage(k, small, big) < big,
        project(preimage(k, small, big), big, small) == k,
{
    let a = k * big + small - 1;
    let x = a / small;
    let r = a % small;
    vstd::arithmetic::div_mod::lemma_fundamental_div_mod(a, small);
    vstd::arithmetic::div_mod::lemma_mod_bound(a, small);
    assert(a == small * x + r);
    assert(0 <= k * big) by (nonlinear_arith)
        requires
            0 <= k,
            0 < big,
    ;
    assert(k * big <= (small - 1) * big) by (nonlinear_arith)
        requires
            k <= small - 1,
            0 < big,
    ;
    assert(small * x == x * small) by (nonlinear_arith);
    // k * big <= x * small < k * big + big
    assert(k * big <= x * small);
    assert(x * small < k * big + big);
    assert(0 <= x) by (nonlinear_arith)
        requires
            0 <= x * small,
            0 < small,
    ;
    assert(x * small < big * small) by (nonlinear_arith)
        requires
            x * small <= k * big + small - 1,
            k * big <= (small - 1) * big,
            small <= big,
    ;
    assert(x < big) by (nonlinear_arith)
        requires
            x * small < big * small,
            0 < small,
    ;
    let q = x * small;
    vstd::arithmetic::div_mod::lemma_fundamental_div_mod_converse(q, big, k, q - k * big);
}

proof fn lemma_index_of_bound(nw: int, nh: int, x: int, y: int, c: int)
    requires
        0 <= x < nw,
        0 <= y < nh,
        0 <= c < 3,
    ensures
        0 <= index_of(nw, x, y, c) < 3 * nw * nh,
{
    assert(0 <= y * nw) by (nonlinear_arith)
        requires
            0 <= y,
            0 < nw,
    ;
    assert(y * nw <= (nh - 1) * nw) by (nonlinear_arith)
        requires
            y <= nh - 1,
            0 < nw,
    ;
    assert((nh - 1) * nw + nw == nh * nw) by (nonlinear_arith);
    assert(y * nw + x < nh * nw);
    assert(3 * (y * nw + x) + c < 3 * nw * nh) by (nonlinear_arith)
        requires
            y * nw + x < nh * nw,
            c < 3,
    ;
}

/// Every byte of the source lands inside the scaled image.
proof fn lemma_target_in_bounds(w: int, h: int, nw: int, nh: int, i: int)
    requires
        0 < nw <= w,
        0 < nh <= h,
        0 <= i < 3 * w * h,
    ensures
        0 <= column_of(w, i) < w,
        0 <= row_of(w, i) < h,
        0 <= target_index(w, h, nw, nh, i) < 3 * nw * nh,
{
    let p = i / 3;
    assert(0 <= p < w * h) by (nonlinear_arith)
        requires
            0 <= i < 3 * w * h,
            p == i / 3,
    ;
    let x = p % w;
    let y = p / w;
    vstd::arithmetic::div_mod::lemma_mod_bound(p, w);
    vstd::arithmetic::div_mod::lemma_div_pos_is_pos(p, w);
    assert(y < h) by (nonlinear_arith)
        requires
            0 <= p < w * h,
            y == p / w,
            0 < w,
    {
        vstd::arithmetic::div_mod::lemma_fundamental_div_mod(p, w);
        vstd::arithmetic::div_mod::lemma_mod_bound(p, w);
    }
    lemma_project_bound(x, w, nw);
    lemma_project_bound(y, h, nh);
    lemma_index_of_bound(nw, nh, project(x, w, nw), project(y, h, nh), i % 3);
}

proof fn lemma_bucket_positive(w: int, h: int, nw: int, nh: int, n: nat, i: int, j: int)
    requires
        0 <= i < n,
        target_index(w, h, nw, nh, i) == j,
    ensures
        bucket_count(w, h, nw, nh, n, j) >= 1,
    decreases n,
{
    if i < n - 1 {
        lemma_bucket_positive(w, h, nw, nh, (n - 1) as nat, i, j);
    }
}

/// Every byte of the scaled image receives at least one byte of the source.
proof fn lemma_bucket_nonempty(w: int, h: int, nw: int, nh: int, j: int)
    requires
        0 < nw <= w,
        0 < nh <= h,
        0 <= j < 3 * nw * nh,
    ensures
        bucket_count(w, h, nw, nh, (3 * w * h) as nat, j) >= 1,
{
    let c = j % 3;
    let q = j / 3;
    vstd::arithmetic::div_mod::lemma_fundamental_div_mod(j, 3);
    assert(0 <= q < nw * nh) by (nonlinear_arith)
        requires
            0 <= j < 3 * nw * nh,
            q == j / 3,
    ;
    let nx = q % nw;
    let ny = q / nw;
    vstd::arithmetic::div_mod::lemma_fundamental_div_mod(q, nw);
    vstd::arithmetic::div_mod::lemma_mod_bound(q, nw);
    vstd::arithmetic::div_mod::lemma_div_pos_is_pos(q, nw);
    assert(ny < nh) by (nonlinear_arith)
        requires
            0 <= q < nw * nh,
            ny == q / nw,
            0 < nw,
    {
        vstd::arithmetic::div_mod::lemma_fundamental_div_mod(q, nw);
        vstd::arithmetic::div_mod::lemma_mod_bound(q, nw);
    }
    lemma_preimage(nx, nw, w);
    lemma_preimage(ny, nh, h);
    let x = preimage(nx, nw, w);
    let y = preimage(ny, nh, h);
    let p = y * w + x;
    let i = 3 * p + c;
    lemma_index_of_bound(w, h, x, y, c);
    vstd::arithmetic::div_mod::lemma_fundamental_div_mod_converse(i, 3, p, c);
    vstd::arithmetic::div_mod::lemma_fundamental_div_mod_converse(p, w, y, x);
    assert(column_of(w, i) == x);
    assert(row_of(w, i) == y);
    assert(target_index(w, h, nw, nh, i) == 3 * (ny * nw + nx) + c);
    assert(nw * ny == ny * nw) by (nonlinear_arith);
    assert(target_index(w, h, nw, nh, i) == j);
    lemma_bucket_positive(w, h, nw, nh, (3 * w * h) as nat, i, j);
}

fn validate_scale_arguments(image: &Image, new_width: usize, new_height: usize) -> (r: Result<(), Error>)
    requires
        3 * image.width * image.height <= usize::MAX,
    ensures
        r is Ok <==> scale_error(image.width, image.height, image.bytes@.len() as int, new_width, new_height) is None,
        r matches Err(e) ==> scale_error(image.width, image.height, image.bytes@.len() as int, new_width, new_height) == Some(e),
{
    // The algorithm only knows how to shrink an image for now
    if new_width > image.width || new_width == 0 || new_height > image.height || new_height == 0 {
        return Err(Error::InvalidScaleForImage(new_width, new_height, image.width, image.height));
    }
    proof {
        assert(0 <= 3 * image.width <= 3 * image.width * image.height) by (nonlinear_arith)
            requires
                image.height >= 1,
        ;
    }
    // Make sure that the number of bytes matches the claimed dimensions of the given image.
    if 3 * image.width * image.height != image.bytes.len() {
        return Err(Error::InvalidImage(3 * image.width * image.height, image.bytes.len()));
    }
    Ok(())
}

/// Shrinks `image` to `new_width`×`new_height`: each byte of the result is the average
/// (rounded down) of the bytes of the source that project on it.
pub fn scale(image: &Image, new_width: usize, new_height: usize) -> (r: Result<Image, Error>)
    requires
        scale_fits(image.width, image.height, new_width, new_height),
    ensures
        r is Ok <==> scale_error(image.width, image.height, image.bytes@.len() as int, new_width, new_height) is None,
        r matches Err(e) ==> scale_error(image.width, image.height, image.bytes@.len() as int, new_width, new_height) == Some(e),
        r matches Ok(scaled) ==> {
            &&& scaled.width == new_width
            &&& scaled.height == new_height
            &&& scaled.bytes@ == scaled_bytes(image.width as int, image.height as int, image.bytes@, new_width as int, new_height as int)
        },
        new_width == image.width && new_height == image.height && r is Ok
            ==> (r matches Ok(scaled) && scaled.bytes@ == image.bytes@),
{
    proof {
        assert(3 * image.width * image.height <= 765 * image.width * image.height)
            by (nonlinear_arith);
    }
    let _ = validate_scale_arguments(image, new_width, new_height)?;
    let ghost w = image.width as int;
    let ghost h = image.height as int;
    let ghost nw = new_width as int;
    let ghost nh = new_height as int;
    let ghost bytes = image.bytes@;
    let len = image.bytes.len();
    proof {
        assert(3 * nw * nh <= 3 * w * h) by (nonlinear_arith)
            requires
                0 < nw <= w,
                0 < nh <= h,
        ;
    }
    proof {
        assert(3 * nw <= 3 * nw * nh) by (nonlinear_arith)
            requires
                0 < nh,
                0 < nw,
        ;
        assert(3 * w * h <= 765 * w * h) by (nonlinear_arith)
            requires
                0 < w,
                0 < h,
        ;
    }
    // One vector counts the bytes that get merged together, the other sums their values.
    let new_size = 3 * new_width * new_height;
    let mut bytes_counts: Vec<usize> = Vec::with_capacity(new_size);
    let mut bytes_sums: Vec<usize> = Vec::with_capacity(new_size);
    let mut k: usize = 0;
    while k < new_size
        invariant
            k <= new_size,
            bytes_counts@.len() == k,
            bytes_sums@.len() == k,
            forall|j: int| 0 <= j < k ==> bytes_counts@[j] == 0 && bytes_sums@[j] == 0,
        decreases new_size - k,
    {
        bytes_counts.push(0usize);
        bytes_sums.push(0usize);
        k = k + 1;
    }
    let mut new_image = Image {
        width: new_width,
        height: new_height,
        bytes: Vec::with_capacity(new_size),
    };
    // Assign each byte of the source to the byte of the scaled image it projects on.
    let mut index: usize = 0;
    while index < len
        invariant
            w == image.width,
            h == image.height,
            nw == new_width,
            nh == new_height,
            new_image.width == new_width,
            new_image.height == new_height,
            0 < nw <= w,
            0 < nh <= h,
            bytes == image.bytes@,
            len == bytes.len(),
            len == 3 * w * h,
            765 * w * h <= usize::MAX,
            w * nw <= usize::MAX,
            h * nh <= usize::MAX,
            new_size == 3 * nw * nh,
            index <= len,
            bytes_counts@.len() == new_size,
            bytes_sums@.len() == new_size,
            forall|j: int|
                0 <= j < new_size ==> {
                    &&& #[trigger] bytes_counts@[j] == bucket_count(w, h, nw, nh, index as nat, j)
                    &&& bytes_sums@[j] == bucket_sum(bytes, w, h, nw, nh, index as nat, j)
                    &&& bytes_sums@[j] <= 255 * bytes_counts@[j]
                    &&& bytes_counts@[j] <= index
                },
        decreases len - index,
    {
        proof {
            lemma_target_in_bounds(w, h, nw, nh, index as int);
            let x = column_of(w, index as int);
            let y = row_of(w, index as int);
            assert(x * nw <= w * nw) by (nonlinear_arith)
                requires
                    0 <= x < w,
                    0 < nw,
            ;
            assert(y * nh <= h * nh) by (nonlinear_arith)
                requires
                    0 <= y < h,
                    0 < nh,
            ;
        }
        let coordinate_3d = Coordinate3D::from(Coordinate1D { image: &image, index });
        let new_coordinate_3d = coordinate_3d.scale_to(&new_image);
        let new_coordinate_1d = Coordinate1D::from(new_coordinate_3d);
        let t = new_coordinate_1d.index;
        assert(t == target_index(w, h, nw, nh, index as int));
        proof {
            assert(255 * (index + 1) <= 255 * len) by (nonlinear_arith)
                requires
                    index < len,
            ;
            assert(255 * len <= 765 * w * h) by (nonlinear_arith)
                requires
                    len == 3 * w * h,
            ;
        }
        let count = bytes_counts[t];
        let sum = bytes_sums[t];
        let ghost old_counts = bytes_counts@;
        let ghost old_sums = bytes_sums@;
        bytes_counts.set(t, count + 1);
        bytes_sums.set(t, sum + image.bytes[index] as usize);
        index = index + 1;
        proof {
            assert forall|j: int| 0 <= j < new_size implies {
                &&& #[trigger] bytes_counts@[j] == bucket_count(w, h, nw, nh, index as nat, j)
                &&& bytes_sums@[j] == bucket_sum(bytes, w, h, nw, nh, index as nat, j)
                &&& bytes_sums@[j] <= 255 * bytes_counts@[j]
                &&& bytes_counts@[j] <= index
            } by {
                let n = index as nat;
                assert(bucket_count(w, h, nw, nh, n, j) == bucket_count(
                    w,
                    h,
                    nw,
                    nh,
                    (n - 1) as nat,
                    j,
                ) + if target_index(w, h, nw, nh, n - 1) == j {
                    1nat
                } else {
                    0nat
                });
                assert(bucket_sum(bytes, w, h, nw, nh, n, j) == bucket_sum(
                    bytes,
                    w,
                    h,
                    nw,
                    nh,
                    (n - 1) as nat,
                    j,
                ) + if target_index(w, h, nw, nh, n - 1) == j {
                    bytes[n - 1] as nat
                } else {
                    0nat
                });
                if j == t {
                    assert(bytes_counts@[j] == old_counts[j] + 1);
                    assert(bytes_sums@[j] == old_sums[j] + bytes[n - 1]);
                } else {
                    assert(bytes_counts@[j] == old_counts[j]);
                    assert(bytes_sums@[j] == old_sums[j]);
                }
            }
        }
    }
    // For each byte of the scaled image, take the average value of the bytes assigned to it.
    let mut j: usize = 0;
    while j < new_size
        invariant
            w == image.width,
            h == image.height,
            nw == new_width,
            nh == new_height,
            new_image.width == new_width,
            new_image.height == new_height,
            0 < nw <= w,
            0 < nh <= h,
            bytes == image.bytes@,
            len == bytes.len(),
            len == 3 * w * h,
            new_size == 3 * nw * nh,
            j <= new_size,
            bytes_counts@.len() == new_size,
            bytes_sums@.len() == new_size,
            forall|i: int|
                0 <= i < new_size ==> {
                    &&& #[trigger] bytes_counts@[i] == bucket_count(w, h, nw, nh, len as nat, i)
                    &&& bytes_sums@[i] == bucket_sum(bytes, w, h, nw, nh, len as nat, i)
                    &&& bytes_sums@[i] <= 255 * bytes_counts@[i]
                },
            new_image.bytes@.len() == j,
            forall|i: int|
                0 <= i < j ==> #[trigger] new_image.bytes@[i] == averaged_byte(w, h, bytes, nw, nh, i) as u8,
        decreases new_size - j,
    {
        proof {
            lemma_bucket_nonempty(w, h, nw, nh, j as int);
        }
        let count = bytes_counts[j];
        let sum = bytes_sums[j];
        assert(sum / count <= 255) by (nonlinear_arith)
            requires
                sum <= 255 * count,
                count >= 1,
        ;
        new_image.bytes.push((sum / count) as u8);
        j = j + 1;
    }
    assert(new_image.bytes@ =~= scaled_bytes(w, h, bytes, nw, nh));
    proof {
        if nw == w && nh == h {
            scale_to_own_size_is_identity(*image);
        }
    }
    Ok(new_image)
}

proof fn lemma_target_is_identity(w: int, h: int, i: int)
    requires
        0 < w,
        0 < h,
        0 <= i,
    ensures
        target_index(w, h, w, h, i) == i,
{
    let p = i / 3;
    let x = p % w;
    let y = p / w;
    vstd::arithmetic::div_mod::lemma_div_pos_is_pos(i, 3);
    vstd::arithmetic::div_mod::lemma_div_pos_is_pos(p, w);
    vstd::arithmetic::div_mod::lemma_mod_bound(p, w);
    vstd::arithmetic::div_mod::lemma_div_multiples_vanish(x, w);
    vstd::arithmetic::div_mod::lemma_div_multiples_vanish(y, h);
    assert(x * w == w * x && y * h == h * y) by (nonlinear_arith);
    assert(project(x, w, w) == x);
    assert(project(y, h, h) == y);
    vstd::arithmetic::div_mod::lemma_fundamental_div_mod(p, w);
    vstd::arithmetic::div_mod::lemma_fundamental_div_mod(i, 3);
    assert(w * y == y * w) by (nonlinear_arith);
}

proof fn lemma_identity_buckets(image: Image, n: nat, j: int)
    requires
        0 < image.width,
        0 < image.height,
        n <= image.bytes@.len(),
        0 <= j,
    ensures
        bucket_count(image.width as int, image.height as int, image.width as int, image.height as int, n, j)
            == if j < n { 1nat } else { 0nat },
        bucket_sum(image.bytes@, image.width as int, image.height as int, image.width as int, image.height as int, n, j)
            == if j < n { image.bytes@[j] as nat } else { 0nat },
    decreases n,
{
    if n > 0 {
        lemma_identity_buckets(image, (n - 1) as nat, j);
        lemma_target_is_identity(image.width as int, image.height as int, n - 1);
    }
}

/// Scaling an image to its own size gives back the same bytes: each byte is the only one
/// that lands on its own position.
pub proof fn scale_to_own_size_is_identity(image: Image)
    requires
        0 < image.width,
        0 < image.height,
        3 * image.width * image.height == image.bytes@.len(),
    ensures
        scale_error(image.width, image.height, image.bytes@.len() as int, image.width, image.height) is None,
        scaled_bytes(image.width as int, image.height as int, image.bytes@, image.width as int, image.height as int) == image.bytes@,
{
    let w = image.width as int;
    let h = image.height as int;
    let s = scaled_bytes(w, h, image.bytes@, w, h);
    assert forall|j: int| 0 <= j < image.bytes@.len() implies s[j] == image.bytes@[j] by {
        lemma_identity_buckets(image, image.bytes@.len(), j);
    }
    assert(s =~= image.bytes@);
}

} // verus!
