//! The layout of the Launchpad Pro and the SysEx frames it understands.
//!
//! The device numbers its buttons `row * 10 + column`: rows 1 to 8 from the bottom to the
//! top and columns 1 to 8 from the left to the right make the central 8×8 grid of pads;
//! column 9 is the column of buttons on the right, row 0 the row of buttons at the bottom.
use vstd::prelude::*;

verus! {

/// Index (0 to 63) of the central pad with code `code`, counted from the bottom-left corner,
/// row after row.
pub open spec fn pad_index(code: int) -> Option<int> {
    let row = code / 10;
    let column = code % 10;
    if 1 <= row <= 8 && 1 <= column <= 8 {
        Some((row - 1) * 8 + (column - 1))
    } else {
        None
    }
}

/// Coordinates `(x, y)` of the central pad with code `code`, `(0, 0)` being the top-left
/// corner.
pub open spec fn pad_coordinates(code: int) -> Option<(int, int)> {
    let row = code / 10;
    let column = code % 10;
    if 1 <= row <= 8 && 1 <= column <= 8 {
        Some((column - 1, 8 - row))
    } else {
        None
    }
}

/// Index (0 to 7, from the top) of the button of the right column with code `code`.
pub open spec fn right_button_index(code: int) -> Option<int> {
    let row = code / 10;
    let column = code % 10;
    if 1 <= row <= 8 && column == 9 {
        Some(8 - row)
    } else {
        None
    }
}

/// Index (0 to 7, from the left) of the button of the bottom row with code `code`.
pub open spec fn bottom_button_index(code: int) -> Option<int> {
    if 1 <= code <= 8 {
        Some(code - 1)
    } else {
        None
    }
}

/// Code of the central pad with index `index` (0 to 63).
pub open spec fn pad_code(index: int) -> int {
    (index / 8 + 1) * 10 + index % 8 + 1
}

/// The frame that makes the pad `led` blink.
pub open spec fn highlight_frame(led: u8) -> Seq<u8> {
    seq![240u8, 0, 32, 41, 2, 16, 40, led, 45, 247]
}

/// The frame that lights the buttons `led(0)`, `led(1)`, … with `colors`, each channel
/// brought down from [0; 256[ to the [0; 64[ range of the device.
pub open spec fn lighting_frame(colors: Seq<[u8; 3]>, led: spec_fn(int) -> u8) -> Seq<u8> {
    seq![240u8, 0, 32, 41, 2, 16, 11] + Seq::new(
        4 * colors.len(),
        |k: int|
            if k % 4 == 0 {
                led(k / 4)
            } else {
                (colors[k / 4]@[k % 4 - 1] / 4) as u8
            },
    ) + seq![247u8]
}

/// The frame that lights the 64 central pads with the 24-bit RGB `bytes`, bottom row first,
/// each channel brought down to the [0; 64[ range of the device.
pub open spec fn picture_frame(bytes: Seq<u8>) -> Seq<u8> {
    seq![240u8, 0, 32, 41, 2, 16, 15, 1] + bytes.map_values(|b: u8| (b / 4) as u8) + seq![247u8]
}

/// Position of the byte that lands on position `i` when the rows of a `w`×`h` RGB picture
/// are put in the reverse order.
pub open spec fn mirrored_index(i: int, w: int, h: int) -> int {
    (h - 1 - i / (3 * w)) * (3 * w) + i % (3 * w)
}

/// The RGB picture `bytes` of size `w`×`h` with its rows in the reverse order.
pub open spec fn reversed_rows(bytes: Seq<u8>, w: int, h: int) -> Seq<u8> {
    Seq::new(bytes.len(), |i: int| bytes[mirrored_index(i, w, h)])
}

/// The central pad index of `code`, computed.
pub fn pad_index_of(code: u8) -> (r: Option<u8>)
    ensures
        match pad_index(code as int) {
            Some(i) => r == Some(i as u8),
            None => r is None,
        },
        r matches Some(i) ==> i < 64,
{
    let row = code / 10;
    let column = code % 10;
    if row >= 1 && row <= 8 && column >= 1 && column <= 8 {
        Some((row - 1) * 8 + (column - 1))
    } else {
        None
    }
}

/// The coordinates of the central pad `code`, computed.
pub fn pad_coordinates_of(code: u8) -> (r: Option<(u8, u8)>)
    ensures
        match pad_coordinates(code as int) {
            Some((x, y)) => r == Some((x as u8, y as u8)),
            None => r is None,
        },
        r matches Some((x, y)) ==> x < 8 && y < 8,
{
    let row = code / 10;
    let column = code % 10;
    if row >= 1 && row <= 8 && column >= 1 && column <= 8 {
        Some((column - 1, 8 - row))
    } else {
        None
    }
}

/// The right-column index of `code`, computed.
pub fn right_button_index_of(code: u8) -> (r: Option<u8>)
    ensures
        match right_button_index(code as int) {
            Some(i) => r == Some(i as u8),
            None => r is None,
        },
        r matches Some(i) ==> i < 8,
{
    let row = code / 10;
    let column = code % 10;
    if row >= 1 && row <= 8 && column == 9 {
        Some(8 - row)
    } else {
        None
    }
}

/// The bottom-row index of `code`, computed.
pub fn bottom_button_index_of(code: u8) -> (r: Option<u8>)
    ensures
        match bottom_button_index(code as int) {
            Some(i) => r == Some(i as u8),
            None => r is None,
        },
        r matches Some(i) ==> i < 8,
{
    if code >= 1 && code <= 8 {
        Some(code - 1)
    } else {
        None
    }
}

/// The frame that makes the pad of index `index` (at most 63) blink.
pub fn highlight_frame_of(index: u8) -> (r: Vec<u8>)
    requires
        index < 64,
    ensures
        r@ == highlight_frame(pad_code(index as int) as u8),
{
    let row = index / 8 + 1;
    let column = index % 8 + 1;
    let led = row * 10 + column;
    let r = vec![240u8, 0, 32, 41, 2, 16, 40, led, 45, 247];
    assert(r@ =~= highlight_frame(pad_code(index as int) as u8));
    r
}

/// The led of the `i`-th button of the bottom row.
pub open spec fn bottom_led(i: int) -> u8 {
    (i + 1) as u8
}

/// The led of the `i`-th button of the right column, from the top.
pub open spec fn right_led(i: int) -> u8 {
    (89 - 10 * i) as u8
}

/// The frame that lights up to eight buttons with `colors`, on the bottom row when
/// `on_bottom_row`, else on the right column from the top.
pub fn lighting_frame_of(colors: &Vec<[u8; 3]>, on_bottom_row: bool) -> (r: Vec<u8>)
    requires
        colors@.len() <= 8,
    ensures
        on_bottom_row ==> r@ == lighting_frame(colors@, |i: int| bottom_led(i)),
        !on_bottom_row ==> r@ == lighting_frame(colors@, |i: int| right_led(i)),
{
    let ghost led: spec_fn(int) -> u8 = if on_bottom_row {
        |i: int| bottom_led(i)
    } else {
        |i: int| right_led(i)
    };
    let ghost body = Seq::new(
        4 * colors@.len(),
        |k: int|
            if k % 4 == 0 {
                led(k / 4)
            } else {
                (colors@[k / 4]@[k % 4 - 1] / 4) as u8
            },
    );
    let mut bytes = vec![240u8, 0, 32, 41, 2, 16, 11];
    let mut index: usize = 0;
    while index < colors.len()
        invariant
            index <= colors@.len(),
            colors@.len() <= 8,
            body.len() == 4 * colors@.len(),
            forall|k: int|
                0 <= k < body.len() ==> #[trigger] body[k] == if k % 4 == 0 {
                    led(k / 4)
                } else {
                    (colors@[k / 4]@[k % 4 - 1] / 4) as u8
                },
            led == (if on_bottom_row {
                |i: int| bottom_led(i)
            } else {
                |i: int| right_led(i)
            }),
            bytes@ == seq![240u8, 0, 32, 41, 2, 16, 11] + body.take(4 * index),
        decreases colors@.len() - index,
    {
        let led_byte: u8 = if on_bottom_row {
            (index + 1) as u8
        } else {
            (89 - 10 * index) as u8
        };
        let color = colors[index];
        bytes.push(led_byte);
        bytes.push(color[0] / 4);
        bytes.push(color[1] / 4);
        bytes.push(color[2] / 4);
        proof {
            let k = 4 * index as int;
            assert(body[k] == led_byte);
            assert(body[k + 1] == color@[0] / 4);
            assert(body[k + 2] == color@[1] / 4);
            assert(body[k + 3] == color@[2] / 4);
            assert(bytes@ =~= seq![240u8, 0, 32, 41, 2, 16, 11] + body.take(4 * (index + 1)));
        }
        index = index + 1;
    }
    bytes.push(247);
    assert(body.take(4 * colors@.len() as int) =~= body);
    assert(bytes@ =~= lighting_frame(colors@, led));
    bytes
}

/// The frame that lights the central pads with the 24-bit RGB `bytes`.
pub fn picture_frame_of(bytes: &Vec<u8>) -> (r: Vec<u8>)
    ensures
        r@ == picture_frame(bytes@),
{
    let mut picture = vec![240u8, 0, 32, 41, 2, 16, 15, 1];
    let mut k: usize = 0;
    while k < bytes.len()
        invariant
            k <= bytes@.len(),
            picture@ == seq![240u8, 0, 32, 41, 2, 16, 15, 1] + bytes@.take(k as int).map_values(
                |b: u8| (b / 4) as u8,
            ),
        decreases bytes@.len() - k,
    {
        // The device only supports values from the [0; 64[ range.
        picture.push(bytes[k] / 4);
        proof {
            assert(bytes@.take(k + 1).map_values(|b: u8| (b / 4) as u8) =~= bytes@.take(
                k as int,
            ).map_values(|b: u8| (b / 4) as u8).push((bytes@[k as int] / 4) as u8));
        }
        k = k + 1;
    }
    picture.push(247);
    assert(bytes@.take(bytes@.len() as int) =~= bytes@);
    assert(picture@ =~= picture_frame(bytes@));
    picture
}

proof fn lemma_mirrored_index(i: int, w: int, h: int)
    requires
        0 < w,
        0 < h,
        0 <= i < 3 * w * h,
    ensures
        0 <= i / (3 * w) < h,
        0 <= mirrored_index(i, w, h) < 3 * w * h,
        mirrored_index(mirrored_index(i, w, h), w, h) == i,
{
    let d = 3 * w;
    let y = i / d;
    let r = i % d;
    vstd::arithmetic::div_mod::lemma_fundamental_div_mod(i, d);
    vstd::arithmetic::div_mod::lemma_mod_bound(i, d);
    vstd::arithmetic::div_mod::lemma_div_pos_is_pos(i, d);
    assert(3 * w * h == d * h) by (nonlinear_arith)
        requires
            d == 3 * w,
    ;
    assert(y < h) by (nonlinear_arith)
        requires
            i == d * y + r,
            0 <= r,
            i < d * h,
            0 < d,
    ;
    let m = (h - 1 - y) * d + r;
    assert(0 <= (h - 1 - y) * d) by (nonlinear_arith)
        requires
            y <= h - 1,
            0 < d,
    ;
    assert((h - 1 - y) * d + d == d * h - d * y) by (nonlinear_arith);
    assert(0 <= d * y) by (nonlinear_arith)
        requires
            0 <= y,
            0 < d,
    ;
    vstd::arithmetic::div_mod::lemma_fundamental_div_mod_converse(m, d, h - 1 - y, r);
    assert(y * d == d * y) by (nonlinear_arith);
}

/// The rows of a `width`×`height` RGB picture in the reverse order, for devices whose
/// origin is the bottom-left corner.
pub fn reverse_rows_of(bytes: &Vec<u8>, width: usize, height: usize) -> (r: Vec<u8>)
    requires
        0 < width,
        0 < height,
        bytes@.len() == 3 * width * height,
    ensures
        r@ == reversed_rows(bytes@, width as int, height as int),
{
    let len = bytes.len();
    proof {
        assert(3 * width <= 3 * width * height) by (nonlinear_arith)
            requires
                0 < height,
        ;
    }
    let row_len = 3 * width;
    let mut reversed: Vec<u8> = Vec::with_capacity(len);
    let mut i: usize = 0;
    while i < len
        invariant
            i <= len,
            len == bytes@.len(),
            len == 3 * width * height,
            row_len == 3 * width,
            0 < width,
            0 < height,
            reversed@ == reversed_rows(bytes@, width as int, height as int).take(i as int),
        decreases len - i,
    {
        proof {
            lemma_mirrored_index(i as int, width as int, height as int);
            vstd::arithmetic::div_mod::lemma_div_pos_is_pos(i as int, row_len as int);
            vstd::arithmetic::div_mod::lemma_mod_bound(i as int, row_len as int);
        }
        let y = i / row_len;
        assert((height - 1 - y) * row_len <= mirrored_index(i as int, width as int, height as int));
        let m = (height - 1 - y) * row_len + i % row_len;
        reversed.push(bytes[m]);
        proof {
            assert(reversed@ =~= reversed_rows(bytes@, width as int, height as int).take(i + 1));
        }
        i = i + 1;
    }
    assert(reversed@ =~= reversed_rows(bytes@, width as int, height as int));
    reversed
}

/// Putting the rows of a picture in the reverse order twice gives back the picture.
pub proof fn reversing_rows_twice_is_identity(bytes: Seq<u8>, w: int, h: int)
    requires
        0 < w,
        0 < h,
        bytes.len() == 3 * w * h,
    ensures
        reversed_rows(reversed_rows(bytes, w, h), w, h) == bytes,
{
    let once = reversed_rows(bytes, w, h);
    let twice = reversed_rows(once, w, h);
    assert forall|i: int| 0 <= i < bytes.len() implies twice[i] == bytes[i] by {
        lemma_mirrored_index(i, w, h);
    }
    assert(twice =~= bytes);
}

/// The pad code of a central pad index is a code of the central grid, and reading it back
/// gives the same index.
pub proof fn pad_code_round_trip(index: int)
    requires
        0 <= index < 64,
    ensures
        pad_index(pad_code(index)) == Some(index),
        0 <= pad_code(index) < 256,
{
    let row = index / 8 + 1;
    let column = index % 8 + 1;
    let code = row * 10 + column;
    vstd::arithmetic::div_mod::lemma_fundamental_div_mod_converse(code, 10, row, column);
    vstd::arithmetic::div_mod::lemma_fundamental_div_mod(index, 8);
}

/// A pad's index and its coordinates describe the same pad: the index counts from the
/// bottom-left corner, the coordinates from the top-left one.
pub proof fn pad_index_matches_coordinates(code: int)
    ensures
        pad_index(code) is Some <==> pad_coordinates(code) is Some,
        pad_coordinates(code) matches Some((x, y)) ==> pad_index(code) == Some((7 - y) * 8 + x),
{
}

} // verus!
