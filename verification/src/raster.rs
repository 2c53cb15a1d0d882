//! Raster lines: one row of 720 print dots packed into 90 bytes.

use vstd::prelude::*;

verus! {

/// Bytes in one raster line.
pub const LINE_BYTES: usize = 90;

/// Dots in one raster line.
pub const LINE_DOTS: usize = 720;

/// One printable row. Dot `x` lives in byte `89 - x / 8`, bit `x % 8`; a set
/// bit prints black.
pub type RasterLine = [u8; 90];

/// The palette index that stands for black.
pub const BLACK: u8 = 0;

/// Whether bit `k` of `byte` is set.
pub open spec fn bit_is_set(byte: u8, k: u8) -> bool {
    (byte >> k) & 1 == 1
}

/// Whether dot `x` of a line is set.
pub open spec fn dot_is_set(line: Seq<u8>, x: int) -> bool {
    bit_is_set(line[89 - x / 8], (x % 8) as u8)
}

/// The black and white pattern that a line prints, left to right.
pub open spec fn dots(line: Seq<u8>) -> Seq<bool> {
    Seq::new(720, |x: int| dot_is_set(line, x))
}

/// The black and white pattern of a row of palette indices.
pub open spec fn blackness(row: Seq<u8>) -> Seq<bool> {
    Seq::new(row.len(), |x: int| row[x] == BLACK)
}

/// The byte that holds the eight pixels starting at `first`, lowest pixel in
/// the lowest bit.
pub open spec fn packed_byte(row: Seq<u8>, first: int) -> u8 {
    (if row[first] == BLACK { 0x01u8 } else { 0u8 })
    | (if row[first + 1] == BLACK { 0x02u8 } else { 0u8 })
    | (if row[first + 2] == BLACK { 0x04u8 } else { 0u8 })
    | (if row[first + 3] == BLACK { 0x08u8 } else { 0u8 })
    | (if row[first + 4] == BLACK { 0x10u8 } else { 0u8 })
    | (if row[first + 5] == BLACK { 0x20u8 } else { 0u8 })
    | (if row[first + 6] == BLACK { 0x40u8 } else { 0u8 })
    | (if row[first + 7] == BLACK { 0x80u8 } else { 0u8 })
}

/// The raster line of a row of 720 palette indices.
pub open spec fn packed_line(row: Seq<u8>) -> Seq<u8> {
    Seq::new(90, |j: int| packed_byte(row, 8 * (89 - j)))
}

/// Row `y` of a 720 pixel wide image stored row by row.
pub open spec fn row_of(pixels: Seq<u8>, y: int) -> Seq<u8> {
    pixels.subrange(720 * y, 720 * y + 720)
}

proof fn lemma_set_bit(byte: u8, k: u8, j: u8)
    by (bit_vector)
    requires
        k < 8,
        j < 8,
    ensures
        bit_is_set(byte | (1u8 << k), j) == (j == k || bit_is_set(byte, j)),
{
}

proof fn lemma_zero_has_no_bit(j: u8)
    by (bit_vector)
    requires
        j < 8,
    ensures
        !bit_is_set(0u8, j),
{
}

proof fn lemma_byte_of_bits(byte: u8, b0: bool, b1: bool, b2: bool, b3: bool, b4: bool, b5: bool, b6: bool, b7: bool)
    by (bit_vector)
    requires
        bit_is_set(byte, 0) == b0,
        bit_is_set(byte, 1) == b1,
        bit_is_set(byte, 2) == b2,
        bit_is_set(byte, 3) == b3,
        bit_is_set(byte, 4) == b4,
        bit_is_set(byte, 5) == b5,
        bit_is_set(byte, 6) == b6,
        bit_is_set(byte, 7) == b7,
    ensures
        byte == (if b0 { 0x01u8 } else { 0u8 }) | (if b1 { 0x02u8 } else { 0u8 })
            | (if b2 { 0x04u8 } else { 0u8 }) | (if b3 { 0x08u8 } else { 0u8 })
            | (if b4 { 0x10u8 } else { 0u8 }) | (if b5 { 0x20u8 } else { 0u8 })
            | (if b6 { 0x40u8 } else { 0u8 }) | (if b7 { 0x80u8 } else { 0u8 }),
{
}

proof fn lemma_bit_of_dots(a: Seq<u8>, b: Seq<u8>, j: int, k: u8)
    requires
        0 <= j < 90,
        k < 8,
        dots(a) == dots(b),
    ensures
        bit_is_set(a[j], k) == bit_is_set(b[j], k),
{
    let x = 8 * (89 - j) + k;
    assert(89 - x / 8 == j && x % 8 == k);
    assert(dots(a)[x] == dot_is_set(a, x));
    assert(dots(b)[x] == dot_is_set(b, x));
}

/// A line is fixed by its dots: two lines that print the same pattern are
/// the same 90 bytes.
pub proof fn lemma_dots_fix_line(a: Seq<u8>, b: Seq<u8>)
    requires
        a.len() == 90,
        b.len() == 90,
        dots(a) == dots(b),
    ensures
        a == b,
{
    assert forall|j: int| 0 <= j < 90 implies a[j] == b[j] by {
        lemma_bit_of_dots(a, b, j, 0);
        lemma_bit_of_dots(a, b, j, 1);
        lemma_bit_of_dots(a, b, j, 2);
        lemma_bit_of_dots(a, b, j, 3);
        lemma_bit_of_dots(a, b, j, 4);
        lemma_bit_of_dots(a, b, j, 5);
        lemma_bit_of_dots(a, b, j, 6);
        lemma_bit_of_dots(a, b, j, 7);
        assert(bit_is_set(a[j], 0u8) == bit_is_set(b[j], 0u8));
        assert(bit_is_set(a[j], 1u8) == bit_is_set(b[j], 1u8));
        assert(bit_is_set(a[j], 2u8) == bit_is_set(b[j], 2u8));
        assert(bit_is_set(a[j], 3u8) == bit_is_set(b[j], 3u8));
        assert(bit_is_set(a[j], 4u8) == bit_is_set(b[j], 4u8));
        assert(bit_is_set(a[j], 5u8) == bit_is_set(b[j], 5u8));
        assert(bit_is_set(a[j], 6u8) == bit_is_set(b[j], 6u8));
        assert(bit_is_set(a[j], 7u8) == bit_is_set(b[j], 7u8));
        lemma_byte_of_bits(
            a[j],
            bit_is_set(a[j], 0),
            bit_is_set(a[j], 1),
            bit_is_set(a[j], 2),
            bit_is_set(a[j], 3),
            bit_is_set(a[j], 4),
            bit_is_set(a[j], 5),
            bit_is_set(a[j], 6),
            bit_is_set(a[j], 7),
        );
        lemma_byte_of_bits(
            b[j],
            bit_is_set(a[j], 0),
            bit_is_set(a[j], 1),
            bit_is_set(a[j], 2),
            bit_is_set(a[j], 3),
            bit_is_set(a[j], 4),
            bit_is_set(a[j], 5),
            bit_is_set(a[j], 6),
            bit_is_set(a[j], 7),
        );
    }
    assert(a =~= b);
}

proof fn lemma_packed_byte_bit(row: Seq<u8>, first: int, k: u8)
    requires
        k < 8,
    ensures
        bit_is_set(packed_byte(row, first), k) == (row[first + k] == BLACK),
{
    let b0 = row[first] == BLACK;
    let b1 = row[first + 1] == BLACK;
    let b2 = row[first + 2] == BLACK;
    let b3 = row[first + 3] == BLACK;
    let b4 = row[first + 4] == BLACK;
    let b5 = row[first + 5] == BLACK;
    let b6 = row[first + 6] == BLACK;
    let b7 = row[first + 7] == BLACK;
    let byte = packed_byte(row, first);
    assert(byte == (if b0 { 0x01u8 } else { 0u8 }) | (if b1 { 0x02u8 } else { 0u8 })
        | (if b2 { 0x04u8 } else { 0u8 }) | (if b3 { 0x08u8 } else { 0u8 })
        | (if b4 { 0x10u8 } else { 0u8 }) | (if b5 { 0x20u8 } else { 0u8 })
        | (if b6 { 0x40u8 } else { 0u8 }) | (if b7 { 0x80u8 } else { 0u8 }));
    assert(bit_is_set(byte, k) == (if k == 0 { b0 } else if k == 1 { b1 } else if k == 2 { b2 }
        else if k == 3 { b3 } else if k == 4 { b4 } else if k == 5 { b5 } else if k == 6 { b6 }
        else { b7 })) by (bit_vector)
        requires
            k < 8,
            byte == (if b0 { 0x01u8 } else { 0u8 }) | (if b1 { 0x02u8 } else { 0u8 })
                | (if b2 { 0x04u8 } else { 0u8 }) | (if b3 { 0x08u8 } else { 0u8 })
                | (if b4 { 0x10u8 } else { 0u8 }) | (if b5 { 0x20u8 } else { 0u8 })
                | (if b6 { 0x40u8 } else { 0u8 }) | (if b7 { 0x80u8 } else { 0u8 }),
    ;
}

/// Reading a packed line back dot by dot gives the black and white pattern
/// of the row it was packed from.
pub proof fn lemma_pack_round_trip(row: Seq<u8>)
    requires
        row.len() == 720,
    ensures
        packed_line(row).len() == 90,
        dots(packed_line(row)) == blackness(row),
{
    let line = packed_line(row);
    assert forall|x: int| 0 <= x < 720 implies dot_is_set(line, x) == (row[x] == BLACK) by {
        let j = 89 - x / 8;
        let k = (x % 8) as u8;
        assert(line[j] == packed_byte(row, 8 * (89 - j)));
        assert(8 * (89 - j) + k == x);
        lemma_packed_byte_bit(row, 8 * (89 - j), k);
    }
    assert(dots(line) =~= blackness(row));
}

/// Packs row `y` of a 720 pixel wide image of palette indices into a raster
/// line: a dot is set where the index is black.
pub fn pack_line(indices: &[u8], y: usize) -> (line: RasterLine)
    requires
        720 * (y + 1) <= indices@.len(),
    ensures
        line@ == packed_line(row_of(indices@, y as int)),
        dots(line@) == blackness(row_of(indices@, y as int)),
{
    let ghost row = row_of(indices@, y as int);
    let total: usize = indices.len();
    let base: usize = 720 * y;
    let mut line: RasterLine = [0u8; 90];
    proof {
        assert forall|j: int| 0 <= j < 720 implies !dot_is_set(line@, j) by {
            lemma_zero_has_no_bit((j % 8) as u8);
        }
    }
    let mut x: usize = 0;
    while x < 720
        invariant
            x <= 720,
            base == 720 * y,
            base + 720 <= indices@.len(),
            total == indices@.len(),
            row == row_of(indices@, y as int),
            forall|j: int|
                0 <= j < 720 ==> #[trigger] dot_is_set(line@, j) == (j < x && row[j] == BLACK),
        decreases 720 - x,
    {
        if indices[base + x] == BLACK {
            let at: usize = 89 - x / 8;
            let k: u8 = (x % 8) as u8;
            let ghost before = line@;
            line[at] = line[at] | (1u8 << k);
            proof {
                assert(row[x as int] == indices@[base + x]);
                assert forall|j: int| 0 <= j < 720 implies #[trigger] dot_is_set(line@, j) == (j
                    < x + 1 && row[j] == BLACK) by {
                    if 89 - j / 8 == at {
                        lemma_set_bit(before[at as int], k, (j % 8) as u8);
                        assert((j % 8 == x % 8) == (j == x));
                    }
                    assert(dot_is_set(before, j) == (j < x && row[j] == BLACK));
                }
            }
        } else {
            assert(row[x as int] == indices@[base + x]);
        }
        x += 1;
    }
    proof {
        lemma_pack_round_trip(row);
        assert(dots(line@) =~= blackness(row));
        lemma_dots_fix_line(line@, packed_line(row));
    }
    line
}

/// Reads a raster line back into its 720 dots, left to right.
pub fn unpack_line(line: &RasterLine) -> (pattern: Vec<bool>)
    ensures
        pattern@ == dots(line@),
{
    let mut pattern: Vec<bool> = Vec::new();
    let mut x: usize = 0;
    while x < 720
        invariant
            x <= 720,
            pattern@.len() == x,
            forall|j: int| 0 <= j < x ==> pattern@[j] == dot_is_set(line@, j),
        decreases 720 - x,
    {
        let byte: u8 = line[89 - x / 8];
        let k: u8 = (x % 8) as u8;
        pattern.push((byte >> k) & 1 == 1);
        x += 1;
    }
    assert(pattern@ =~= dots(line@));
    pattern
}

} // verus!
