use vstd::prelude::*;

verus! {

/// One oriented polyomino shape of the catalog: a bounding box of
/// `width` x `height` cells (each in 1..=5), the filled cells of the box as
/// per-row bitmasks in the low `width` bits of `shape_rows` (rows past
/// `height` are zero), and `group_mask`, a 91-bit mask over orientation ids
/// marking every orientation of the same base polyomino, itself included.
pub struct Piece {
    pub width: u8,
    pub height: u8,
    pub group_mask: u128,
    pub shape_rows: [u32; 8],
}

/// Mathematical model of a catalog entry.
#[verifier::ext_equal]
pub ghost struct PieceModel {
    pub width: u8,
    pub height: u8,
    pub group_mask: u128,
    pub rows: Seq<u32>,
}

impl View for Piece {
    type V = PieceModel;

    open spec fn view(&self) -> PieceModel {
        PieceModel {
            width: self.width,
            height: self.height,
            group_mask: self.group_mask,
            rows: self.shape_rows@,
        }
    }
}

/// Bounds every catalog entry obeys; the legality scan depends on them.
pub open spec fn piece_ok(p: PieceModel) -> bool {
    &&& 1 <= p.width <= 5
    &&& 1 <= p.height <= 5
    &&& p.rows.len() == 8
}

pub open spec fn catalog_a(i: int) -> PieceModel {
    // 1 tile pieces
    // X - a single orientation
    if i == 0 {
        PieceModel { width: 1, height: 1, group_mask: 0b1u128, rows: seq![0b1u32, 0u32, 0u32, 0u32, 0u32, 0u32, 0u32, 0u32] }
    // 2 tile pieces
    // XX - 2 orientations
    } else if i == 1 {
        PieceModel { width: 2, height: 1, group_mask: 0b11u128 << 1, rows: seq![0b11u32, 0u32, 0u32, 0u32, 0u32, 0u32, 0u32, 0u32] }
    } else if i == 2 {
        PieceModel { width: 1, height: 2, group_mask: 0b11u128 << 1, rows: seq![0b1u32, 0b1u32, 0u32, 0u32, 0u32, 0u32, 0u32, 0u32] }
    // 3 tile pieces
    // XXX - 2 orientations
    } else if i == 3 {
        PieceModel { width: 3, height: 1, group_mask: 0b11u128 << 3, rows: seq![0b111u32, 0u32, 0u32, 0u32, 0u32, 0u32, 0u32, 0u32] }
    } else if i == 4 {
        PieceModel { width: 1, height: 3, group_mask: 0b11u128 << 3, rows: seq![0b1u32, 0b1u32, 0b1u32, 0u32, 0u32, 0u32, 0u32, 0u32] }
    // XX
    // X  - 4 orientations
    } else if i == 5 {
        PieceModel { width: 2, height: 2, group_mask: 0b1111u128 << 5, rows: seq![0b11u32, 0b1u32, 0u32, 0u32, 0u32, 0u32, 0u32, 0u32] }
    } else if i == 6 {
        PieceModel { width: 2, height: 2, group_mask: 0b1111u128 << 5, rows: seq![0b11u32, 0b10u32, 0u32, 0u32, 0u32, 0u32, 0u32, 0u32] }
    } else if i == 7 {
        PieceModel { width: 2, height: 2, group_mask: 0b1111u128 << 5, rows: seq![0b1u32, 0b11u32, 0u32, 0u32, 0u32, 0u32, 0u32, 0u32] }
    } else if i == 8 {
        PieceModel { width: 2, height: 2, group_mask: 0b1111u128 << 5, rows: seq![0b10u32, 0b11u32, 0u32, 0u32, 0u32, 0u32, 0u32, 0u32] }
    // 4 tile pieces
    // XXXX - 2 orientations
    } else if i == 9 {
        PieceModel { width: 4, height: 1, group_mask: 0b11u128 << 9, rows: seq![0b1111u32, 0u32, 0u32, 0u32, 0u32, 0u32, 0u32, 0u32] }
    } else if i == 10 {
        PieceModel { width: 1, height: 4, group_mask: 0b11u128 << 9, rows: seq![0b1u32, 0b1u32, 0b1u32, 0b1u32, 0u32, 0u32, 0u32, 0u32] }
    // XXX
    // X   - 8 orientations
    } else if i == 11 {
        PieceModel { width: 3, height: 2, group_mask: 0b11111111u128 << 11, rows: seq![0b111u32, 0b1u32, 0u32, 0u32, 0u32, 0u32, 0u32, 0u32] }
    } else if i == 12 {
        PieceModel { width: 3, height: 2, group_mask: 0b11111111u128 << 11, rows: seq![0b111u32, 0b100u32, 0u32, 0u32, 0u32, 0u32, 0u32, 0u32] }
    } else if i == 13 {
        PieceModel { width: 3, height: 2, group_mask: 0b11111111u128 << 11, rows: seq![0b1u32, 0b111u32, 0u32, 0u32, 0u32, 0u32, 0u32, 0u32] }
    } else if i == 14 {
        PieceModel { width: 3, height: 2, group_mask: 0b11111111u128 << 11, rows: seq![0b100u32, 0b111u32, 0u32, 0u32, 0u32, 0u32, 0u32, 0u32] }
    } else if i == 15 {
        PieceModel { width: 2, height: 3, group_mask: 0b11111111u128 << 11, rows: seq![0b11u32, 0b10u32, 0b10u32, 0u32, 0u32, 0u32, 0u32, 0u32] }
    } else if i == 16 {
        PieceModel { width: 2, height: 3, group_mask: 0b11111111u128 << 11, rows: seq![0b11u32, 0b1u32, 0b1u32, 0u32, 0u32, 0u32, 0u32, 0u32] }
    } else if i == 17 {
        PieceModel { width: 2, height: 3, group_mask: 0b11111111u128 << 11, rows: seq![0b1u32, 0b1u32, 0b11u32, 0u32, 0u32, 0u32, 0u32, 0u32] }
    } else {
        PieceModel { width: 2, height: 3, group_mask: 0b11111111u128 << 11, rows: seq![0b10u32, 0b10u32, 0b11u32, 0u32, 0u32, 0u32, 0u32, 0u32] }
    }
}

pub open spec fn catalog_b(i: int) -> PieceModel {
    // XX
    //  XX - 4 orientations
    if i == 19 {
        PieceModel { width: 3, height: 2, group_mask: 0b1111u128 << 19, rows: seq![0b110u32, 0b011u32, 0u32, 0u32, 0u32, 0u32, 0u32, 0u32] }
    } else if i == 20 {
        PieceModel { width: 3, height: 2, group_mask: 0b1111u128 << 19, rows: seq![0b011u32, 0b110u32, 0u32, 0u32, 0u32, 0u32, 0u32, 0u32] }
    } else if i == 21 {
        PieceModel { width: 2, height: 3, group_mask: 0b1111u128 << 19, rows: seq![0b10u32, 0b11u32, 0b01u32, 0u32, 0u32, 0u32, 0u32, 0u32] }
    } else if i == 22 {
        PieceModel { width: 2, height: 3, group_mask: 0b1111u128 << 19, rows: seq![0b01u32, 0b11u32, 0b10u32, 0u32, 0u32, 0u32, 0u32, 0u32] }
    // XXX
    //  X - 4 orientations
    } else if i == 23 {
        PieceModel { width: 3, height: 2, group_mask: 0b1111u128 << 23, rows: seq![0b111u32, 0b010u32, 0u32, 0u32, 0u32, 0u32, 0u32, 0u32] }
    } else if i == 24 {
        PieceModel { width: 3, height: 2, group_mask: 0b1111u128 << 23, rows: seq![0b010u32, 0b111u32, 0u32, 0u32, 0u32, 0u32, 0u32, 0u32] }
    } else if i == 25 {
        PieceModel { width: 2, height: 3, group_mask: 0b1111u128 << 23, rows: seq![0b10u32, 0b11u32, 0b10u32, 0u32, 0u32, 0u32, 0u32, 0u32] }
    } else if i == 26 {
        PieceModel { width: 2, height: 3, group_mask: 0b1111u128 << 23, rows: seq![0b01u32, 0b11u32, 0b01u32, 0u32, 0u32, 0u32, 0u32, 0u32] }
    // XX
    // XX - 1 orientation
    } else if i == 27 {
        PieceModel { width: 2, height: 2, group_mask: 0b1u128 << 27, rows: seq![0b11u32, 0b11u32, 0u32, 0u32, 0u32, 0u32, 0u32, 0u32] }
    // 5 tile pieces
    // XXXXX - 2 orientations
    } else if i == 28 {
        PieceModel { width: 5, height: 1, group_mask: 0b11u128 << 28, rows: seq![0b11111u32, 0u32, 0u32, 0u32, 0u32, 0u32, 0u32, 0u32] }
    } else if i == 29 {
        PieceModel { width: 1, height: 5, group_mask: 0b11u128 << 28, rows: seq![0b1u32, 0b1u32, 0b1u32, 0b1u32, 0b1u32, 0u32, 0u32, 0u32] }
    //  XX
    // XX
    //  X - 8 orientations
    } else if i == 30 {
        PieceModel { width: 3, height: 3, group_mask: 0b11111111u128 << 30, rows: seq![0b110u32, 0b011u32, 0b010u32, 0u32, 0u32, 0u32, 0u32, 0u32] }
    } else if i == 31 {
        PieceModel { width: 3, height: 3, group_mask: 0b11111111u128 << 30, rows: seq![0b011u32, 0b110u32, 0b010u32, 0u32, 0u32, 0u32, 0u32, 0u32] }
    } else if i == 32 {
        PieceModel { width: 3, height: 3, group_mask: 0b11111111u128 << 30, rows: seq![0b010u32, 0b110u32, 0b011u32, 0u32, 0u32, 0u32, 0u32, 0u32] }
    } else if i == 33 {
        PieceModel { width: 3, height: 3, group_mask: 0b11111111u128 << 30, rows: seq![0b010u32, 0b011u32, 0b110u32, 0u32, 0u32, 0u32, 0u32, 0u32] }
    } else if i == 34 {
        PieceModel { width: 3, height: 3, group_mask: 0b11111111u128 << 30, rows: seq![0b010u32, 0b111u32, 0b001u32, 0u32, 0u32, 0u32, 0u32, 0u32] }
    } else if i == 35 {
        PieceModel { width: 3, height: 3, group_mask: 0b11111111u128 << 30, rows: seq![0b001u32, 0b111u32, 0b010u32, 0u32, 0u32, 0u32, 0u32, 0u32] }
    } else if i == 36 {
        PieceModel { width: 3, height: 3, group_mask: 0b11111111u128 << 30, rows: seq![0b010u32, 0b111u32, 0b100u32, 0u32, 0u32, 0u32, 0u32, 0u32] }
    } else {
        PieceModel { width: 3, height: 3, group_mask: 0b11111111u128 << 30, rows: seq![0b100u32, 0b111u32, 0b010u32, 0u32, 0u32, 0u32, 0u32, 0u32] }
    }
}

pub open spec fn catalog_c(i: int) -> PieceModel {
    // XXXX
    // X    - 8 orientations
    if i == 38 {
        PieceModel { width: 4, height: 2, group_mask: 0b11111111u128 << 38, rows: seq![0b1111u32, 0b0001u32, 0u32, 0u32, 0u32, 0u32, 0u32, 0u32] }
    } else if i == 39 {
        PieceModel { width: 4, height: 2, group_mask: 0b11111111u128 << 38, rows: seq![0b1111u32, 0b1000u32, 0u32, 0u32, 0u32, 0u32, 0u32, 0u32] }
    } else if i == 40 {
        PieceModel { width: 4, height: 2, group_mask: 0b11111111u128 << 38, rows: seq![0b1000u32, 0b1111u32, 0u32, 0u32, 0u32, 0u32, 0u32, 0u32] }
    } else if i == 41 {
        PieceModel { width: 4, height: 2, group_mask: 0b11111111u128 << 38, rows: seq![0b0001u32, 0b1111u32, 0u32, 0u32, 0u32, 0u32, 0u32, 0u32] }
    } else if i == 42 {
        PieceModel { width: 2, height: 4, group_mask: 0b11111111u128 << 38, rows: seq![0b11u32, 0b10u32, 0b10u32, 0b10u32, 0u32, 0u32, 0u32, 0u32] }
    } else if i == 43 {
        PieceModel { width: 2, height: 4, group_mask: 0b11111111u128 << 38, rows: seq![0b11u32, 0b01u32, 0b01u32, 0b01u32, 0u32, 0u32, 0u32, 0u32] }
    } else if i == 44 {
        PieceModel { width: 2, height: 4, group_mask: 0b11111111u128 << 38, rows: seq![0b10u32, 0b10u32, 0b10u32, 0b11u32, 0u32, 0u32, 0u32, 0u32] }
    } else if i == 45 {
        PieceModel { width: 2, height: 4, group_mask: 0b11111111u128 << 38, rows: seq![0b01u32, 0b01u32, 0b01u32, 0b11u32, 0u32, 0u32, 0u32, 0u32] }
    // XXX
    //   XX - 8 orientations
    } else if i == 46 {
        PieceModel { width: 4, height: 2, group_mask: 0b11111111u128 << 46, rows: seq![0b1110u32, 0b0011u32, 0b0u32, 0u32, 0u32, 0u32, 0u32, 0u32] }
    } else if i == 47 {
        PieceModel { width: 4, height: 2, group_mask: 0b11111111u128 << 46, rows: seq![0b0111u32, 0b1100u32, 0b0u32, 0u32, 0u32, 0u32, 0u32, 0u32] }
    } else if i == 48 {
        PieceModel { width: 4, height: 2, group_mask: 0b11111111u128 << 46, rows: seq![0b0011u32, 0b1110u32, 0b0u32, 0u32, 0u32, 0u32, 0u32, 0u32] }
    } else if i == 49 {
        PieceModel { width: 4, height: 2, group_mask: 0b11111111u128 << 46, rows: seq![0b1100u32, 0b0111u32, 0b0u32, 0u32, 0u32, 0u32, 0u32, 0u32] }
    } else if i == 50 {
        PieceModel { width: 2, height: 4, group_mask: 0b11111111u128 << 46, rows: seq![0b10u32, 0b10u32, 0b11u32, 0b01u32, 0u32, 0u32, 0u32, 0u32] }
    } else if i == 51 {
        PieceModel { width: 2, height: 4, group_mask: 0b11111111u128 << 46, rows: seq![0b01u32, 0b01u32, 0b11u32, 0b10u32, 0u32, 0u32, 0u32, 0u32] }
    } else if i == 52 {
        PieceModel { width: 2, height: 4, group_mask: 0b11111111u128 << 46, rows: seq![0b10u32, 0b11u32, 0b01u32, 0b01u32, 0u32, 0u32, 0u32, 0u32] }
    } else if i == 53 {
        PieceModel { width: 2, height: 4, group_mask: 0b11111111u128 << 46, rows: seq![0b01u32, 0b11u32, 0b10u32, 0b10u32, 0u32, 0u32, 0u32, 0u32] }
    // XX
    // XXX - 8 orientations
    } else if i == 54 {
        PieceModel { width: 3, height: 2, group_mask: 0b11111111u128 << 54, rows: seq![0b110u32, 0b111u32, 0u32, 0u32, 0u32, 0u32, 0u32, 0u32] }
    } else if i == 55 {
        PieceModel { width: 3, height: 2, group_mask: 0b11111111u128 << 54, rows: seq![0b111u32, 0b110u32, 0u32, 0u32, 0u32, 0u32, 0u32, 0u32] }
    } else {
        PieceModel { width: 3, height: 2, group_mask: 0b11111111u128 << 54, rows: seq![0b011u32, 0b111u32, 0u32, 0u32, 0u32, 0u32, 0u32, 0u32] }
    }
}

pub open spec fn catalog_d(i: int) -> PieceModel {
    if i == 57 {
        PieceModel { width: 3, height: 2, group_mask: 0b11111111u128 << 54, rows: seq![0b111u32, 0b011u32, 0u32, 0u32, 0u32, 0u32, 0u32, 0u32] }
    } else if i == 58 {
        PieceModel { width: 2, height: 3, group_mask: 0b11111111u128 << 54, rows: seq![0b11u32, 0b11u32, 0b01u32, 0u32, 0u32, 0u32, 0u32, 0u32] }
    } else if i == 59 {
        PieceModel { width: 2, height: 3, group_mask: 0b11111111u128 << 54, rows: seq![0b11u32, 0b11u32, 0b10u32, 0u32, 0u32, 0u32, 0u32, 0u32] }
    } else if i == 60 {
        PieceModel { width: 2, height: 3, group_mask: 0b11111111u128 << 54, rows: seq![0b01u32, 0b11u32, 0b11u32, 0u32, 0u32, 0u32, 0u32, 0u32] }
    } else if i == 61 {
        PieceModel { width: 2, height: 3, group_mask: 0b11111111u128 << 54, rows: seq![0b10u32, 0b11u32, 0b11u32, 0u32, 0u32, 0u32, 0u32, 0u32] }
    // XXX
    //  X
    //  X - 4 orientations
    } else if i == 62 {
        PieceModel { width: 3, height: 3, group_mask: 0b1111u128 << 62, rows: seq![0b111u32, 0b010u32, 0b010u32, 0u32, 0u32, 0u32, 0u32, 0u32] }
    } else if i == 63 {
        PieceModel { width: 3, height: 3, group_mask: 0b1111u128 << 62, rows: seq![0b010u32, 0b010u32, 0b111u32, 0u32, 0u32, 0u32, 0u32, 0u32] }
    } else if i == 64 {
        PieceModel { width: 3, height: 3, group_mask: 0b1111u128 << 62, rows: seq![0b001u32, 0b111u32, 0b001u32, 0u32, 0u32, 0u32, 0u32, 0u32] }
    } else if i == 65 {
        PieceModel { width: 3, height: 3, group_mask: 0b1111u128 << 62, rows: seq![0b100u32, 0b111u32, 0b100u32, 0u32, 0u32, 0u32, 0u32, 0u32] }
    // X X
    // XXX - 4 orientations
    } else if i == 66 {
        PieceModel { width: 3, height: 2, group_mask: 0b1111u128 << 66, rows: seq![0b101u32, 0b111u32, 0u32, 0u32, 0u32, 0u32, 0u32, 0u32] }
    } else if i == 67 {
        PieceModel { width: 3, height: 2, group_mask: 0b1111u128 << 66, rows: seq![0b111u32, 0b101u32, 0u32, 0u32, 0u32, 0u32, 0u32, 0u32] }
    } else if i == 68 {
        PieceModel { width: 2, height: 3, group_mask: 0b1111u128 << 66, rows: seq![0b11u32, 0b10u32, 0b11u32, 0u32, 0u32, 0u32, 0u32, 0u32] }
    } else if i == 69 {
        PieceModel { width: 2, height: 3, group_mask: 0b1111u128 << 66, rows: seq![0b11u32, 0b01u32, 0b11u32, 0u32, 0u32, 0u32, 0u32, 0u32] }
    // X
    // X
    // XXX - 4 orientations
    } else if i == 70 {
        PieceModel { width: 3, height: 3, group_mask: 0b1111u128 << 70, rows: seq![0b100u32, 0b100u32, 0b111u32, 0u32, 0u32, 0u32, 0u32, 0u32] }
    } else if i == 71 {
        PieceModel { width: 3, height: 3, group_mask: 0b1111u128 << 70, rows: seq![0b001u32, 0b001u32, 0b111u32, 0u32, 0u32, 0u32, 0u32, 0u32] }
    } else if i == 72 {
        PieceModel { width: 3, height: 3, group_mask: 0b1111u128 << 70, rows: seq![0b111u32, 0b100u32, 0b100u32, 0u32, 0u32, 0u32, 0u32, 0u32] }
    } else if i == 73 {
        PieceModel { width: 3, height: 3, group_mask: 0b1111u128 << 70, rows: seq![0b111u32, 0b001u32, 0b001u32, 0u32, 0u32, 0u32, 0u32, 0u32] }
    // X
    // XX
    //  XX - 4 orientations
    } else if i == 74 {
        PieceModel { width: 3, height: 3, group_mask: 0b1111u128 << 74, rows: seq![0b100u32, 0b110u32, 0b011u32, 0u32, 0u32, 0u32, 0u32, 0u32] }
    } else {
        PieceModel { width: 3, height: 3, group_mask: 0b1111u128 << 74, rows: seq![0b011u32, 0b110u32, 0b100u32, 0u32, 0u32, 0u32, 0u32, 0u32] }
    }
}

pub open spec fn catalog_e(i: int) -> PieceModel {
    if i == 76 {
        PieceModel { width: 3, height: 3, group_mask: 0b1111u128 << 74, rows: seq![0b001u32, 0b011u32, 0b110u32, 0u32, 0u32, 0u32, 0u32, 0u32] }
    } else if i == 77 {
        PieceModel { width: 3, height: 3, group_mask: 0b1111u128 << 74, rows: seq![0b110u32, 0b011u32, 0b001u32, 0u32, 0u32, 0u32, 0u32, 0u32] }
    //  X
    // XXX
    //  X  - 1 orientation
    } else if i == 78 {
        PieceModel { width: 3, height: 3, group_mask: 0b1u128 << 78, rows: seq![0b010u32, 0b111u32, 0b010u32, 0u32, 0u32, 0u32, 0u32, 0u32] }
    //   X
    // XXXX - 8 orientations
    } else if i == 79 {
        PieceModel { width: 4, height: 2, group_mask: 0b11111111u128 << 79, rows: seq![0b1111u32, 0b0010u32, 0u32, 0u32, 0u32, 0u32, 0u32, 0u32] }
    } else if i == 80 {
        PieceModel { width: 4, height: 2, group_mask: 0b11111111u128 << 79, rows: seq![0b1111u32, 0b0100u32, 0u32, 0u32, 0u32, 0u32, 0u32, 0u32] }
    } else if i == 81 {
        PieceModel { width: 4, height: 2, group_mask: 0b11111111u128 << 79, rows: seq![0b0010u32, 0b1111u32, 0u32, 0u32, 0u32, 0u32, 0u32, 0u32] }
    } else if i == 82 {
        PieceModel { width: 4, height: 2, group_mask: 0b11111111u128 << 79, rows: seq![0b0100u32, 0b1111u32, 0u32, 0u32, 0u32, 0u32, 0u32, 0u32] }
    } else if i == 83 {
        PieceModel { width: 2, height: 4, group_mask: 0b11111111u128 << 79, rows: seq![0b01u32, 0b01u32, 0b11u32, 0b01u32, 0u32, 0u32, 0u32, 0u32] }
    } else if i == 84 {
        PieceModel { width: 2, height: 4, group_mask: 0b11111111u128 << 79, rows: seq![0b01u32, 0b11u32, 0b01u32, 0b01u32, 0u32, 0u32, 0u32, 0u32] }
    } else if i == 85 {
        PieceModel { width: 2, height: 4, group_mask: 0b11111111u128 << 79, rows: seq![0b10u32, 0b10u32, 0b11u32, 0b10u32, 0u32, 0u32, 0u32, 0u32] }
    } else if i == 86 {
        PieceModel { width: 2, height: 4, group_mask: 0b11111111u128 << 79, rows: seq![0b10u32, 0b11u32, 0b10u32, 0b10u32, 0u32, 0u32, 0u32, 0u32] }
    // XX
    //  X
    //  XX - 4 orientations
    } else if i == 87 {
        PieceModel { width: 3, height: 3, group_mask: 0b1111u128 << 87, rows: seq![0b110u32, 0b010u32, 0b011u32, 0u32, 0u32, 0u32, 0u32, 0u32] }
    } else if i == 88 {
        PieceModel { width: 3, height: 3, group_mask: 0b1111u128 << 87, rows: seq![0b011u32, 0b010u32, 0b110u32, 0u32, 0u32, 0u32, 0u32, 0u32] }
    } else if i == 89 {
        PieceModel { width: 3, height: 3, group_mask: 0b1111u128 << 87, rows: seq![0b001u32, 0b111u32, 0b100u32, 0u32, 0u32, 0u32, 0u32, 0u32] }
    } else {
        PieceModel { width: 3, height: 3, group_mask: 0b1111u128 << 87, rows: seq![0b100u32, 0b111u32, 0b001u32, 0u32, 0u32, 0u32, 0u32, 0u32] }
    }
}

/// Entry `i` of the 91-entry catalog of oriented shapes.
pub open spec fn catalog_at(i: int) -> PieceModel {
    if i < 19 {
        catalog_a(i)
    } else if i < 38 {
        catalog_b(i)
    } else if i < 57 {
        catalog_c(i)
    } else if i < 76 {
        catalog_d(i)
    } else {
        catalog_e(i)
    }
}

impl Piece {
    pub fn new(width: u8, height: u8, group_mask: u128, shape_rows: [u32; 8]) -> (r: Piece)
        ensures
            r@.width == width,
            r@.height == height,
            r@.group_mask == group_mask,
            r@.rows == shape_rows@,
    {
        Piece { width, height, group_mask, shape_rows }
    }
}

fn push_block_a(v: &mut Vec<Piece>)
    requires
        old(v)@.len() == 0,
    ensures
        final(v)@.len() == 19,
        forall|i: int| 0 <= i < 19 ==> final(v)@[i]@ == catalog_at(i) && piece_ok(#[trigger] catalog_at(i)),
{
    // 1 tile pieces
    // X - a single orientation
    v.push(Piece::new(1, 1, 0b1u128, [0b1, 0, 0, 0, 0, 0, 0, 0]));
    proof {
        assert(v@[0]@ =~= catalog_at(0));
        assert(piece_ok(catalog_at(0)));
        assert(forall|i: int| 0 <= i < 1 ==> v@[i]@ == catalog_at(i) && piece_ok(#[trigger] catalog_at(i)));
    }
    // 2 tile pieces
    // XX - 2 orientations
    v.push(Piece::new(2, 1, 0b11u128 << 1, [0b11, 0, 0, 0, 0, 0, 0, 0]));
    proof {
        assert(v@[1]@ =~= catalog_at(1));
        assert(piece_ok(catalog_at(1)));
        assert(forall|i: int| 0 <= i < 2 ==> v@[i]@ == catalog_at(i) && piece_ok(#[trigger] catalog_at(i)));
    }
    v.push(Piece::new(1, 2, 0b11u128 << 1, [0b1, 0b1, 0, 0, 0, 0, 0, 0]));
    proof {
        assert(v@[2]@ =~= catalog_at(2));
        assert(piece_ok(catalog_at(2)));
        assert(forall|i: int| 0 <= i < 3 ==> v@[i]@ == catalog_at(i) && piece_ok(#[trigger] catalog_at(i)));
    }
    // 3 tile pieces
    // XXX - 2 orientations
    v.push(Piece::new(3, 1, 0b11u128 << 3, [0b111, 0, 0, 0, 0, 0, 0, 0]));
    proof {
        assert(v@[3]@ =~= catalog_at(3));
        assert(piece_ok(catalog_at(3)));
        assert(forall|i: int| 0 <= i < 4 ==> v@[i]@ == catalog_at(i) && piece_ok(#[trigger] catalog_at(i)));
    }
    v.push(Piece::new(1, 3, 0b11u128 << 3, [0b1, 0b1, 0b1, 0, 0, 0, 0, 0]));
    proof {
        assert(v@[4]@ =~= catalog_at(4));
        assert(piece_ok(catalog_at(4)));
        assert(forall|i: int| 0 <= i < 5 ==> v@[i]@ == catalog_at(i) && piece_ok(#[trigger] catalog_at(i)));
    }
    // XX
    // X  - 4 orientations
    v.push(Piece::new(2, 2, 0b1111u128 << 5, [0b11, 0b1, 0, 0, 0, 0, 0, 0]));
    proof {
        assert(v@[5]@ =~= catalog_at(5));
        assert(piece_ok(catalog_at(5)));
        assert(forall|i: int| 0 <= i < 6 ==> v@[i]@ == catalog_at(i) && piece_ok(#[trigger] catalog_at(i)));
    }
    v.push(Piece::new(2, 2, 0b1111u128 << 5, [0b11, 0b10, 0, 0, 0, 0, 0, 0]));
    proof {
        assert(v@[6]@ =~= catalog_at(6));
        assert(piece_ok(catalog_at(6)));
        assert(forall|i: int| 0 <= i < 7 ==> v@[i]@ == catalog_at(i) && piece_ok(#[trigger] catalog_at(i)));
    }
    v.push(Piece::new(2, 2, 0b1111u128 << 5, [0b1, 0b11, 0, 0, 0, 0, 0, 0]));
    proof {
        assert(v@[7]@ =~= catalog_at(7));
        assert(piece_ok(catalog_at(7)));
        assert(forall|i: int| 0 <= i < 8 ==> v@[i]@ == catalog_at(i) && piece_ok(#[trigger] catalog_at(i)));
    }
    v.push(Piece::new(2, 2, 0b1111u128 << 5, [0b10, 0b11, 0, 0, 0, 0, 0, 0]));
    proof {
        assert(v@[8]@ =~= catalog_at(8));
        assert(piece_ok(catalog_at(8)));
        assert(forall|i: int| 0 <= i < 9 ==> v@[i]@ == catalog_at(i) && piece_ok(#[trigger] catalog_at(i)));
    }
    // 4 tile pieces
    // XXXX - 2 orientations
    v.push(Piece::new(4, 1, 0b11u128 << 9, [0b1111, 0, 0, 0, 0, 0, 0, 0]));
    proof {
        assert(v@[9]@ =~= catalog_at(9));
        assert(piece_ok(catalog_at(9)));
        assert(forall|i: int| 0 <= i < 10 ==> v@[i]@ == catalog_at(i) && piece_ok(#[trigger] catalog_at(i)));
    }
    v.push(Piece::new(1, 4, 0b11u128 << 9, [0b1, 0b1, 0b1, 0b1, 0, 0, 0, 0]));
    proof {
        assert(v@[10]@ =~= catalog_at(10));
        assert(piece_ok(catalog_at(10)));
        assert(forall|i: int| 0 <= i < 11 ==> v@[i]@ == catalog_at(i) && piece_ok(#[trigger] catalog_at(i)));
    }
    // XXX
    // X   - 8 orientations
    v.push(Piece::new(3, 2, 0b11111111u128 << 11, [0b111, 0b1, 0, 0, 0, 0, 0, 0]));
    proof {
        assert(v@[11]@ =~= catalog_at(11));
        assert(piece_ok(catalog_at(11)));
        assert(forall|i: int| 0 <= i < 12 ==> v@[i]@ == catalog_at(i) && piece_ok(#[trigger] catalog_at(i)));
    }
    v.push(Piece::new(3, 2, 0b11111111u128 << 11, [0b111, 0b100, 0, 0, 0, 0, 0, 0]));
    proof {
        assert(v@[12]@ =~= catalog_at(12));
        assert(piece_ok(catalog_at(12)));
        assert(forall|i: int| 0 <= i < 13 ==> v@[i]@ == catalog_at(i) && piece_ok(#[trigger] catalog_at(i)));
    }
    v.push(Piece::new(3, 2, 0b11111111u128 << 11, [0b1, 0b111, 0, 0, 0, 0, 0, 0]));
    proof {
        assert(v@[13]@ =~= catalog_at(13));
        assert(piece_ok(catalog_at(13)));
        assert(forall|i: int| 0 <= i < 14 ==> v@[i]@ == catalog_at(i) && piece_ok(#[trigger] catalog_at(i)));
    }
    v.push(Piece::new(3, 2, 0b11111111u128 << 11, [0b100, 0b111, 0, 0, 0, 0, 0, 0]));
    proof {
        assert(v@[14]@ =~= catalog_at(14));
        assert(piece_ok(catalog_at(14)));
        assert(forall|i: int| 0 <= i < 15 ==> v@[i]@ == catalog_at(i) && piece_ok(#[trigger] catalog_at(i)));
    }
    v.push(Piece::new(2, 3, 0b11111111u128 << 11, [0b11, 0b10, 0b10, 0, 0, 0, 0, 0]));
    proof {
        assert(v@[15]@ =~= catalog_at(15));
        assert(piece_ok(catalog_at(15)));
        assert(forall|i: int| 0 <= i < 16 ==> v@[i]@ == catalog_at(i) && piece_ok(#[trigger] catalog_at(i)));
    }
    v.push(Piece::new(2, 3, 0b11111111u128 << 11, [0b11, 0b1, 0b1, 0, 0, 0, 0, 0]));
    proof {
        assert(v@[16]@ =~= catalog_at(16));
        assert(piece_ok(catalog_at(16)));
        assert(forall|i: int| 0 <= i < 17 ==> v@[i]@ == catalog_at(i) && piece_ok(#[trigger] catalog_at(i)));
    }
    v.push(Piece::new(2, 3, 0b11111111u128 << 11, [0b1, 0b1, 0b11, 0, 0, 0, 0, 0]));
    proof {
        assert(v@[17]@ =~= catalog_at(17));
        assert(piece_ok(catalog_at(17)));
        assert(forall|i: int| 0 <= i < 18 ==> v@[i]@ == catalog_at(i) && piece_ok(#[trigger] catalog_at(i)));
    }
    v.push(Piece::new(2, 3, 0b11111111u128 << 11, [0b10, 0b10, 0b11, 0, 0, 0, 0, 0]));
    proof {
        assert(v@[18]@ =~= catalog_at(18));
        assert(piece_ok(catalog_at(18)));
        assert(forall|i: int| 0 <= i < 19 ==> v@[i]@ == catalog_at(i) && piece_ok(#[trigger] catalog_at(i)));
    }
}

fn push_block_b(v: &mut Vec<Piece>)
    requires
        old(v)@.len() == 19,
        forall|i: int| 0 <= i < 19 ==> old(v)@[i]@ == catalog_at(i) && piece_ok(#[trigger] catalog_at(i)),
    ensures
        final(v)@.len() == 38,
        forall|i: int| 0 <= i < 38 ==> final(v)@[i]@ == catalog_at(i) && piece_ok(#[trigger] catalog_at(i)),
{
    // XX
    //  XX - 4 orientations
    v.push(Piece::new(3, 2, 0b1111u128 << 19, [0b110, 0b011, 0, 0, 0, 0, 0, 0]));
    proof {
        assert(v@[19]@ =~= catalog_at(19));
        assert(piece_ok(catalog_at(19)));
        assert(forall|i: int| 0 <= i < 20 ==> v@[i]@ == catalog_at(i) && piece_ok(#[trigger] catalog_at(i)));
    }
    v.push(Piece::new(3, 2, 0b1111u128 << 19, [0b011, 0b110, 0, 0, 0, 0, 0, 0]));
    proof {
        assert(v@[20]@ =~= catalog_at(20));
        assert(piece_ok(catalog_at(20)));
        assert(forall|i: int| 0 <= i < 21 ==> v@[i]@ == catalog_at(i) && piece_ok(#[trigger] catalog_at(i)));
    }
    v.push(Piece::new(2, 3, 0b1111u128 << 19, [0b10, 0b11, 0b01, 0, 0, 0, 0, 0]));
    proof {
        assert(v@[21]@ =~= catalog_at(21));
        assert(piece_ok(catalog_at(21)));
        assert(forall|i: int| 0 <= i < 22 ==> v@[i]@ == catalog_at(i) && piece_ok(#[trigger] catalog_at(i)));
    }
    v.push(Piece::new(2, 3, 0b1111u128 << 19, [0b01, 0b11, 0b10, 0, 0, 0, 0, 0]));
    proof {
        assert(v@[22]@ =~= catalog_at(22));
        assert(piece_ok(catalog_at(22)));
        assert(forall|i: int| 0 <= i < 23 ==> v@[i]@ == catalog_at(i) && piece_ok(#[trigger] catalog_at(i)));
    }
    // XXX
    //  X - 4 orientations
    v.push(Piece::new(3, 2, 0b1111u128 << 23, [0b111, 0b010, 0, 0, 0, 0, 0, 0]));
    proof {
        assert(v@[23]@ =~= catalog_at(23));
        assert(piece_ok(catalog_at(23)));
        assert(forall|i: int| 0 <= i < 24 ==> v@[i]@ == catalog_at(i) && piece_ok(#[trigger] catalog_at(i)));
    }
    v.push(Piece::new(3, 2, 0b1111u128 << 23, [0b010, 0b111, 0, 0, 0, 0, 0, 0]));
    proof {
        assert(v@[24]@ =~= catalog_at(24));
        assert(piece_ok(catalog_at(24)));
        assert(forall|i: int| 0 <= i < 25 ==> v@[i]@ == catalog_at(i) && piece_ok(#[trigger] catalog_at(i)));
    }
    v.push(Piece::new(2, 3, 0b1111u128 << 23, [0b10, 0b11, 0b10, 0, 0, 0, 0, 0]));
    proof {
        assert(v@[25]@ =~= catalog_at(25));
        assert(piece_ok(catalog_at(25)));
        assert(forall|i: int| 0 <= i < 26 ==> v@[i]@ == catalog_at(i) && piece_ok(#[trigger] catalog_at(i)));
    }
    v.push(Piece::new(2, 3, 0b1111u128 << 23, [0b01, 0b11, 0b01, 0, 0, 0, 0, 0]));
    proof {
        assert(v@[26]@ =~= catalog_at(26));
        assert(piece_ok(catalog_at(26)));
        assert(forall|i: int| 0 <= i < 27 ==> v@[i]@ == catalog_at(i) && piece_ok(#[trigger] catalog_at(i)));
    }
    // XX
    // XX - 1 orientation
    v.push(Piece::new(2, 2, 0b1u128 << 27, [0b11, 0b11, 0, 0, 0, 0, 0, 0]));
    proof {
        assert(v@[27]@ =~= catalog_at(27));
        assert(piece_ok(catalog_at(27)));
        assert(forall|i: int| 0 <= i < 28 ==> v@[i]@ == catalog_at(i) && piece_ok(#[trigger] catalog_at(i)));
    }
    // 5 tile pieces
    // XXXXX - 2 orientations
    v.push(Piece::new(5, 1, 0b11u128 << 28, [0b11111, 0, 0, 0, 0, 0, 0, 0]));
    proof {
        assert(v@[28]@ =~= catalog_at(28));
        assert(piece_ok(catalog_at(28)));
        assert(forall|i: int| 0 <= i < 29 ==> v@[i]@ == catalog_at(i) && piece_ok(#[trigger] catalog_at(i)));
    }
    v.push(Piece::new(1, 5, 0b11u128 << 28, [0b1, 0b1, 0b1, 0b1, 0b1, 0, 0, 0]));
    proof {
        assert(v@[29]@ =~= catalog_at(29));
        assert(piece_ok(catalog_at(29)));
        assert(forall|i: int| 0 <= i < 30 ==> v@[i]@ == catalog_at(i) && piece_ok(#[trigger] catalog_at(i)));
    }
    //  XX
    // XX
    //  X - 8 orientations
    v.push(Piece::new(3, 3, 0b11111111u128 << 30, [0b110, 0b011, 0b010, 0, 0, 0, 0, 0]));
    proof {
        assert(v@[30]@ =~= catalog_at(30));
        assert(piece_ok(catalog_at(30)));
        assert(forall|i: int| 0 <= i < 31 ==> v@[i]@ == catalog_at(i) && piece_ok(#[trigger] catalog_at(i)));
    }
    v.push(Piece::new(3, 3, 0b11111111u128 << 30, [0b011, 0b110, 0b010, 0, 0, 0, 0, 0]));
    proof {
        assert(v@[31]@ =~= catalog_at(31));
        assert(piece_ok(catalog_at(31)));
        assert(forall|i: int| 0 <= i < 32 ==> v@[i]@ == catalog_at(i) && piece_ok(#[trigger] catalog_at(i)));
    }
    v.push(Piece::new(3, 3, 0b11111111u128 << 30, [0b010, 0b110, 0b011, 0, 0, 0, 0, 0]));
    proof {
        assert(v@[32]@ =~= catalog_at(32));
        assert(piece_ok(catalog_at(32)));
        assert(forall|i: int| 0 <= i < 33 ==> v@[i]@ == catalog_at(i) && piece_ok(#[trigger] catalog_at(i)));
    }
    v.push(Piece::new(3, 3, 0b11111111u128 << 30, [0b010, 0b011, 0b110, 0, 0, 0, 0, 0]));
    proof {
        assert(v@[33]@ =~= catalog_at(33));
        assert(piece_ok(catalog_at(33)));
        assert(forall|i: int| 0 <= i < 34 ==> v@[i]@ == catalog_at(i) && piece_ok(#[trigger] catalog_at(i)));
    }
    v.push(Piece::new(3, 3, 0b11111111u128 << 30, [0b010, 0b111, 0b001, 0, 0, 0, 0, 0]));
    proof {
        assert(v@[34]@ =~= catalog_at(34));
        assert(piece_ok(catalog_at(34)));
        assert(forall|i: int| 0 <= i < 35 ==> v@[i]@ == catalog_at(i) && piece_ok(#[trigger] catalog_at(i)));
    }
    v.push(Piece::new(3, 3, 0b11111111u128 << 30, [0b001, 0b111, 0b010, 0, 0, 0, 0, 0]));
    proof {
        assert(v@[35]@ =~= catalog_at(35));
        assert(piece_ok(catalog_at(35)));
        assert(forall|i: int| 0 <= i < 36 ==> v@[i]@ == catalog_at(i) && piece_ok(#[trigger] catalog_at(i)));
    }
    v.push(Piece::new(3, 3, 0b11111111u128 << 30, [0b010, 0b111, 0b100, 0, 0, 0, 0, 0]));
    proof {
        assert(v@[36]@ =~= catalog_at(36));
        assert(piece_ok(catalog_at(36)));
        assert(forall|i: int| 0 <= i < 37 ==> v@[i]@ == catalog_at(i) && piece_ok(#[trigger] catalog_at(i)));
    }
    v.push(Piece::new(3, 3, 0b11111111u128 << 30, [0b100, 0b111, 0b010, 0, 0, 0, 0, 0]));
    proof {
        assert(v@[37]@ =~= catalog_at(37));
        assert(piece_ok(catalog_at(37)));
        assert(forall|i: int| 0 <= i < 38 ==> v@[i]@ == catalog_at(i) && piece_ok(#[trigger] catalog_at(i)));
    }
}

fn push_block_c(v: &mut Vec<Piece>)
    requires
        old(v)@.len() == 38,
        forall|i: int| 0 <= i < 38 ==> old(v)@[i]@ == catalog_at(i) && piece_ok(#[trigger] catalog_at(i)),
    ensures
        final(v)@.len() == 57,
        forall|i: int| 0 <= i < 57 ==> final(v)@[i]@ == catalog_at(i) && piece_ok(#[trigger] catalog_at(i)),
{
    // XXXX
    // X    - 8 orientations
    v.push(Piece::new(4, 2, 0b11111111u128 << 38, [0b1111, 0b0001, 0, 0, 0, 0, 0, 0]));
    proof {
        assert(v@[38]@ =~= catalog_at(38));
        assert(piece_ok(catalog_at(38)));
        assert(forall|i: int| 0 <= i < 39 ==> v@[i]@ == catalog_at(i) && piece_ok(#[trigger] catalog_at(i)));
    }
    v.push(Piece::new(4, 2, 0b11111111u128 << 38, [0b1111, 0b1000, 0, 0, 0, 0, 0, 0]));
    proof {
        assert(v@[39]@ =~= catalog_at(39));
        assert(piece_ok(catalog_at(39)));
        assert(forall|i: int| 0 <= i < 40 ==> v@[i]@ == catalog_at(i) && piece_ok(#[trigger] catalog_at(i)));
    }
    v.push(Piece::new(4, 2, 0b11111111u128 << 38, [0b1000, 0b1111, 0, 0, 0, 0, 0, 0]));
    proof {
        assert(v@[40]@ =~= catalog_at(40));
        assert(piece_ok(catalog_at(40)));
        assert(forall|i: int| 0 <= i < 41 ==> v@[i]@ == catalog_at(i) && piece_ok(#[trigger] catalog_at(i)));
    }
    v.push(Piece::new(4, 2, 0b11111111u128 << 38, [0b0001, 0b1111, 0, 0, 0, 0, 0, 0]));
    proof {
        assert(v@[41]@ =~= catalog_at(41));
        assert(piece_ok(catalog_at(41)));
        assert(forall|i: int| 0 <= i < 42 ==> v@[i]@ == catalog_at(i) && piece_ok(#[trigger] catalog_at(i)));
    }
    v.push(Piece::new(2, 4, 0b11111111u128 << 38, [0b11, 0b10, 0b10, 0b10, 0, 0, 0, 0]));
    proof {
        assert(v@[42]@ =~= catalog_at(42));
        assert(piece_ok(catalog_at(42)));
        assert(forall|i: int| 0 <= i < 43 ==> v@[i]@ == catalog_at(i) && piece_ok(#[trigger] catalog_at(i)));
    }
    v.push(Piece::new(2, 4, 0b11111111u128 << 38, [0b11, 0b01, 0b01, 0b01, 0, 0, 0, 0]));
    proof {
        assert(v@[43]@ =~= catalog_at(43));
        assert(piece_ok(catalog_at(43)));
        assert(forall|i: int| 0 <= i < 44 ==> v@[i]@ == catalog_at(i) && piece_ok(#[trigger] catalog_at(i)));
    }
    v.push(Piece::new(2, 4, 0b11111111u128 << 38, [0b10, 0b10, 0b10, 0b11, 0, 0, 0, 0]));
    proof {
        assert(v@[44]@ =~= catalog_at(44));
        assert(piece_ok(catalog_at(44)));
        assert(forall|i: int| 0 <= i < 45 ==> v@[i]@ == catalog_at(i) && piece_ok(#[trigger] catalog_at(i)));
    }
    v.push(Piece::new(2, 4, 0b11111111u128 << 38, [0b01, 0b01, 0b01, 0b11, 0, 0, 0, 0]));
    proof {
        assert(v@[45]@ =~= catalog_at(45));
        assert(piece_ok(catalog_at(45)));
        assert(forall|i: int| 0 <= i < 46 ==> v@[i]@ == catalog_at(i) && piece_ok(#[trigger] catalog_at(i)));
    }
    // XXX
    //   XX - 8 orientations
    v.push(Piece::new(4, 2, 0b11111111u128 << 46, [0b1110, 0b0011, 0b0, 0, 0, 0, 0, 0]));
    proof {
        assert(v@[46]@ =~= catalog_at(46));
        assert(piece_ok(catalog_at(46)));
        assert(forall|i: int| 0 <= i < 47 ==> v@[i]@ == catalog_at(i) && piece_ok(#[trigger] catalog_at(i)));
    }
    v.push(Piece::new(4, 2, 0b11111111u128 << 46, [0b0111, 0b1100, 0b0, 0, 0, 0, 0, 0]));
    proof {
        assert(v@[47]@ =~= catalog_at(47));
        assert(piece_ok(catalog_at(47)));
        assert(forall|i: int| 0 <= i < 48 ==> v@[i]@ == catalog_at(i) && piece_ok(#[trigger] catalog_at(i)));
    }
    v.push(Piece::new(4, 2, 0b11111111u128 << 46, [0b0011, 0b1110, 0b0, 0, 0, 0, 0, 0]));
    proof {
        assert(v@[48]@ =~= catalog_at(48));
        assert(piece_ok(catalog_at(48)));
        assert(forall|i: int| 0 <= i < 49 ==> v@[i]@ == catalog_at(i) && piece_ok(#[trigger] catalog_at(i)));
    }
    v.push(Piece::new(4, 2, 0b11111111u128 << 46, [0b1100, 0b0111, 0b0, 0, 0, 0, 0, 0]));
    proof {
        assert(v@[49]@ =~= catalog_at(49));
        assert(piece_ok(catalog_at(49)));
        assert(forall|i: int| 0 <= i < 50 ==> v@[i]@ == catalog_at(i) && piece_ok(#[trigger] catalog_at(i)));
    }
    v.push(Piece::new(2, 4, 0b11111111u128 << 46, [0b10, 0b10, 0b11, 0b01, 0, 0, 0, 0]));
    proof {
        assert(v@[50]@ =~= catalog_at(50));
        assert(piece_ok(catalog_at(50)));
        assert(forall|i: int| 0 <= i < 51 ==> v@[i]@ == catalog_at(i) && piece_ok(#[trigger] catalog_at(i)));
    }
    v.push(Piece::new(2, 4, 0b11111111u128 << 46, [0b01, 0b01, 0b11, 0b10, 0, 0, 0, 0]));
    proof {
        assert(v@[51]@ =~= catalog_at(51));
        assert(piece_ok(catalog_at(51)));
        assert(forall|i: int| 0 <= i < 52 ==> v@[i]@ == catalog_at(i) && piece_ok(#[trigger] catalog_at(i)));
    }
    v.push(Piece::new(2, 4, 0b11111111u128 << 46, [0b10, 0b11, 0b01, 0b01, 0, 0, 0, 0]));
    proof {
        assert(v@[52]@ =~= catalog_at(52));
        assert(piece_ok(catalog_at(52)));
        assert(forall|i: int| 0 <= i < 53 ==> v@[i]@ == catalog_at(i) && piece_ok(#[trigger] catalog_at(i)));
    }
    v.push(Piece::new(2, 4, 0b11111111u128 << 46, [0b01, 0b11, 0b10, 0b10, 0, 0, 0, 0]));
    proof {
        assert(v@[53]@ =~= catalog_at(53));
        assert(piece_ok(catalog_at(53)));
        assert(forall|i: int| 0 <= i < 54 ==> v@[i]@ == catalog_at(i) && piece_ok(#[trigger] catalog_at(i)));
    }
    // XX
    // XXX - 8 orientations
    v.push(Piece::new(3, 2, 0b11111111u128 << 54, [0b110, 0b111, 0, 0, 0, 0, 0, 0]));
    proof {
        assert(v@[54]@ =~= catalog_at(54));
        assert(piece_ok(catalog_at(54)));
        assert(forall|i: int| 0 <= i < 55 ==> v@[i]@ == catalog_at(i) && piece_ok(#[trigger] catalog_at(i)));
    }
    v.push(Piece::new(3, 2, 0b11111111u128 << 54, [0b111, 0b110, 0, 0, 0, 0, 0, 0]));
    proof {
        assert(v@[55]@ =~= catalog_at(55));
        assert(piece_ok(catalog_at(55)));
        assert(forall|i: int| 0 <= i < 56 ==> v@[i]@ == catalog_at(i) && piece_ok(#[trigger] catalog_at(i)));
    }
    v.push(Piece::new(3, 2, 0b11111111u128 << 54, [0b011, 0b111, 0, 0, 0, 0, 0, 0]));
    proof {
        assert(v@[56]@ =~= catalog_at(56));
        assert(piece_ok(catalog_at(56)));
        assert(forall|i: int| 0 <= i < 57 ==> v@[i]@ == catalog_at(i) && piece_ok(#[trigger] catalog_at(i)));
    }
}

fn push_block_d(v: &mut Vec<Piece>)
    requires
        old(v)@.len() == 57,
        forall|i: int| 0 <= i < 57 ==> old(v)@[i]@ == catalog_at(i) && piece_ok(#[trigger] catalog_at(i)),
    ensures
        final(v)@.len() == 76,
        forall|i: int| 0 <= i < 76 ==> final(v)@[i]@ == catalog_at(i) && piece_ok(#[trigger] catalog_at(i)),
{
    v.push(Piece::new(3, 2, 0b11111111u128 << 54, [0b111, 0b011, 0, 0, 0, 0, 0, 0]));
    proof {
        assert(v@[57]@ =~= catalog_at(57));
        assert(piece_ok(catalog_at(57)));
        assert(forall|i: int| 0 <= i < 58 ==> v@[i]@ == catalog_at(i) && piece_ok(#[trigger] catalog_at(i)));
    }
    v.push(Piece::new(2, 3, 0b11111111u128 << 54, [0b11, 0b11, 0b01, 0, 0, 0, 0, 0]));
    proof {
        assert(v@[58]@ =~= catalog_at(58));
        assert(piece_ok(catalog_at(58)));
        assert(forall|i: int| 0 <= i < 59 ==> v@[i]@ == catalog_at(i) && piece_ok(#[trigger] catalog_at(i)));
    }
    v.push(Piece::new(2, 3, 0b11111111u128 << 54, [0b11, 0b11, 0b10, 0, 0, 0, 0, 0]));
    proof {
        assert(v@[59]@ =~= catalog_at(59));
        assert(piece_ok(catalog_at(59)));
        assert(forall|i: int| 0 <= i < 60 ==> v@[i]@ == catalog_at(i) && piece_ok(#[trigger] catalog_at(i)));
    }
    v.push(Piece::new(2, 3, 0b11111111u128 << 54, [0b01, 0b11, 0b11, 0, 0, 0, 0, 0]));
    proof {
        assert(v@[60]@ =~= catalog_at(60));
        assert(piece_ok(catalog_at(60)));
        assert(forall|i: int| 0 <= i < 61 ==> v@[i]@ == catalog_at(i) && piece_ok(#[trigger] catalog_at(i)));
    }
    v.push(Piece::new(2, 3, 0b11111111u128 << 54, [0b10, 0b11, 0b11, 0, 0, 0, 0, 0]));
    proof {
        assert(v@[61]@ =~= catalog_at(61));
        assert(piece_ok(catalog_at(61)));
        assert(forall|i: int| 0 <= i < 62 ==> v@[i]@ == catalog_at(i) && piece_ok(#[trigger] catalog_at(i)));
    }
    // XXX
    //  X
    //  X - 4 orientations
    v.push(Piece::new(3, 3, 0b1111u128 << 62, [0b111, 0b010, 0b010, 0, 0, 0, 0, 0]));
    proof {
        assert(v@[62]@ =~= catalog_at(62));
        assert(piece_ok(catalog_at(62)));
        assert(forall|i: int| 0 <= i < 63 ==> v@[i]@ == catalog_at(i) && piece_ok(#[trigger] catalog_at(i)));
    }
    v.push(Piece::new(3, 3, 0b1111u128 << 62, [0b010, 0b010, 0b111, 0, 0, 0, 0, 0]));
    proof {
        assert(v@[63]@ =~= catalog_at(63));
        assert(piece_ok(catalog_at(63)));
        assert(forall|i: int| 0 <= i < 64 ==> v@[i]@ == catalog_at(i) && piece_ok(#[trigger] catalog_at(i)));
    }
    v.push(Piece::new(3, 3, 0b1111u128 << 62, [0b001, 0b111, 0b001, 0, 0, 0, 0, 0]));
    proof {
        assert(v@[64]@ =~= catalog_at(64));
        assert(piece_ok(catalog_at(64)));
        assert(forall|i: int| 0 <= i < 65 ==> v@[i]@ == catalog_at(i) && piece_ok(#[trigger] catalog_at(i)));
    }
    v.push(Piece::new(3, 3, 0b1111u128 << 62, [0b100, 0b111, 0b100, 0, 0, 0, 0, 0]));
    proof {
        assert(v@[65]@ =~= catalog_at(65));
        assert(piece_ok(catalog_at(65)));
        assert(forall|i: int| 0 <= i < 66 ==> v@[i]@ == catalog_at(i) && piece_ok(#[trigger] catalog_at(i)));
    }
    // X X
    // XXX - 4 orientations
    v.push(Piece::new(3, 2, 0b1111u128 << 66, [0b101, 0b111, 0, 0, 0, 0, 0, 0]));
    proof {
        assert(v@[66]@ =~= catalog_at(66));
        assert(piece_ok(catalog_at(66)));
        assert(forall|i: int| 0 <= i < 67 ==> v@[i]@ == catalog_at(i) && piece_ok(#[trigger] catalog_at(i)));
    }
    v.push(Piece::new(3, 2, 0b1111u128 << 66, [0b111, 0b101, 0, 0, 0, 0, 0, 0]));
    proof {
        assert(v@[67]@ =~= catalog_at(67));
        assert(piece_ok(catalog_at(67)));
        assert(forall|i: int| 0 <= i < 68 ==> v@[i]@ == catalog_at(i) && piece_ok(#[trigger] catalog_at(i)));
    }
    v.push(Piece::new(2, 3, 0b1111u128 << 66, [0b11, 0b10, 0b11, 0, 0, 0, 0, 0]));
    proof {
        assert(v@[68]@ =~= catalog_at(68));
        assert(piece_ok(catalog_at(68)));
        assert(forall|i: int| 0 <= i < 69 ==> v@[i]@ == catalog_at(i) && piece_ok(#[trigger] catalog_at(i)));
    }
    v.push(Piece::new(2, 3, 0b1111u128 << 66, [0b11, 0b01, 0b11, 0, 0, 0, 0, 0]));
    proof {
        assert(v@[69]@ =~= catalog_at(69));
        assert(piece_ok(catalog_at(69)));
        assert(forall|i: int| 0 <= i < 70 ==> v@[i]@ == catalog_at(i) && piece_ok(#[trigger] catalog_at(i)));
    }
    // X
    // X
    // XXX - 4 orientations
    v.push(Piece::new(3, 3, 0b1111u128 << 70, [0b100, 0b100, 0b111, 0, 0, 0, 0, 0]));
    proof {
        assert(v@[70]@ =~= catalog_at(70));
        assert(piece_ok(catalog_at(70)));
        assert(forall|i: int| 0 <= i < 71 ==> v@[i]@ == catalog_at(i) && piece_ok(#[trigger] catalog_at(i)));
    }
    v.push(Piece::new(3, 3, 0b1111u128 << 70, [0b001, 0b001, 0b111, 0, 0, 0, 0, 0]));
    proof {
        assert(v@[71]@ =~= catalog_at(71));
        assert(piece_ok(catalog_at(71)));
        assert(forall|i: int| 0 <= i < 72 ==> v@[i]@ == catalog_at(i) && piece_ok(#[trigger] catalog_at(i)));
    }
    v.push(Piece::new(3, 3, 0b1111u128 << 70, [0b111, 0b100, 0b100, 0, 0, 0, 0, 0]));
    proof {
        assert(v@[72]@ =~= catalog_at(72));
        assert(piece_ok(catalog_at(72)));
        assert(forall|i: int| 0 <= i < 73 ==> v@[i]@ == catalog_at(i) && piece_ok(#[trigger] catalog_at(i)));
    }
    v.push(Piece::new(3, 3, 0b1111u128 << 70, [0b111, 0b001, 0b001, 0, 0, 0, 0, 0]));
    proof {
        assert(v@[73]@ =~= catalog_at(73));
        assert(piece_ok(catalog_at(73)));
        assert(forall|i: int| 0 <= i < 74 ==> v@[i]@ == catalog_at(i) && piece_ok(#[trigger] catalog_at(i)));
    }
    // X
    // XX
    //  XX - 4 orientations
    v.push(Piece::new(3, 3, 0b1111u128 << 74, [0b100, 0b110, 0b011, 0, 0, 0, 0, 0]));
    proof {
        assert(v@[74]@ =~= catalog_at(74));
        assert(piece_ok(catalog_at(74)));
        assert(forall|i: int| 0 <= i < 75 ==> v@[i]@ == catalog_at(i) && piece_ok(#[trigger] catalog_at(i)));
    }
    v.push(Piece::new(3, 3, 0b1111u128 << 74, [0b011, 0b110, 0b100, 0, 0, 0, 0, 0]));
    proof {
        assert(v@[75]@ =~= catalog_at(75));
        assert(piece_ok(catalog_at(75)));
        assert(forall|i: int| 0 <= i < 76 ==> v@[i]@ == catalog_at(i) && piece_ok(#[trigger] catalog_at(i)));
    }
}

fn push_block_e(v: &mut Vec<Piece>)
    requires
        old(v)@.len() == 76,
        forall|i: int| 0 <= i < 76 ==> old(v)@[i]@ == catalog_at(i) && piece_ok(#[trigger] catalog_at(i)),
    ensures
        final(v)@.len() == 91,
        forall|i: int| 0 <= i < 91 ==> final(v)@[i]@ == catalog_at(i) && piece_ok(#[trigger] catalog_at(i)),
{
    v.push(Piece::new(3, 3, 0b1111u128 << 74, [0b001, 0b011, 0b110, 0, 0, 0, 0, 0]));
    proof {
        assert(v@[76]@ =~= catalog_at(76));
        assert(piece_ok(catalog_at(76)));
        assert(forall|i: int| 0 <= i < 77 ==> v@[i]@ == catalog_at(i) && piece_ok(#[trigger] catalog_at(i)));
    }
    v.push(Piece::new(3, 3, 0b1111u128 << 74, [0b110, 0b011, 0b001, 0, 0, 0, 0, 0]));
    proof {
        assert(v@[77]@ =~= catalog_at(77));
        assert(piece_ok(catalog_at(77)));
        assert(forall|i: int| 0 <= i < 78 ==> v@[i]@ == catalog_at(i) && piece_ok(#[trigger] catalog_at(i)));
    }
    //  X
    // XXX
    //  X  - 1 orientation
    v.push(Piece::new(3, 3, 0b1u128 << 78, [0b010, 0b111, 0b010, 0, 0, 0, 0, 0]));
    proof {
        assert(v@[78]@ =~= catalog_at(78));
        assert(piece_ok(catalog_at(78)));
        assert(forall|i: int| 0 <= i < 79 ==> v@[i]@ == catalog_at(i) && piece_ok(#[trigger] catalog_at(i)));
    }
    //   X
    // XXXX - 8 orientations
    v.push(Piece::new(4, 2, 0b11111111u128 << 79, [0b1111, 0b0010, 0, 0, 0, 0, 0, 0]));
    proof {
        assert(v@[79]@ =~= catalog_at(79));
        assert(piece_ok(catalog_at(79)));
        assert(forall|i: int| 0 <= i < 80 ==> v@[i]@ == catalog_at(i) && piece_ok(#[trigger] catalog_at(i)));
    }
    v.push(Piece::new(4, 2, 0b11111111u128 << 79, [0b1111, 0b0100, 0, 0, 0, 0, 0, 0]));
    proof {
        assert(v@[80]@ =~= catalog_at(80));
        assert(piece_ok(catalog_at(80)));
        assert(forall|i: int| 0 <= i < 81 ==> v@[i]@ == catalog_at(i) && piece_ok(#[trigger] catalog_at(i)));
    }
    v.push(Piece::new(4, 2, 0b11111111u128 << 79, [0b0010, 0b1111, 0, 0, 0, 0, 0, 0]));
    proof {
        assert(v@[81]@ =~= catalog_at(81));
        assert(piece_ok(catalog_at(81)));
        assert(forall|i: int| 0 <= i < 82 ==> v@[i]@ == catalog_at(i) && piece_ok(#[trigger] catalog_at(i)));
    }
    v.push(Piece::new(4, 2, 0b11111111u128 << 79, [0b0100, 0b1111, 0, 0, 0, 0, 0, 0]));
    proof {
        assert(v@[82]@ =~= catalog_at(82));
        assert(piece_ok(catalog_at(82)));
        assert(forall|i: int| 0 <= i < 83 ==> v@[i]@ == catalog_at(i) && piece_ok(#[trigger] catalog_at(i)));
    }
    v.push(Piece::new(2, 4, 0b11111111u128 << 79, [0b01, 0b01, 0b11, 0b01, 0, 0, 0, 0]));
    proof {
        assert(v@[83]@ =~= catalog_at(83));
        assert(piece_ok(catalog_at(83)));
        assert(forall|i: int| 0 <= i < 84 ==> v@[i]@ == catalog_at(i) && piece_ok(#[trigger] catalog_at(i)));
    }
    v.push(Piece::new(2, 4, 0b11111111u128 << 79, [0b01, 0b11, 0b01, 0b01, 0, 0, 0, 0]));
    proof {
        assert(v@[84]@ =~= catalog_at(84));
        assert(piece_ok(catalog_at(84)));
        assert(forall|i: int| 0 <= i < 85 ==> v@[i]@ == catalog_at(i) && piece_ok(#[trigger] catalog_at(i)));
    }
    v.push(Piece::new(2, 4, 0b11111111u128 << 79, [0b10, 0b10, 0b11, 0b10, 0, 0, 0, 0]));
    proof {
        assert(v@[85]@ =~= catalog_at(85));
        assert(piece_ok(catalog_at(85)));
        assert(forall|i: int| 0 <= i < 86 ==> v@[i]@ == catalog_at(i) && piece_ok(#[trigger] catalog_at(i)));
    }
    v.push(Piece::new(2, 4, 0b11111111u128 << 79, [0b10, 0b11, 0b10, 0b10, 0, 0, 0, 0]));
    proof {
        assert(v@[86]@ =~= catalog_at(86));
        assert(piece_ok(catalog_at(86)));
        assert(forall|i: int| 0 <= i < 87 ==> v@[i]@ == catalog_at(i) && piece_ok(#[trigger] catalog_at(i)));
    }
    // XX
    //  X
    //  XX - 4 orientations
    v.push(Piece::new(3, 3, 0b1111u128 << 87, [0b110, 0b010, 0b011, 0, 0, 0, 0, 0]));
    proof {
        assert(v@[87]@ =~= catalog_at(87));
        assert(piece_ok(catalog_at(87)));
        assert(forall|i: int| 0 <= i < 88 ==> v@[i]@ == catalog_at(i) && piece_ok(#[trigger] catalog_at(i)));
    }
    v.push(Piece::new(3, 3, 0b1111u128 << 87, [0b011, 0b010, 0b110, 0, 0, 0, 0, 0]));
    proof {
        assert(v@[88]@ =~= catalog_at(88));
        assert(piece_ok(catalog_at(88)));
        assert(forall|i: int| 0 <= i < 89 ==> v@[i]@ == catalog_at(i) && piece_ok(#[trigger] catalog_at(i)));
    }
    v.push(Piece::new(3, 3, 0b1111u128 << 87, [0b001, 0b111, 0b100, 0, 0, 0, 0, 0]));
    proof {
        assert(v@[89]@ =~= catalog_at(89));
        assert(piece_ok(catalog_at(89)));
        assert(forall|i: int| 0 <= i < 90 ==> v@[i]@ == catalog_at(i) && piece_ok(#[trigger] catalog_at(i)));
    }
    v.push(Piece::new(3, 3, 0b1111u128 << 87, [0b100, 0b111, 0b001, 0, 0, 0, 0, 0]));
    proof {
        assert(v@[90]@ =~= catalog_at(90));
        assert(piece_ok(catalog_at(90)));
        assert(forall|i: int| 0 <= i < 91 ==> v@[i]@ == catalog_at(i) && piece_ok(#[trigger] catalog_at(i)));
    }
}

/// The Piece Catalog: the 91 geometrically distinct orientations of the 21
/// polyominoes of one to five tiles, in a fixed order.
pub fn shapes() -> (v: Vec<Piece>)
    ensures
        v@.len() == 91,
        forall|i: int| 0 <= i < 91 ==> v@[i]@ == catalog_at(i) && piece_ok(#[trigger] catalog_at(i)),
{
    let mut v: Vec<Piece> = Vec::new();
    push_block_a(&mut v);
    push_block_b(&mut v);
    push_block_c(&mut v);
    push_block_d(&mut v);
    push_block_e(&mut v);
    v
}

} // verus!
