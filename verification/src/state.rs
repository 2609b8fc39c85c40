use vstd::prelude::*;

use crate::pieces::{catalog_at, piece_ok, shapes, Piece, PieceModel};

verus! {

/// Rows and columns of the square board.
pub const BOARD_SIZE: usize = 20;

/// Number of players.
pub const PLAYER_COUNT: usize = 4;

/// Number of oriented shapes in the catalog.
pub const PIECE_COUNT: usize = 91;

/// A move: a catalog orientation id and the board cell (column, row) where
/// the orientation's bounding-box top-left corner is anchored.
#[derive(PartialEq, Eq, Hash, PartialOrd, Ord, Debug)]
pub struct Move {
    pub piece: usize,
    pub pos: (i8, i8),
}

impl Clone for Move {
    fn clone(&self) -> (r: Self)
        ensures
            r == *self,
    {
        Move { piece: self.piece, pos: (self.pos.0, self.pos.1) }
    }
}

impl Move {
    pub fn new(piece: usize, pos: (i8, i8)) -> (m: Move)
        ensures
            m.piece == piece,
            m.pos == pos,
    {
        Move { piece, pos }
    }
}

/// Bit `id` of the 91-bit inventory set `inv` is set.
pub open spec fn inv_has(inv: u128, id: int) -> bool {
    (inv >> id) & 1 == 1
}

/// Row `j` of a shape anchored at column `x` shares a set bit with row `y + j`
/// of `board`.
pub open spec fn row_hit(rows: Seq<u32>, x: int, y: int, board: Seq<u32>, j: int) -> bool {
    (rows[j] << x) & board[y + j] != 0
}

/// The shape `rows` (of height `h`) anchored at `(x, y)` covers at least one
/// set bit of `board`.
pub open spec fn overlaps(rows: Seq<u32>, h: int, x: int, y: int, board: Seq<u32>) -> bool {
    exists|j: int| 0 <= j < h && #[trigger] row_hit(rows, x, y, board, j)
}

/// The bounding box of `p` anchored at `(x, y)` lies fully on the board.
pub open spec fn anchor_on_board(p: PieceModel, x: int, y: int) -> bool {
    &&& 0 <= x
    &&& x + p.width <= 20
    &&& 0 <= y
    &&& y + p.height <= 20
}

/// The per-player starting corners, as one bit in one row mask per player.
pub open spec fn start_corner_row(player: int, row: int) -> u32 {
    if player == 0 && row == 0 {
        1u32
    } else if player == 1 && row == 19 {
        1u32
    } else if player == 2 && row == 19 {
        1u32 << 19
    } else if player == 3 && row == 0 {
        1u32 << 19
    } else {
        0u32
    }
}

/// The inventory with all 91 orientation ids on hand.
pub open spec fn full_inventory() -> u128 {
    ((1u128 << 91) - 1) as u128
}

/// The game state: global occupancy, per-player corner-eligibility and
/// adjacency-exclusion bitboards, per-player inventories, and the catalog.
pub struct State {
    /// Union of every player's placed cells, one 20-bit mask per row.
    occupied_mask: Vec<u32>,
    /// Per player, the cells orthogonally adjacent to that player's own cells,
    /// where the same player may never place.
    color_masks: Vec<Vec<u32>>,
    /// Per player, the cells where a new piece may anchor by diagonal contact
    /// (initially only the starting corner).
    corner_masks: Vec<Vec<u32>>,
    /// Per player, the 91-bit set of orientation ids still on hand.
    player_pieces: Vec<u128>,
    /// The piece catalog, built once at construction.
    pieces: Vec<Piece>,
}

impl State {
    /// The occupancy bitboard, one mask per row.
    pub closed spec fn occ(self) -> Seq<u32> {
        self.occupied_mask@
    }

    /// The corner-eligibility bitboard of `player`.
    pub closed spec fn corners(self, player: int) -> Seq<u32> {
        self.corner_masks@[player]@
    }

    /// The adjacency-exclusion bitboard of `player`.
    pub closed spec fn adjacency(self, player: int) -> Seq<u32> {
        self.color_masks@[player]@
    }

    /// The inventory set of `player`.
    pub closed spec fn inventory_of(self, player: int) -> u128 {
        self.player_pieces@[player]
    }

    /// Well-formedness: all bitboards span the 20 rows, all four players are
    /// present, and the stored catalog is the piece catalog.
    pub closed spec fn wf(self) -> bool {
        &&& self.occupied_mask@.len() == 20
        &&& self.color_masks@.len() == 4
        &&& self.corner_masks@.len() == 4
        &&& self.player_pieces@.len() == 4
        &&& forall|p: int| 0 <= p < 4 ==> (#[trigger] self.color_masks@[p])@.len() == 20
        &&& forall|p: int| 0 <= p < 4 ==> (#[trigger] self.corner_masks@[p])@.len() == 20
        &&& self.pieces@.len() == 91
        &&& forall|i: int| 0 <= i < 91 ==> self.pieces@[i]@ == catalog_at(i) && piece_ok(#[trigger] catalog_at(i))
    }
}

/// The three bitboard conditions of the legality predicate: the anchored cells
/// are all unoccupied, none is adjacency-excluded for `player`, and at least
/// one is corner-eligible for `player`.
pub open spec fn masks_admit(s: State, player: int, p: PieceModel, x: int, y: int) -> bool {
    &&& !overlaps(p.rows, p.height as int, x, y, s.occ())
    &&& !overlaps(p.rows, p.height as int, x, y, s.adjacency(player))
    &&& overlaps(p.rows, p.height as int, x, y, s.corners(player))
}

/// The full legality predicate for anchoring `p` at `(x, y)`.
pub open spec fn placement_legal(s: State, player: int, p: PieceModel, x: int, y: int) -> bool {
    anchor_on_board(p, x, y) && masks_admit(s, player, p, x, y)
}

/// `m` is owed to `player` on `s`: its orientation id is on hand and its
/// placement is legal.
pub open spec fn move_allowed(s: State, player: int, m: Move) -> bool {
    &&& 0 <= m.piece < 91
    &&& inv_has(s.inventory_of(player), m.piece as int)
    &&& placement_legal(s, player, catalog_at(m.piece as int), m.pos.0 as int, m.pos.1 as int)
}

/// The generation order: ascending orientation id, then column, then row.
pub open spec fn move_lt(a: Move, b: Move) -> bool {
    ||| a.piece < b.piece
    ||| (a.piece == b.piece && a.pos.0 < b.pos.0)
    ||| (a.piece == b.piece && a.pos.0 == b.pos.0 && a.pos.1 < b.pos.1)
}

/// Every later element is strictly greater: no duplicates, fixed order.
pub open spec fn strictly_ordered(s: Seq<Move>) -> bool {
    forall|i: int, j: int| 0 <= i < j < s.len() ==> #[trigger] move_lt(s[i], s[j])
}

/// `r` is exactly the move list owed to `player` on `s`: every element is an
/// allowed move, every allowed move occurs, and the order is fixed.
pub open spec fn generated_moves(s: State, player: int, r: Seq<Move>) -> bool {
    &&& strictly_ordered(r)
    &&& forall|i: int| 0 <= i < r.len() ==> move_allowed(s, player, #[trigger] r[i])
    &&& forall|m: Move| #[trigger] move_allowed(s, player, m) ==> r.contains(m)
}

/// Extending the height bound of the overlap test by one row adds exactly the
/// test of that row.
proof fn lemma_overlaps_step(rows: Seq<u32>, h: int, x: int, y: int, board: Seq<u32>)
    requires
        0 <= h,
    ensures
        overlaps(rows, h + 1, x, y, board) == (overlaps(rows, h, x, y, board) || row_hit(
            rows,
            x,
            y,
            board,
            h,
        )),
{
    if overlaps(rows, h + 1, x, y, board) {
        let k = choose|k: int| 0 <= k < h + 1 && #[trigger] row_hit(rows, x, y, board, k);
        if k < h {
            assert(overlaps(rows, h, x, y, board));
        }
    }
    if overlaps(rows, h, x, y, board) {
        let k = choose|k: int| 0 <= k < h && #[trigger] row_hit(rows, x, y, board, k);
        assert(0 <= k < h + 1 && row_hit(rows, x, y, board, k));
    }
    if row_hit(rows, x, y, board, h) {
        assert(0 <= h < h + 1 && row_hit(rows, x, y, board, h));
    }
}

/// An element of a sequence is still present in any extension that keeps the
/// original prefix.
proof fn lemma_contains_prefix(pre: Seq<Move>, post: Seq<Move>, m: Move)
    requires
        post.len() >= pre.len(),
        forall|i: int| 0 <= i < pre.len() ==> post[i] == pre[i],
        pre.contains(m),
    ensures
        post.contains(m),
{
    let i = choose|i: int| 0 <= i < pre.len() && pre[i] == m;
    assert(post[i] == m);
}

fn zero_rows() -> (v: Vec<u32>)
    ensures
        v@.len() == 20,
        forall|r: int| 0 <= r < 20 ==> v@[r] == 0u32,
{
    let mut v: Vec<u32> = Vec::new();
    let mut i: usize = 0;
    while i < 20
        invariant
            i <= 20,
            v@.len() == i,
            forall|r: int| 0 <= r < i ==> v@[r] == 0u32,
        decreases 20 - i,
    {
        v.push(0);
        i += 1;
    }
    v
}

fn corner_rows(player: usize) -> (v: Vec<u32>)
    requires
        player < 4,
    ensures
        v@.len() == 20,
        forall|r: int| 0 <= r < 20 ==> v@[r] == start_corner_row(player as int, r),
{
    let mut v = zero_rows();
    if player == 0 {
        v.set(0, 1);
    } else if player == 1 {
        v.set(19, 1);
    } else if player == 2 {
        v.set(19, 1u32 << 19);
    } else {
        v.set(0, 1u32 << 19);
    }
    v
}

impl State {
    /// A fresh game: empty board, only the four starting corners eligible, no
    /// adjacency exclusions, and full inventories.
    pub fn new() -> (s: State)
        ensures
            s.wf(),
            forall|r: int| 0 <= r < 20 ==> s.occ()[r] == 0u32,
            forall|p: int, r: int|
                0 <= p < 4 && 0 <= r < 20 ==> #[trigger] s.adjacency(p)[r] == 0u32,
            forall|p: int, r: int|
                0 <= p < 4 && 0 <= r < 20 ==> #[trigger] s.corners(p)[r] == start_corner_row(p, r),
            forall|p: int| 0 <= p < 4 ==> s.inventory_of(p) == full_inventory(),
    {
        let occupied_mask = zero_rows();
        let mut color_masks: Vec<Vec<u32>> = Vec::new();
        color_masks.push(zero_rows());
        color_masks.push(zero_rows());
        color_masks.push(zero_rows());
        color_masks.push(zero_rows());
        let mut corner_masks: Vec<Vec<u32>> = Vec::new();
        corner_masks.push(corner_rows(0));
        corner_masks.push(corner_rows(1));
        corner_masks.push(corner_rows(2));
        corner_masks.push(corner_rows(3));
        proof {
            assert(1u128 << 91 >= 1) by (bit_vector);
        }
        let full: u128 = (1u128 << 91) - 1;
        let mut player_pieces: Vec<u128> = Vec::new();
        player_pieces.push(full);
        player_pieces.push(full);
        player_pieces.push(full);
        player_pieces.push(full);
        let pieces = shapes();
        State { occupied_mask, color_masks, corner_masks, player_pieces, pieces }
    }

    /// One batched legality test: the three bitboard conditions for anchoring
    /// `pc` at `(x, y)`, each a per-row mask AND.
    fn piece_fits(&self, pc: &Piece, player: usize, x: usize, y: usize) -> (r: bool)
        requires
            self.wf(),
            player < 4,
            piece_ok(pc@),
            x + pc@.width <= 20,
            y + pc@.height <= 20,
        ensures
            r == masks_admit(*self, player as int, pc@, x as int, y as int),
    {
        let h = pc.height as usize;
        let mut corner = false;
        let mut j: usize = 0;
        while j < h
            invariant
                self.wf(),
                player < 4,
                piece_ok(pc@),
                x + pc@.width <= 20,
                y + pc@.height <= 20,
                h == pc@.height,
                j <= h,
                forall|k: int|
                    0 <= k < j ==> !#[trigger] row_hit(pc@.rows, x as int, y as int, self.occ(), k),
                forall|k: int|
                    0 <= k < j ==> !#[trigger] row_hit(
                        pc@.rows,
                        x as int,
                        y as int,
                        self.adjacency(player as int),
                        k,
                    ),
                corner == overlaps(
                    pc@.rows,
                    j as int,
                    x as int,
                    y as int,
                    self.corners(player as int),
                ),
            decreases h - j,
        {
            let row = pc.shape_rows[j] << x;
            if row & self.occupied_mask[y + j] != 0 {
                proof {
                    assert(row_hit(pc@.rows, x as int, y as int, self.occ(), j as int));
                    assert(overlaps(pc@.rows, pc@.height as int, x as int, y as int, self.occ()));
                }
                return false;
            }
            if row & self.color_masks[player][y + j] != 0 {
                proof {
                    assert(row_hit(
                        pc@.rows,
                        x as int,
                        y as int,
                        self.adjacency(player as int),
                        j as int,
                    ));
                    assert(overlaps(
                        pc@.rows,
                        pc@.height as int,
                        x as int,
                        y as int,
                        self.adjacency(player as int),
                    ));
                }
                return false;
            }
            let cor_hit = row & self.corner_masks[player][y + j] != 0;
            proof {
                assert(cor_hit == row_hit(
                    pc@.rows,
                    x as int,
                    y as int,
                    self.corners(player as int),
                    j as int,
                ));
                lemma_overlaps_step(
                    pc@.rows,
                    j as int,
                    x as int,
                    y as int,
                    self.corners(player as int),
                );
            }
            if cor_hit {
                corner = true;
            }
            j += 1;
        }
        proof {
            if overlaps(pc@.rows, pc@.height as int, x as int, y as int, self.occ()) {
                let k = choose|k: int|
                    0 <= k < pc@.height as int && #[trigger] row_hit(
                        pc@.rows,
                        x as int,
                        y as int,
                        self.occ(),
                        k,
                    );
                assert(false);
            }
            if overlaps(
                pc@.rows,
                pc@.height as int,
                x as int,
                y as int,
                self.adjacency(player as int),
            ) {
                let k = choose|k: int|
                    0 <= k < pc@.height as int && #[trigger] row_hit(
                        pc@.rows,
                        x as int,
                        y as int,
                        self.adjacency(player as int),
                        k,
                    );
                assert(false);
            }
        }
        corner
    }
}

impl State {
    /// Scan every anchor of orientation `id` for `player`, appending each
    /// legal move in column-major order.
    fn moves_for_piece(&self, pc: &Piece, id: usize, player: usize, moves: &mut Vec<Move>)
        requires
            self.wf(),
            player < 4,
            id < 91,
            pc@ == catalog_at(id as int),
            piece_ok(pc@),
            strictly_ordered(old(moves)@),
            forall|i: int| 0 <= i < old(moves)@.len() ==> (#[trigger] old(moves)@[i]).piece < id,
        ensures
            final(moves)@.len() >= old(moves)@.len(),
            forall|i: int| 0 <= i < old(moves)@.len() ==> final(moves)@[i] == old(moves)@[i],
            strictly_ordered(final(moves)@),
            forall|i: int|
                old(moves)@.len() <= i < final(moves)@.len() ==> (#[trigger] final(moves)@[i]).piece == id
                    && placement_legal(
                    *self,
                    player as int,
                    catalog_at(id as int),
                    final(moves)@[i].pos.0 as int,
                    final(moves)@[i].pos.1 as int,
                ),
            forall|m: Move|
                m.piece == id && placement_legal(
                    *self,
                    player as int,
                    catalog_at(id as int),
                    m.pos.0 as int,
                    m.pos.1 as int,
                ) ==> #[trigger] final(moves)@.contains(m),
    {
        let w = pc.width as usize;
        let h = pc.height as usize;
        let mut x: usize = 0;
        while x < 21 - w
            invariant
                self.wf(),
                player < 4,
                id < 91,
                pc@ == catalog_at(id as int),
                piece_ok(pc@),
                w == pc@.width,
                h == pc@.height,
                x <= 21 - w,
                moves@.len() >= old(moves)@.len(),
                forall|i: int| 0 <= i < old(moves)@.len() ==> moves@[i] == old(moves)@[i],
                forall|i: int| 0 <= i < old(moves)@.len() ==> (#[trigger] moves@[i]).piece < id,
                strictly_ordered(moves@),
                forall|i: int|
                    old(moves)@.len() <= i < moves@.len() ==> (#[trigger] moves@[i]).piece == id
                        && placement_legal(
                        *self,
                        player as int,
                        catalog_at(id as int),
                        moves@[i].pos.0 as int,
                        moves@[i].pos.1 as int,
                    ) && 0 <= moves@[i].pos.0 < x,
                forall|m: Move|
                    m.piece == id && placement_legal(
                        *self,
                        player as int,
                        catalog_at(id as int),
                        m.pos.0 as int,
                        m.pos.1 as int,
                    ) && m.pos.0 < x ==> #[trigger] moves@.contains(m),
            decreases 21 - w - x,
        {
            let mut y: usize = 0;
            while y < 21 - h
                invariant
                    self.wf(),
                    player < 4,
                    id < 91,
                    pc@ == catalog_at(id as int),
                    piece_ok(pc@),
                    w == pc@.width,
                    h == pc@.height,
                    x < 21 - w,
                    y <= 21 - h,
                    moves@.len() >= old(moves)@.len(),
                    forall|i: int| 0 <= i < old(moves)@.len() ==> moves@[i] == old(moves)@[i],
                    forall|i: int| 0 <= i < old(moves)@.len() ==> (#[trigger] moves@[i]).piece < id,
                    strictly_ordered(moves@),
                    forall|i: int|
                        old(moves)@.len() <= i < moves@.len() ==> (#[trigger] moves@[i]).piece
                            == id && placement_legal(
                            *self,
                            player as int,
                            catalog_at(id as int),
                            moves@[i].pos.0 as int,
                            moves@[i].pos.1 as int,
                        ) && 0 <= moves@[i].pos.0 <= x && (moves@[i].pos.0 == x
                            ==> moves@[i].pos.1 < y),
                    forall|m: Move|
                        m.piece == id && placement_legal(
                            *self,
                            player as int,
                            catalog_at(id as int),
                            m.pos.0 as int,
                            m.pos.1 as int,
                        ) && (m.pos.0 < x || (m.pos.0 == x && m.pos.1 < y))
                            ==> #[trigger] moves@.contains(m),
                decreases 21 - h - y,
            {
                let ghost prev = moves@;
                let fits = self.piece_fits(pc, player, x, y);
                if fits {
                    let m = Move::new(id, (x as i8, y as i8));
                    moves.push(m);
                    proof {
                        assert(moves@ == prev.push(m));
                        assert(placement_legal(
                            *self,
                            player as int,
                            catalog_at(id as int),
                            x as int,
                            y as int,
                        ));
                        assert forall|i: int, j: int|
                            0 <= i < j < moves@.len() implies #[trigger] move_lt(
                            moves@[i],
                            moves@[j],
                        ) by {
                            if j < prev.len() as int {
                                assert(move_lt(prev[i], prev[j]));
                            } else {
                                assert(moves@[j] == m);
                                if i < old(moves)@.len() as int {
                                    assert(prev[i].piece < id);
                                }
                            }
                        }
                    }
                }
                proof {
                    assert forall|mm: Move|
                        mm.piece == id && placement_legal(
                            *self,
                            player as int,
                            catalog_at(id as int),
                            mm.pos.0 as int,
                            mm.pos.1 as int,
                        ) && (mm.pos.0 < x || (mm.pos.0 == x && mm.pos.1 < y + 1)) implies
                        #[trigger] moves@.contains(mm) by {
                        if mm.pos.0 == x && mm.pos.1 == y {
                            assert(masks_admit(
                                *self,
                                player as int,
                                catalog_at(id as int),
                                x as int,
                                y as int,
                            ));
                            assert(fits);
                            let m = Move { piece: id, pos: (x as i8, y as i8) };
                            assert(mm == m);
                            assert(moves@[moves@.len() - 1] == m);
                            assert(moves@.contains(mm));
                        } else {
                            assert(prev.contains(mm));
                            lemma_contains_prefix(prev, moves@, mm);
                        }
                    }
                }
                y += 1;
            }
            proof {
                assert forall|mm: Move|
                    mm.piece == id && placement_legal(
                        *self,
                        player as int,
                        catalog_at(id as int),
                        mm.pos.0 as int,
                        mm.pos.1 as int,
                    ) && mm.pos.0 < x + 1 implies #[trigger] moves@.contains(mm) by {
                    if mm.pos.0 == x {
                        assert(mm.pos.1 + catalog_at(id as int).height <= 20);
                        assert(mm.pos.1 < 21 - h);
                    }
                }
            }
            x += 1;
        }
        proof {
            assert forall|mm: Move|
                mm.piece == id && placement_legal(
                    *self,
                    player as int,
                    catalog_at(id as int),
                    mm.pos.0 as int,
                    mm.pos.1 as int,
                ) implies #[trigger] moves@.contains(mm) by {
                assert(mm.pos.0 + catalog_at(id as int).width <= 20);
                assert(mm.pos.0 < 21 - w);
            }
        }
    }

    /// All legal moves for `player`: for every orientation id still in the
    /// player's inventory, in ascending id order, every anchor at which the
    /// legality predicate holds.
    pub fn get_moves(&self, player: usize) -> (r: Vec<Move>)
        requires
            self.wf(),
            player < PLAYER_COUNT,
        ensures
            generated_moves(*self, player as int, r@),
    {
        let mut moves: Vec<Move> = Vec::new();
        let mut id: usize = 0;
        while id < 91
            invariant
                self.wf(),
                player < 4,
                id <= 91,
                strictly_ordered(moves@),
                forall|i: int| 0 <= i < moves@.len() ==> (#[trigger] moves@[i]).piece < id,
                forall|i: int|
                    0 <= i < moves@.len() ==> move_allowed(
                        *self,
                        player as int,
                        #[trigger] moves@[i],
                    ),
                forall|m: Move|
                    #[trigger] move_allowed(*self, player as int, m) && m.piece < id
                        ==> moves@.contains(m),
            decreases 91 - id,
        {
            let inv = self.player_pieces[player];
            let have = (inv >> id) & 1 == 1;
            proof {
                assert(have == inv_has(self.inventory_of(player as int), id as int));
            }
            if have {
                let ghost prev = moves@;
                let pc = &self.pieces[id];
                self.moves_for_piece(pc, id, player, &mut moves);
                proof {
                    assert forall|i: int|
                        0 <= i < moves@.len() implies move_allowed(
                        *self,
                        player as int,
                        #[trigger] moves@[i],
                    ) by {
                        if i < prev.len() as int {
                            assert(moves@[i] == prev[i]);
                            assert(move_allowed(*self, player as int, prev[i]));
                        } else {
                            assert(moves@[i].piece == id);
                        }
                    }
                    assert forall|m: Move|
                        #[trigger] move_allowed(*self, player as int, m) && m.piece < id + 1 implies
                        moves@.contains(m) by {
                        if m.piece < id {
                            assert(prev.contains(m));
                            lemma_contains_prefix(prev, moves@, m);
                        } else {
                            assert(m.piece == id);
                        }
                    }
                }
            } else {
                proof {
                    assert forall|m: Move|
                        #[trigger] move_allowed(*self, player as int, m) && m.piece < id + 1 implies
                        moves@.contains(m) by {
                        if m.piece == id {
                            assert(inv_has(self.inventory_of(player as int), id as int));
                            assert(false);
                        }
                    }
                }
            }
            id += 1;
        }
        moves
    }
}

impl State {
    /// `count` consecutive occupancy row masks starting at row `offset`.
    pub fn occupancy_window(&self, offset: usize, count: usize) -> (w: Vec<u32>)
        requires
            self.wf(),
            offset + count <= 20,
        ensures
            w@ == self.occ().subrange(offset as int, offset + count),
    {
        let mut w: Vec<u32> = Vec::new();
        let mut i: usize = 0;
        while i < count
            invariant
                self.wf(),
                offset + count <= 20,
                i <= count,
                w@.len() == i,
                forall|k: int| 0 <= k < i ==> w@[k] == self.occ()[offset + k],
            decreases count - i,
        {
            w.push(self.occupied_mask[offset + i]);
            i += 1;
        }
        proof {
            assert(w@ =~= self.occ().subrange(offset as int, offset + count));
        }
        w
    }

    /// `count` consecutive corner-eligibility row masks of `player` starting
    /// at row `offset`.
    pub fn corner_window(&self, player: usize, offset: usize, count: usize) -> (w: Vec<u32>)
        requires
            self.wf(),
            player < PLAYER_COUNT,
            offset + count <= 20,
        ensures
            w@ == self.corners(player as int).subrange(offset as int, offset + count),
    {
        let mut w: Vec<u32> = Vec::new();
        let mut i: usize = 0;
        while i < count
            invariant
                self.wf(),
                player < 4,
                offset + count <= 20,
                i <= count,
                w@.len() == i,
                forall|k: int| 0 <= k < i ==> w@[k] == self.corners(player as int)[offset + k],
            decreases count - i,
        {
            w.push(self.corner_masks[player][offset + i]);
            i += 1;
        }
        proof {
            assert(w@ =~= self.corners(player as int).subrange(offset as int, offset + count));
        }
        w
    }

    /// `count` consecutive adjacency-exclusion row masks of `player` starting
    /// at row `offset`.
    pub fn adjacency_window(&self, player: usize, offset: usize, count: usize) -> (w: Vec<u32>)
        requires
            self.wf(),
            player < PLAYER_COUNT,
            offset + count <= 20,
        ensures
            w@ == self.adjacency(player as int).subrange(offset as int, offset + count),
    {
        let mut w: Vec<u32> = Vec::new();
        let mut i: usize = 0;
        while i < count
            invariant
                self.wf(),
                player < 4,
                offset + count <= 20,
                i <= count,
                w@.len() == i,
                forall|k: int| 0 <= k < i ==> w@[k] == self.adjacency(player as int)[offset + k],
            decreases count - i,
        {
            w.push(self.color_masks[player][offset + i]);
            i += 1;
        }
        proof {
            assert(w@ =~= self.adjacency(player as int).subrange(offset as int, offset + count));
        }
        w
    }

    /// The 91-bit inventory set of `player`.
    pub fn inventory(&self, player: usize) -> (inv: u128)
        requires
            self.wf(),
            player < PLAYER_COUNT,
        ensures
            inv == self.inventory_of(player as int),
    {
        self.player_pieces[player]
    }

    /// Retire orientation `pieceid` and every sibling orientation of the same
    /// base shape from the inventory of `player`; the bitboards are untouched.
    pub fn remove_group(&mut self, player: usize, pieceid: usize)
        requires
            old(self).wf(),
            player < PLAYER_COUNT,
            pieceid < PIECE_COUNT,
        ensures
            final(self).wf(),
            final(self).inventory_of(player as int) == old(self).inventory_of(player as int)
                & !catalog_at(pieceid as int).group_mask,
            forall|p: int|
                0 <= p < 4 && p != player ==> final(self).inventory_of(p)
                    == old(self).inventory_of(p),
            final(self).occ() == old(self).occ(),
            forall|p: int|
                0 <= p < 4 ==> final(self).corners(p) == old(self).corners(p)
                    && final(self).adjacency(p) == old(self).adjacency(p),
    {
        let mask = self.pieces[pieceid].group_mask;
        let cur = self.player_pieces[player];
        self.player_pieces.set(player, cur & !mask);
    }
}

impl Default for State {
    /// Same as `State::new`: a fresh game state.
    fn default() -> (s: Self)
        ensures
            s.wf(),
            forall|r: int| 0 <= r < 20 ==> s.occ()[r] == 0u32,
            forall|p: int, r: int|
                0 <= p < 4 && 0 <= r < 20 ==> #[trigger] s.adjacency(p)[r] == 0u32,
            forall|p: int, r: int|
                0 <= p < 4 && 0 <= r < 20 ==> #[trigger] s.corners(p)[r] == start_corner_row(p, r),
            forall|p: int| 0 <= p < 4 ==> s.inventory_of(p) == full_inventory(),
    {
        State::new()
    }
}

} // verus!


