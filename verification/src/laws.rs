use vstd::prelude::*;

use crate::pieces::catalog_at;
use crate::state::{
    generated_moves, inv_has, move_allowed, move_lt, strictly_ordered, Move, State,
};

verus! {

/// No allowed move hangs off the board: the anchored bounding box of any move
/// owed to a player — in particular of an orientation five columns wide or
/// five rows tall — lies fully within the 20 x 20 grid.
pub proof fn lemma_moves_stay_on_board(s: State, player: int, m: Move)
    requires
        move_allowed(s, player, m),
    ensures
        0 <= m.pos.0,
        0 <= m.pos.1,
        m.pos.0 + catalog_at(m.piece as int).width <= 20,
        m.pos.1 + catalog_at(m.piece as int).height <= 20,
{
}

/// Retiring a whole orientation group from a player's inventory removes
/// exactly that group's moves: on the restricted state no move of the group
/// is allowed, and every move outside the group is allowed exactly as before.
pub proof fn lemma_group_exhausted(s1: State, s2: State, player: int, gid: int, m: Move)
    requires
        0 <= player < 4,
        0 <= gid < 91,
        s2.occ() == s1.occ(),
        s2.corners(player) == s1.corners(player),
        s2.adjacency(player) == s1.adjacency(player),
        s2.inventory_of(player) == s1.inventory_of(player) & !catalog_at(gid).group_mask,
    ensures
        inv_has(catalog_at(gid).group_mask, m.piece as int) ==> !move_allowed(s2, player, m),
        !inv_has(catalog_at(gid).group_mask, m.piece as int) ==> (move_allowed(s2, player, m)
            <==> move_allowed(s1, player, m)),
{
    let a = s1.inventory_of(player);
    let g = catalog_at(gid).group_mask;
    if 0 <= m.piece < 91 {
        let i = m.piece as u128;
        assert((g >> i) & 1 == 1 ==> ((a & !g) >> i) & 1 != 1) by (bit_vector);
        assert((g >> i) & 1 != 1 ==> ((a & !g) >> i) & 1 == (a >> i) & 1) by (bit_vector);
    }
}

/// Strictly ordered sequences with the same members are identical.
proof fn lemma_ordered_unique(r1: Seq<Move>, r2: Seq<Move>)
    requires
        strictly_ordered(r1),
        strictly_ordered(r2),
        forall|m: Move| r1.contains(m) <==> r2.contains(m),
    ensures
        r1 == r2,
    decreases r1.len(),
{
    if r1.len() == 0 {
        if r2.len() > 0 {
            assert(r2.contains(r2[0]));
            assert(r1.contains(r2[0]));
            assert(false);
        }
        assert(r1 =~= r2);
    } else {
        assert(r1.contains(r1[0]));
        assert(r2.contains(r1[0]));
        let j = choose|j: int| 0 <= j < r2.len() && r2[j] == r1[0];
        assert(r2.contains(r2[0]));
        assert(r1.contains(r2[0]));
        let k = choose|k: int| 0 <= k < r1.len() && r1[k] == r2[0];
        if j > 0 && k > 0 {
            assert(move_lt(r2[0], r2[j]));
            assert(move_lt(r1[0], r1[k]));
            assert(false);
        }
        assert(r1[0] == r2[0]);
        let t1 = r1.drop_first();
        let t2 = r2.drop_first();
        assert forall|i: int, j2: int| 0 <= i < j2 < t1.len() implies #[trigger] move_lt(
            t1[i],
            t1[j2],
        ) by {
            assert(t1[i] == r1[i + 1]);
            assert(t1[j2] == r1[j2 + 1]);
            assert(move_lt(r1[i + 1], r1[j2 + 1]));
        }
        assert forall|i: int, j2: int| 0 <= i < j2 < t2.len() implies #[trigger] move_lt(
            t2[i],
            t2[j2],
        ) by {
            assert(t2[i] == r2[i + 1]);
            assert(t2[j2] == r2[j2 + 1]);
            assert(move_lt(r2[i + 1], r2[j2 + 1]));
        }
        assert forall|m: Move| t1.contains(m) implies t2.contains(m) by {
            let i = choose|i: int| 0 <= i < t1.len() && t1[i] == m;
            assert(r1[i + 1] == m);
            assert(r1.contains(m));
            assert(r2.contains(m));
            let jj = choose|jj: int| 0 <= jj < r2.len() && r2[jj] == m;
            if jj == 0 {
                assert(move_lt(r1[0], r1[i + 1]));
                assert(false);
            }
            assert(t2[jj - 1] == m);
            assert(t2.contains(m));
        }
        assert forall|m: Move| t2.contains(m) implies t1.contains(m) by {
            let i = choose|i: int| 0 <= i < t2.len() && t2[i] == m;
            assert(r2[i + 1] == m);
            assert(r2.contains(m));
            assert(r1.contains(m));
            let jj = choose|jj: int| 0 <= jj < r1.len() && r1[jj] == m;
            if jj == 0 {
                assert(move_lt(r2[0], r2[i + 1]));
                assert(false);
            }
            assert(t1[jj - 1] == m);
            assert(t1.contains(m));
        }
        lemma_ordered_unique(t1, t2);
        assert(t1.len() == t2.len());
        assert forall|i: int| 0 <= i < r1.len() implies r1[i] == r2[i] by {
            if i > 0 {
                assert(t1[i - 1] == t2[i - 1]);
                assert(r1[i] == t1[i - 1]);
                assert(r2[i] == t2[i - 1]);
            }
        }
        assert(r1 =~= r2);
    }
}

/// Move generation is a function of the board state alone: any two move lists
/// that satisfy `get_moves`'s contract for the same state and player are equal,
/// order and contents — so two calls on an unmodified state yield identical
/// sequences.
pub proof fn lemma_generation_deterministic(s: State, player: int, r1: Seq<Move>, r2: Seq<Move>)
    requires
        generated_moves(s, player, r1),
        generated_moves(s, player, r2),
    ensures
        r1 == r2,
{
    assert forall|m: Move| r1.contains(m) implies r2.contains(m) by {
        let i = choose|i: int| 0 <= i < r1.len() && r1[i] == m;
        assert(move_allowed(s, player, r1[i]));
    }
    assert forall|m: Move| r2.contains(m) implies r1.contains(m) by {
        let i = choose|i: int| 0 <= i < r2.len() && r2[i] == m;
        assert(move_allowed(s, player, r2[i]));
    }
    lemma_ordered_unique(r1, r2);
}

/// Every orientation id is a member of its own group: the bit of the id
/// itself is set in its `group_mask`, so retiring a group retires the played
/// orientation too.
pub proof fn lemma_group_self_membership(i: int)
    requires
        0 <= i < 91,
    ensures
        inv_has(catalog_at(i).group_mask, i),
{
    assert(((0b1u128) >> 0) & 1 == 1
        && ((0b11u128 << 1) >> 1) & 1 == 1
        && ((0b11u128 << 1) >> 2) & 1 == 1
        && ((0b11u128 << 3) >> 3) & 1 == 1
        && ((0b11u128 << 3) >> 4) & 1 == 1
        && ((0b1111u128 << 5) >> 5) & 1 == 1
        && ((0b1111u128 << 5) >> 6) & 1 == 1
        && ((0b1111u128 << 5) >> 7) & 1 == 1
        && ((0b1111u128 << 5) >> 8) & 1 == 1
        && ((0b11u128 << 9) >> 9) & 1 == 1
        && ((0b11u128 << 9) >> 10) & 1 == 1
        && ((0b11111111u128 << 11) >> 11) & 1 == 1
        && ((0b11111111u128 << 11) >> 12) & 1 == 1
        && ((0b11111111u128 << 11) >> 13) & 1 == 1
        && ((0b11111111u128 << 11) >> 14) & 1 == 1
        && ((0b11111111u128 << 11) >> 15) & 1 == 1
        && ((0b11111111u128 << 11) >> 16) & 1 == 1
        && ((0b11111111u128 << 11) >> 17) & 1 == 1
        && ((0b11111111u128 << 11) >> 18) & 1 == 1
        && ((0b1111u128 << 19) >> 19) & 1 == 1
        && ((0b1111u128 << 19) >> 20) & 1 == 1
        && ((0b1111u128 << 19) >> 21) & 1 == 1
        && ((0b1111u128 << 19) >> 22) & 1 == 1
        && ((0b1111u128 << 23) >> 23) & 1 == 1
        && ((0b1111u128 << 23) >> 24) & 1 == 1
        && ((0b1111u128 << 23) >> 25) & 1 == 1
        && ((0b1111u128 << 23) >> 26) & 1 == 1
        && ((0b1u128 << 27) >> 27) & 1 == 1
        && ((0b11u128 << 28) >> 28) & 1 == 1
        && ((0b11u128 << 28) >> 29) & 1 == 1
        && ((0b11111111u128 << 30) >> 30) & 1 == 1
        && ((0b11111111u128 << 30) >> 31) & 1 == 1
        && ((0b11111111u128 << 30) >> 32) & 1 == 1
        && ((0b11111111u128 << 30) >> 33) & 1 == 1
        && ((0b11111111u128 << 30) >> 34) & 1 == 1
        && ((0b11111111u128 << 30) >> 35) & 1 == 1
        && ((0b11111111u128 << 30) >> 36) & 1 == 1
        && ((0b11111111u128 << 30) >> 37) & 1 == 1
        && ((0b11111111u128 << 38) >> 38) & 1 == 1
        && ((0b11111111u128 << 38) >> 39) & 1 == 1
        && ((0b11111111u128 << 38) >> 40) & 1 == 1
        && ((0b11111111u128 << 38) >> 41) & 1 == 1
        && ((0b11111111u128 << 38) >> 42) & 1 == 1
        && ((0b11111111u128 << 38) >> 43) & 1 == 1
        && ((0b11111111u128 << 38) >> 44) & 1 == 1
        && ((0b11111111u128 << 38) >> 45) & 1 == 1
        && ((0b11111111u128 << 46) >> 46) & 1 == 1
        && ((0b11111111u128 << 46) >> 47) & 1 == 1
        && ((0b11111111u128 << 46) >> 48) & 1 == 1
        && ((0b11111111u128 << 46) >> 49) & 1 == 1
        && ((0b11111111u128 << 46) >> 50) & 1 == 1
        && ((0b11111111u128 << 46) >> 51) & 1 == 1
        && ((0b11111111u128 << 46) >> 52) & 1 == 1
        && ((0b11111111u128 << 46) >> 53) & 1 == 1
        && ((0b11111111u128 << 54) >> 54) & 1 == 1
        && ((0b11111111u128 << 54) >> 55) & 1 == 1
        && ((0b11111111u128 << 54) >> 56) & 1 == 1
        && ((0b11111111u128 << 54) >> 57) & 1 == 1
        && ((0b11111111u128 << 54) >> 58) & 1 == 1
        && ((0b11111111u128 << 54) >> 59) & 1 == 1
        && ((0b11111111u128 << 54) >> 60) & 1 == 1
        && ((0b11111111u128 << 54) >> 61) & 1 == 1
        && ((0b1111u128 << 62) >> 62) & 1 == 1
        && ((0b1111u128 << 62) >> 63) & 1 == 1
        && ((0b1111u128 << 62) >> 64) & 1 == 1
        && ((0b1111u128 << 62) >> 65) & 1 == 1
        && ((0b1111u128 << 66) >> 66) & 1 == 1
        && ((0b1111u128 << 66) >> 67) & 1 == 1
        && ((0b1111u128 << 66) >> 68) & 1 == 1
        && ((0b1111u128 << 66) >> 69) & 1 == 1
        && ((0b1111u128 << 70) >> 70) & 1 == 1
        && ((0b1111u128 << 70) >> 71) & 1 == 1
        && ((0b1111u128 << 70) >> 72) & 1 == 1
        && ((0b1111u128 << 70) >> 73) & 1 == 1
        && ((0b1111u128 << 74) >> 74) & 1 == 1
        && ((0b1111u128 << 74) >> 75) & 1 == 1
        && ((0b1111u128 << 74) >> 76) & 1 == 1
        && ((0b1111u128 << 74) >> 77) & 1 == 1
        && ((0b1u128 << 78) >> 78) & 1 == 1
        && ((0b11111111u128 << 79) >> 79) & 1 == 1
        && ((0b11111111u128 << 79) >> 80) & 1 == 1
        && ((0b11111111u128 << 79) >> 81) & 1 == 1
        && ((0b11111111u128 << 79) >> 82) & 1 == 1
        && ((0b11111111u128 << 79) >> 83) & 1 == 1
        && ((0b11111111u128 << 79) >> 84) & 1 == 1
        && ((0b11111111u128 << 79) >> 85) & 1 == 1
        && ((0b11111111u128 << 79) >> 86) & 1 == 1
        && ((0b1111u128 << 87) >> 87) & 1 == 1
        && ((0b1111u128 << 87) >> 88) & 1 == 1
        && ((0b1111u128 << 87) >> 89) & 1 == 1
        && ((0b1111u128 << 87) >> 90) & 1 == 1) by (bit_vector);
    if i == 0 {
        assert(inv_has(catalog_at(0).group_mask, 0));
    } else if i == 1 {
        assert(inv_has(catalog_at(1).group_mask, 1));
    } else if i == 2 {
        assert(inv_has(catalog_at(2).group_mask, 2));
    } else if i == 3 {
        assert(inv_has(catalog_at(3).group_mask, 3));
    } else if i == 4 {
        assert(inv_has(catalog_at(4).group_mask, 4));
    } else if i == 5 {
        assert(inv_has(catalog_at(5).group_mask, 5));
    } else if i == 6 {
        assert(inv_has(catalog_at(6).group_mask, 6));
    } else if i == 7 {
        assert(inv_has(catalog_at(7).group_mask, 7));
    } else if i == 8 {
        assert(inv_has(catalog_at(8).group_mask, 8));
    } else if i == 9 {
        assert(inv_has(catalog_at(9).group_mask, 9));
    } else if i == 10 {
        assert(inv_has(catalog_at(10).group_mask, 10));
    } else if i == 11 {
        assert(inv_has(catalog_at(11).group_mask, 11));
    } else if i == 12 {
        assert(inv_has(catalog_at(12).group_mask, 12));
    } else if i == 13 {
        assert(inv_has(catalog_at(13).group_mask, 13));
    } else if i == 14 {
        assert(inv_has(catalog_at(14).group_mask, 14));
    } else if i == 15 {
        assert(inv_has(catalog_at(15).group_mask, 15));
    } else if i == 16 {
        assert(inv_has(catalog_at(16).group_mask, 16));
    } else if i == 17 {
        assert(inv_has(catalog_at(17).group_mask, 17));
    } else if i == 18 {
        assert(inv_has(catalog_at(18).group_mask, 18));
    } else if i == 19 {
        assert(inv_has(catalog_at(19).group_mask, 19));
    } else if i == 20 {
        assert(inv_has(catalog_at(20).group_mask, 20));
    } else if i == 21 {
        assert(inv_has(catalog_at(21).group_mask, 21));
    } else if i == 22 {
        assert(inv_has(catalog_at(22).group_mask, 22));
    } else if i == 23 {
        assert(inv_has(catalog_at(23).group_mask, 23));
    } else if i == 24 {
        assert(inv_has(catalog_at(24).group_mask, 24));
    } else if i == 25 {
        assert(inv_has(catalog_at(25).group_mask, 25));
    } else if i == 26 {
        assert(inv_has(catalog_at(26).group_mask, 26));
    } else if i == 27 {
        assert(inv_has(catalog_at(27).group_mask, 27));
    } else if i == 28 {
        assert(inv_has(catalog_at(28).group_mask, 28));
    } else if i == 29 {
        assert(inv_has(catalog_at(29).group_mask, 29));
    } else if i == 30 {
        assert(inv_has(catalog_at(30).group_mask, 30));
    } else if i == 31 {
        assert(inv_has(catalog_at(31).group_mask, 31));
    } else if i == 32 {
        assert(inv_has(catalog_at(32).group_mask, 32));
    } else if i == 33 {
        assert(inv_has(catalog_at(33).group_mask, 33));
    } else if i == 34 {
        assert(inv_has(catalog_at(34).group_mask, 34));
    } else if i == 35 {
        assert(inv_has(catalog_at(35).group_mask, 35));
    } else if i == 36 {
        assert(inv_has(catalog_at(36).group_mask, 36));
    } else if i == 37 {
        assert(inv_has(catalog_at(37).group_mask, 37));
    } else if i == 38 {
        assert(inv_has(catalog_at(38).group_mask, 38));
    } else if i == 39 {
        assert(inv_has(catalog_at(39).group_mask, 39));
    } else if i == 40 {
        assert(inv_has(catalog_at(40).group_mask, 40));
    } else if i == 41 {
        assert(inv_has(catalog_at(41).group_mask, 41));
    } else if i == 42 {
        assert(inv_has(catalog_at(42).group_mask, 42));
    } else if i == 43 {
        assert(inv_has(catalog_at(43).group_mask, 43));
    } else if i == 44 {
        assert(inv_has(catalog_at(44).group_mask, 44));
    } else if i == 45 {
        assert(inv_has(catalog_at(45).group_mask, 45));
    } else if i == 46 {
        assert(inv_has(catalog_at(46).group_mask, 46));
    } else if i == 47 {
        assert(inv_has(catalog_at(47).group_mask, 47));
    } else if i == 48 {
        assert(inv_has(catalog_at(48).group_mask, 48));
    } else if i == 49 {
        assert(inv_has(catalog_at(49).group_mask, 49));
    } else if i == 50 {
        assert(inv_has(catalog_at(50).group_mask, 50));
    } else if i == 51 {
        assert(inv_has(catalog_at(51).group_mask, 51));
    } else if i == 52 {
        assert(inv_has(catalog_at(52).group_mask, 52));
    } else if i == 53 {
        assert(inv_has(catalog_at(53).group_mask, 53));
    } else if i == 54 {
        assert(inv_has(catalog_at(54).group_mask, 54));
    } else if i == 55 {
        assert(inv_has(catalog_at(55).group_mask, 55));
    } else if i == 56 {
        assert(inv_has(catalog_at(56).group_mask, 56));
    } else if i == 57 {
        assert(inv_has(catalog_at(57).group_mask, 57));
    } else if i == 58 {
        assert(inv_has(catalog_at(58).group_mask, 58));
    } else if i == 59 {
        assert(inv_has(catalog_at(59).group_mask, 59));
    } else if i == 60 {
        assert(inv_has(catalog_at(60).group_mask, 60));
    } else if i == 61 {
        assert(inv_has(catalog_at(61).group_mask, 61));
    } else if i == 62 {
        assert(inv_has(catalog_at(62).group_mask, 62));
    } else if i == 63 {
        assert(inv_has(catalog_at(63).group_mask, 63));
    } else if i == 64 {
        assert(inv_has(catalog_at(64).group_mask, 64));
    } else if i == 65 {
        assert(inv_has(catalog_at(65).group_mask, 65));
    } else if i == 66 {
        assert(inv_has(catalog_at(66).group_mask, 66));
    } else if i == 67 {
        assert(inv_has(catalog_at(67).group_mask, 67));
    } else if i == 68 {
        assert(inv_has(catalog_at(68).group_mask, 68));
    } else if i == 69 {
        assert(inv_has(catalog_at(69).group_mask, 69));
    } else if i == 70 {
        assert(inv_has(catalog_at(70).group_mask, 70));
    } else if i == 71 {
        assert(inv_has(catalog_at(71).group_mask, 71));
    } else if i == 72 {
        assert(inv_has(catalog_at(72).group_mask, 72));
    } else if i == 73 {
        assert(inv_has(catalog_at(73).group_mask, 73));
    } else if i == 74 {
        assert(inv_has(catalog_at(74).group_mask, 74));
    } else if i == 75 {
        assert(inv_has(catalog_at(75).group_mask, 75));
    } else if i == 76 {
        assert(inv_has(catalog_at(76).group_mask, 76));
    } else if i == 77 {
        assert(inv_has(catalog_at(77).group_mask, 77));
    } else if i == 78 {
        assert(inv_has(catalog_at(78).group_mask, 78));
    } else if i == 79 {
        assert(inv_has(catalog_at(79).group_mask, 79));
    } else if i == 80 {
        assert(inv_has(catalog_at(80).group_mask, 80));
    } else if i == 81 {
        assert(inv_has(catalog_at(81).group_mask, 81));
    } else if i == 82 {
        assert(inv_has(catalog_at(82).group_mask, 82));
    } else if i == 83 {
        assert(inv_has(catalog_at(83).group_mask, 83));
    } else if i == 84 {
        assert(inv_has(catalog_at(84).group_mask, 84));
    } else if i == 85 {
        assert(inv_has(catalog_at(85).group_mask, 85));
    } else if i == 86 {
        assert(inv_has(catalog_at(86).group_mask, 86));
    } else if i == 87 {
        assert(inv_has(catalog_at(87).group_mask, 87));
    } else if i == 88 {
        assert(inv_has(catalog_at(88).group_mask, 88));
    } else if i == 89 {
        assert(inv_has(catalog_at(89).group_mask, 89));
    } else {
        assert(inv_has(catalog_at(90).group_mask, 90));
    }
}

} // verus!
