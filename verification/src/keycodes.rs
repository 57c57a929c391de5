//! The hardware to canonical keycode table.
//!
//! Navigation key presses arrive as platform hardware keycodes; the engine's
//! navigation interface expects canonical cross-platform key codes. The table
//! is built once from six fixed row pairs and is read-only afterwards.

use vstd::prelude::*;
use std::collections::HashMap;

verus! {

broadcast use vstd::std_specs::hash::group_hash_axioms;

/// The canonical key code a hardware keycode maps to, or `None` for an
/// unmapped key. This is the mathematical content of the six fixed rows:
/// space and arrows; the bottom letter row with punctuation; the home row
/// with punctuation; the top letter row with tab and brackets; the number
/// row with backtick, minus, equals and backspace; and escape, the function
/// keys and the navigation block.
pub open spec fn canon_of(k: u16) -> Option<usize> {
    // space and the arrow keys
    if k == 65 { Some(32) } else if k == 113 { Some(37) } else if k == 114 { Some(39) }
    else if k == 111 { Some(38) } else if k == 116 { Some(40) }
    // bottom letter row and punctuation
    else if k == 52 { Some(90) } else if k == 53 { Some(88) } else if k == 54 { Some(67) }
    else if k == 55 { Some(86) } else if k == 56 { Some(66) } else if k == 57 { Some(78) }
    else if k == 58 { Some(77) } else if k == 59 { Some(188) } else if k == 60 { Some(190) }
    else if k == 61 { Some(191) }
    // home row letters and punctuation
    else if k == 38 { Some(65) } else if k == 39 { Some(83) } else if k == 40 { Some(68) }
    else if k == 41 { Some(70) } else if k == 42 { Some(71) } else if k == 43 { Some(72) }
    else if k == 44 { Some(74) } else if k == 45 { Some(75) } else if k == 46 { Some(76) }
    else if k == 47 { Some(59) } else if k == 48 { Some(222) } else if k == 51 { Some(220) }
    else if k == 36 { Some(14) }
    // top letter row, tab and brackets
    else if k == 23 { Some(9) } else if k == 24 { Some(81) } else if k == 25 { Some(87) }
    else if k == 26 { Some(69) } else if k == 27 { Some(82) } else if k == 28 { Some(83) }
    else if k == 29 { Some(89) } else if k == 30 { Some(85) } else if k == 31 { Some(73) }
    else if k == 32 { Some(79) } else if k == 33 { Some(80) } else if k == 34 { Some(168) }
    else if k == 35 { Some(169) }
    // number row, backtick, minus, equals and backspace
    else if k == 49 { Some(192) } else if k == 10 { Some(49) } else if k == 11 { Some(50) }
    else if k == 12 { Some(51) } else if k == 13 { Some(52) } else if k == 14 { Some(53) }
    else if k == 15 { Some(54) } else if k == 16 { Some(55) } else if k == 17 { Some(56) }
    else if k == 18 { Some(57) } else if k == 19 { Some(48) } else if k == 20 { Some(173) }
    else if k == 21 { Some(61) } else if k == 22 { Some(8) }
    // escape, function keys and the navigation block
    else if k == 9 { Some(27) } else if k == 67 { Some(112) } else if k == 68 { Some(113) }
    else if k == 69 { Some(114) } else if k == 70 { Some(115) } else if k == 71 { Some(116) }
    else if k == 72 { Some(117) } else if k == 73 { Some(118) } else if k == 74 { Some(119) }
    else if k == 75 { Some(120) } else if k == 76 { Some(121) } else if k == 95 { Some(122) }
    else if k == 96 { Some(123) } else if k == 118 { Some(45) } else if k == 119 { Some(46) }
    else if k == 110 { Some(36) } else if k == 115 { Some(35) } else if k == 112 { Some(33) }
    else if k == 117 { Some(34) }
    else { None }
}

/// The six hardware rows the table is built from, in construction order.
pub open spec fn hardware_rows() -> Seq<Seq<u16>> {
    seq![
        seq![65u16, 113, 114, 111, 116],
        seq![52u16, 53, 54, 55, 56, 57, 58, 59, 60, 61],
        seq![38u16, 39, 40, 41, 42, 43, 44, 45, 46, 47, 48, 51, 36],
        seq![23u16, 24, 25, 26, 27, 28, 29, 30, 31, 32, 33, 34, 35],
        seq![49u16, 10, 11, 12, 13, 14, 15, 16, 17, 18, 19, 20, 21, 22],
        seq![9u16, 67, 68, 69, 70, 71, 72, 73, 74, 75, 76, 95, 96, 118, 119, 110, 115, 112, 117],
    ]
}

/// The canonical rows paired with `hardware_rows`, position for position.
pub open spec fn web_rows() -> Seq<Seq<usize>> {
    seq![
        seq![32usize, 37, 39, 38, 40],
        seq![90usize, 88, 67, 86, 66, 78, 77, 188, 190, 191],
        seq![65usize, 83, 68, 70, 71, 72, 74, 75, 76, 59, 222, 220, 14],
        seq![9usize, 81, 87, 69, 82, 83, 89, 85, 73, 79, 80, 168, 169],
        seq![192usize, 49, 50, 51, 52, 53, 54, 55, 56, 57, 48, 173, 61, 8],
        seq![
            27usize, 112, 113, 114, 115, 116, 117, 118, 119, 120, 121, 122, 123, 45, 46, 36, 35,
            33, 34,
        ],
    ]
}

/// Each row pair maps position for position: the hardware key at place `i`
/// of row `r` translates to the canonical code at the same place.
pub proof fn lemma_rows_translate(r: int, i: int)
    requires
        0 <= r < hardware_rows().len(),
        0 <= i < hardware_rows()[r].len(),
    ensures
        web_rows().len() == hardware_rows().len(),
        web_rows()[r].len() == hardware_rows()[r].len(),
        canon_of(hardware_rows()[r][i]) == Some(web_rows()[r][i]),
{
}

/// A hardware key that stands in no row translates to nothing.
pub proof fn lemma_unlisted_key_unmapped(k: u16)
    requires
        forall|r: int, i: int|
            0 <= r < hardware_rows().len() && 0 <= i < hardware_rows()[r].len()
                ==> #[trigger] hardware_rows()[r][i] != k,
    ensures
        canon_of(k) is None,
{
    assert(hardware_rows()[0][0] != k);
    assert(hardware_rows()[0][1] != k);
    assert(hardware_rows()[0][2] != k);
    assert(hardware_rows()[0][3] != k);
    assert(hardware_rows()[0][4] != k);
    assert(hardware_rows()[1][0] != k);
    assert(hardware_rows()[1][1] != k);
    assert(hardware_rows()[1][2] != k);
    assert(hardware_rows()[1][3] != k);
    assert(hardware_rows()[1][4] != k);
    assert(hardware_rows()[1][5] != k);
    assert(hardware_rows()[1][6] != k);
    assert(hardware_rows()[1][7] != k);
    assert(hardware_rows()[1][8] != k);
    assert(hardware_rows()[1][9] != k);
    assert(hardware_rows()[2][0] != k);
    assert(hardware_rows()[2][1] != k);
    assert(hardware_rows()[2][2] != k);
    assert(hardware_rows()[2][3] != k);
    assert(hardware_rows()[2][4] != k);
    assert(hardware_rows()[2][5] != k);
    assert(hardware_rows()[2][6] != k);
    assert(hardware_rows()[2][7] != k);
    assert(hardware_rows()[2][8] != k);
    assert(hardware_rows()[2][9] != k);
    assert(hardware_rows()[2][10] != k);
    assert(hardware_rows()[2][11] != k);
    assert(hardware_rows()[2][12] != k);
    assert(hardware_rows()[3][0] != k);
    assert(hardware_rows()[3][1] != k);
    assert(hardware_rows()[3][2] != k);
    assert(hardware_rows()[3][3] != k);
    assert(hardware_rows()[3][4] != k);
    assert(hardware_rows()[3][5] != k);
    assert(hardware_rows()[3][6] != k);
    assert(hardware_rows()[3][7] != k);
    assert(hardware_rows()[3][8] != k);
    assert(hardware_rows()[3][9] != k);
    assert(hardware_rows()[3][10] != k);
    assert(hardware_rows()[3][11] != k);
    assert(hardware_rows()[3][12] != k);
    assert(hardware_rows()[4][0] != k);
    assert(hardware_rows()[4][1] != k);
    assert(hardware_rows()[4][2] != k);
    assert(hardware_rows()[4][3] != k);
    assert(hardware_rows()[4][4] != k);
    assert(hardware_rows()[4][5] != k);
    assert(hardware_rows()[4][6] != k);
    assert(hardware_rows()[4][7] != k);
    assert(hardware_rows()[4][8] != k);
    assert(hardware_rows()[4][9] != k);
    assert(hardware_rows()[4][10] != k);
    assert(hardware_rows()[4][11] != k);
    assert(hardware_rows()[4][12] != k);
    assert(hardware_rows()[4][13] != k);
    assert(hardware_rows()[5][0] != k);
    assert(hardware_rows()[5][1] != k);
    assert(hardware_rows()[5][2] != k);
    assert(hardware_rows()[5][3] != k);
    assert(hardware_rows()[5][4] != k);
    assert(hardware_rows()[5][5] != k);
    assert(hardware_rows()[5][6] != k);
    assert(hardware_rows()[5][7] != k);
    assert(hardware_rows()[5][8] != k);
    assert(hardware_rows()[5][9] != k);
    assert(hardware_rows()[5][10] != k);
    assert(hardware_rows()[5][11] != k);
    assert(hardware_rows()[5][12] != k);
    assert(hardware_rows()[5][13] != k);
    assert(hardware_rows()[5][14] != k);
    assert(hardware_rows()[5][15] != k);
    assert(hardware_rows()[5][16] != k);
    assert(hardware_rows()[5][17] != k);
    assert(hardware_rows()[5][18] != k);
}

/// The immutable lookup table from hardware keycodes to canonical key codes.
pub struct KeycodeTranslator {
    map: HashMap<u16, usize>,
}

impl KeycodeTranslator {
    /// The table is exactly the mapping `canon_of` describes.
    pub closed spec fn wf(self) -> bool {
        forall|k: u16|
            #![trigger self.map@.contains_key(k)]
            #![trigger canon_of(k)]
            (self.map@.contains_key(k) <==> canon_of(k) is Some) && (self.map@.contains_key(k)
                ==> Some(self.map@[k]) == canon_of(k))
    }

    pub fn new() -> (r: KeycodeTranslator)
        ensures
            r.wf(),
    {
        let mut map: HashMap<u16, usize> = HashMap::new();

        // Space, Left, Right, Up, Down
        let row_1_hardware: [u16; 5] = [65, 113, 114, 111, 116];
        let row_1_web: [usize; 5] = [32, 37, 39, 38, 40];

        // Z, X, C, V, B, N, M, Comma, Dot, Slash
        let row_2_hardware: [u16; 10] = [52, 53, 54, 55, 56, 57, 58, 59, 60, 61];
        let row_2_web: [usize; 10] = [90, 88, 67, 86, 66, 78, 77, 188, 190, 191];

        // A, S, D, F, G, H, J, K, L, Semicolon, Apostrophe, Backslash, Enter
        let row_3_hardware: [u16; 13] = [38, 39, 40, 41, 42, 43, 44, 45, 46, 47, 48, 51, 36];
        let row_3_web: [usize; 13] = [65, 83, 68, 70, 71, 72, 74, 75, 76, 59, 222, 220, 14];

        // Tab, Q, W, E, R, T, Y, U, I, O, P, Left paren, Right paren
        let row_4_hardware: [u16; 13] = [23, 24, 25, 26, 27, 28, 29, 30, 31, 32, 33, 34, 35];
        let row_4_web: [usize; 13] = [9, 81, 87, 69, 82, 83, 89, 85, 73, 79, 80, 168, 169];

        // Backtick, 1, 2, 3, 4, 5, 6, 7, 8, 9, 0, Minus, Equals, Backspace
        let row_5_hardware: [u16; 14] = [49, 10, 11, 12, 13, 14, 15, 16, 17, 18, 19, 20, 21, 22];
        let row_5_web: [usize; 14] = [192, 49, 50, 51, 52, 53, 54, 55, 56, 57, 48, 173, 61, 8];

        // Escape, F1 through F12, Insert, Delete, Home, End, Page up, Page down
        let row_6_hardware: [u16; 19] = [
            9, 67, 68, 69, 70, 71, 72, 73, 74, 75, 76, 95, 96, 118, 119, 110, 115, 112, 117,
        ];
        let row_6_web: [usize; 19] = [
            27, 112, 113, 114, 115, 116, 117, 118, 119, 120, 121, 122, 123, 45, 46, 36, 35, 33, 34,
        ];

        Self::fill_map(&mut map, &row_1_hardware, &row_1_web);
        Self::fill_map(&mut map, &row_2_hardware, &row_2_web);
        Self::fill_map(&mut map, &row_3_hardware, &row_3_web);
        Self::fill_map(&mut map, &row_4_hardware, &row_4_web);
        Self::fill_map(&mut map, &row_5_hardware, &row_5_web);
        Self::fill_map(&mut map, &row_6_hardware, &row_6_web);

        KeycodeTranslator { map }
    }

    /// The canonical key code for `hardware_keycode`, or `None` when the key
    /// is unmapped (navigation then ignores the press).
    pub fn translate(&self, hardware_keycode: u16) -> (r: Option<usize>)
        requires
            self.wf(),
        ensures
            r == canon_of(hardware_keycode),
    {
        match self.map.get(&hardware_keycode) {
            Some(web) => Some(*web),
            None => None,
        }
    }

    /// Inserts one row pair. Every pair inserted must already agree with
    /// `canon_of`; a row pair of mismatched lengths is a configuration
    /// defect that the precondition rules out before any lookup exists.
    fn fill_map(map: &mut HashMap<u16, usize>, hardware_row: &[u16], web_row: &[usize])
        requires
            hardware_row@.len() == web_row@.len(),
            forall|i: int|
                0 <= i < hardware_row@.len() ==> canon_of(hardware_row@[i]) == Some(web_row@[i]),
            forall|k: u16| #[trigger]
                old(map)@.contains_key(k) ==> canon_of(k) == Some(old(map)@[k]),
        ensures
            forall|k: u16| #[trigger]
                final(map)@.contains_key(k) ==> canon_of(k) == Some(final(map)@[k]),
            forall|k: u16| #[trigger]
                old(map)@.contains_key(k) ==> final(map)@.contains_key(k),
            forall|i: int| 0 <= i < hardware_row@.len() ==> final(map)@.contains_key(
                hardware_row@[i],
            ),
            forall|k: u16| #[trigger]
                final(map)@.contains_key(k) ==> old(map)@.contains_key(k)
                    || hardware_row@.contains(k),
    {
        let mut i: usize = 0;
        while i < hardware_row.len()
            invariant
                hardware_row@.len() == web_row@.len(),
                i <= hardware_row@.len(),
                forall|j: int|
                    0 <= j < hardware_row@.len() ==> canon_of(hardware_row@[j]) == Some(
                        web_row@[j],
                    ),
                forall|k: u16| #[trigger]
                    map@.contains_key(k) ==> canon_of(k) == Some(map@[k]),
                forall|k: u16| #[trigger]
                    old(map)@.contains_key(k) ==> map@.contains_key(k),
                forall|j: int| 0 <= j < i ==> map@.contains_key(hardware_row@[j]),
                forall|k: u16| #[trigger]
                    map@.contains_key(k) ==> old(map)@.contains_key(k) || hardware_row@.contains(
                        k,
                    ),
            decreases hardware_row@.len() - i,
        {
            map.insert(hardware_row[i], web_row[i]);
            i = i + 1;
        }
    }
}

} // verus!
