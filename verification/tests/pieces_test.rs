use chess::board_movements::{A, B, C, D, E, F, G, H};
use chess::pieces::bishop::Bishop;
use chess::pieces::color::Color;
use chess::pieces::king::King;
use chess::pieces::knight::Knight;
use chess::pieces::pawn::Pawn;
use chess::pieces::piece::Piece;
use chess::pieces::queen::Queen;
use chess::pieces::rook::Rook;
use chess::utils::pair::Pair;

fn bishop_loop_through(row_manipulate: i32, column_manipulate: i32) {
    let mut current_row: i32 = 4;
    let mut current_column: i32 = D.into();

    let bishop = Bishop::new(Color::White);

    let add_or_sub_row = 1 * row_manipulate;
    let add_or_sub_column = 1 * column_manipulate;
    loop {
        if current_row + add_or_sub_row <= 0
            || current_column + add_or_sub_column <= 0
            || current_row >= 7
            || current_column >= 7
        {
            break;
        }
        current_row += add_or_sub_row;
        current_column += add_or_sub_column;
        assert_eq!(
            bishop.can_move(
                4,
                D,
                current_row.try_into().unwrap(),
                current_column.try_into().unwrap()
            ),
            true
        );
    }
}

#[test]
fn bishop_valid_bishop_movement() {
    let current_row: i32 = 4;
    let current_column: i32 = D.into();
    let bishop = Bishop::new(Color::White);
    assert_eq!(
        bishop.can_move(
            current_row.try_into().unwrap(),
            current_column.try_into().unwrap(),
            current_row.try_into().unwrap(),
            current_column.try_into().unwrap()
        ),
        false
    );
    // top left
    bishop_loop_through(-1, -1);
    // top right
    bishop_loop_through(-1, 1);
    // bottom left
    bishop_loop_through(1, -1);
    // bottom right
    bishop_loop_through(1, 1);
}

#[test]
fn king_in_middle_all_valid_movements() {
    let king = King::new(Color::White);
    let king_current_row_placement = 5;
    let king_current_column_placement = F;

    let valid_columns = [E, F, G];
    let valid_rows = [6, 5, 4];

    for row in &valid_rows {
        for column in &valid_columns {
            let equality = !(*column == F && *row == 5);
            assert_eq!(
                king.can_move(
                    king_current_row_placement,
                    king_current_column_placement,
                    *row,
                    *column
                ),
                equality
            )
        }
    }
}

#[test]
fn king_invalid_movements() {
    let king = King::new(Color::White);
    let king_current_row_placement = 5;
    let king_current_column_placement = F;

    let valid_columns = [E, F, G];
    let valid_rows = [8, 7, 3, 2, 1];

    for row in &valid_rows {
        for column in &valid_columns {
            assert_eq!(
                king.can_move(
                    king_current_row_placement,
                    king_current_column_placement,
                    *row,
                    *column
                ),
                false
            )
        }
    }
}

fn knight_pairs() -> [Pair<i32, i32>; 8] {
    [
        // top left
        Pair::new(1i32, C as i32),
        Pair::new(2i32, B as i32),
        // top right
        Pair::new(1i32, E as i32),
        Pair::new(2i32, F as i32),
        // bottom left
        Pair::new(4i32, B as i32),
        Pair::new(5i32, C as i32),
        // bottom right
        Pair::new(5i32, E as i32),
        Pair::new(4i32, F as i32),
    ]
}

#[test]
fn valid_movements() {
    let start_row = 3;
    let start_column = D;
    let knight = Knight::new(Color::White);
    let pairs = knight_pairs();
    for p in &pairs {
        assert_eq!(
            knight.can_move(
                start_row,
                start_column,
                p.left.try_into().unwrap(),
                p.right.try_into().unwrap()
            ),
            true
        );
    }
}

#[test]
fn invalid_movements() {
    let pairs = knight_pairs();
    let start_row = 3;
    let start_column = D;
    let knight = Knight::new(Color::White);

    for row in 0..8 {
        for column in 0..8 {
            if pairs.contains(&Pair {
                left: row,
                right: column,
            }) {
                continue;
            }
            assert_eq!(
                knight.can_move(
                    start_row,
                    start_column,
                    row.try_into().unwrap(),
                    column.try_into().unwrap()
                ),
                false
            );
        }
    }
}

#[test]
fn pawn_trying_to_move_out_of_bounds() {
    let pawn = Pawn::new(Color::White);
    assert_eq!(pawn.can_move(6, 0, 8, 8, false), false)
}

#[test]
fn first_move_should_be_able_to_move_up_two_spaces() {
    let pawn = Pawn::new(Color::White);
    assert_eq!(pawn.can_move(6, 0, 4, 0, false), true);
}

#[test]
fn first_move_should_be_able_to_move_up_one_space() {
    let pawn = Pawn::new(Color::White);
    assert_eq!(pawn.can_move(6, 0, 5, 0, false), true);
}

#[test]
fn first_move_shouldnt_be_able_to_move_three_spaces() {
    let pawn = Pawn::new(Color::White);
    assert_eq!(pawn.can_move(6, 0, 3, 0, false), false);
}

#[test]
fn already_moved_shouldnt_be_able_to_move_two_spaces() {
    let pawn = Pawn::with_moved(Color::White, true);
    assert_eq!(pawn.can_move(6, 0, 4, 0, false), false);
}

#[test]
fn is_attacking_only_diagonal() {
    let pawn = Pawn::new(Color::White);
    assert_eq!(pawn.can_move(7, 0, 6, 0, true), false);
}

#[test]
fn is_attacking_only_diagonal_valid() {
    let pawn = Pawn::new(Color::White);
    assert_eq!(pawn.can_move(7, 0, 6, 1, true), true);
}

#[test]
fn is_attacking_only_diagonal_but_too_far() {
    let pawn = Pawn::new(Color::White);
    assert_eq!(pawn.can_move(7, 0, 6, 2, true), false);
}

#[test]
fn rook_trying_to_move_out_of_bounds() {
    let current_rook = Rook::new(Color::White);
    assert_eq!(current_rook.can_move(7, 0, 8, 7), false);
}

#[test]
fn rook_trying_to_move_to_current_spot() {
    let current_rook = Rook::new(Color::White);
    assert_eq!(current_rook.can_move(7, 0, 7, 0), false);
}

#[test]
fn rook_trying_to_move_to_diagonal() {
    let current_rook = Rook::new(Color::White);
    assert_eq!(current_rook.can_move(7, 0, 6, 1), false);
}

#[test]
fn rook_trying_to_move_to_upwards() {
    let current_rook = Rook::new(Color::White);
    assert_eq!(current_rook.can_move(7, 0, 0, 0), true);
}

#[test]
fn rook_trying_to_move_to_right() {
    let current_rook = Rook::new(Color::White);
    assert_eq!(current_rook.can_move(7, 0, 7, 7), true);
}

#[test]
fn invalid_rook_movements() {
    let curr_row = 3;
    let curr_column = D;
    let columns = [A, B, C, E, F, G, H];
    let rows: [u8; 7] = [0, 1, 2, 4, 5, 6, 7];

    for row in rows {
        for column in columns {
            let current_rook = Rook::new(Color::White);
            assert_eq!(
                current_rook.can_move(curr_row, curr_column, row, column),
                false
            );
        }
    }
}

// The names of the pieces: the side's letter, then the piece's.
#[test]
fn piece_names() {
    assert_eq!(Bishop::new(Color::White).get_name(), "WB");
    assert_eq!(King::new(Color::Black).get_name(), "BK");
    assert_eq!(Knight::new(Color::White).get_name(), "WN");
    assert_eq!(Pawn::new(Color::Black).get_name(), "BP");
    assert_eq!(Queen::new(Color::White).get_name(), "WQ");
    assert_eq!(Rook::new(Color::Black).get_name(), "BR");
}

// A queen moves as a rook or as a bishop.
#[test]
fn queen_moves_as_rook_or_bishop() {
    let queen = Queen::new(Color::White);
    let rook = Rook::new(Color::White);
    let bishop = Bishop::new(Color::White);
    for row in 0..8u8 {
        for column in 0..8u8 {
            assert_eq!(
                queen.can_move(4, D, row, column),
                rook.can_move(4, D, row, column) || bishop.can_move(4, D, row, column)
            );
        }
    }
    assert_eq!(queen.can_move(4, D, 5, F), false);
}

// Moves of kings, knights, rooks and bishops can be made back.
#[test]
fn moves_can_be_made_back() {
    let king = King::new(Color::White);
    let knight = Knight::new(Color::Black);
    let rook = Rook::new(Color::White);
    let bishop = Bishop::new(Color::Black);
    for a in 0..64u8 {
        for b in 0..64u8 {
            let (ar, ac, br, bc) = (a / 8, a % 8, b / 8, b % 8);
            assert_eq!(king.can_move(ar, ac, br, bc), king.can_move(br, bc, ar, ac));
            assert_eq!(knight.can_move(ar, ac, br, bc), knight.can_move(br, bc, ar, ac));
            assert_eq!(rook.can_move(ar, ac, br, bc), rook.can_move(br, bc, ar, ac));
            assert_eq!(bishop.can_move(ar, ac, br, bc), bishop.can_move(br, bc, ar, ac));
        }
    }
}

// A black pawn moves down the board, towards row 7.
#[test]
fn black_pawn_moves_down() {
    let pawn = Pawn::new(Color::Black);
    assert_eq!(pawn.can_move(1, 3, 3, 3, false), true);
    assert_eq!(pawn.can_move(1, 3, 2, 3, false), true);
    assert_eq!(pawn.can_move(3, 3, 2, 3, false), false);
    let moved = Pawn::with_moved(Color::Black, true);
    assert_eq!(moved.can_move(1, 3, 3, 3, false), false);
    assert_eq!(moved.can_move(1, 3, 2, 4, true), true);
}

// A pawn cannot stay on its own square.
#[test]
fn pawn_cannot_stay_put() {
    let pawn = Pawn::new(Color::White);
    assert_eq!(pawn.can_move(6, 0, 6, 0, false), false);
    assert_eq!(pawn.can_move(6, 0, 6, 0, true), false);
    assert_eq!(Pawn::new(Color::Black).can_move(1, 3, 1, 3, false), false);
}
