use chess::game::board::Board;
use chess::game::game::{Game, History, HistoryOfLastFiveMovement};
use chess::pieces::color::Color;
use chess::pieces::piece::{PieceInfo, PieceType, Pieces};
use chess::pieces::validator::row_column::RowColumn;

#[test]
fn test_a3() {
    let game = Game::new();
    let movement = String::from("a3");
    let result = game.valid_input(&movement);
    assert_eq!(result, Ok((0, 2, None)))
}

#[test]
fn test_h_8() {
    let game = Game::new();
    let movement = String::from("h8");
    let result = game.valid_input(&movement);
    assert_eq!(result, Ok((7, 7, None)))
}

#[test]
fn invalid_input_h9() {
    let game = Game::new();
    let movement = String::from("h9");
    let result = game.valid_input(&movement);
    assert_eq!(
        result,
        Err(String::from("Invalid number. Must be between 1-8"))
    )
}

#[test]
fn invalid_input_h0() {
    let game = Game::new();
    let movement = String::from("h0");
    let result = game.valid_input(&movement);
    assert_eq!(
        result,
        Err(String::from("Invalid number. Must be between 1-8"))
    )
}

#[test]
fn invalid_input_i0() {
    let game = Game::new();
    let movement = String::from("i0");
    let result = game.valid_input(&movement);
    assert_eq!(result, Err(String::from("Must be a char between a - h.")))
}

#[test]
fn check_conversion() {
    let game = Game::new();
    for (movement, expected) in [
        (String::from("a1"), 7u8),
        (String::from("a2"), 6u8),
        (String::from("a3"), 5u8),
        (String::from("a4"), 4u8),
        (String::from("a5"), 3u8),
        (String::from("a6"), 2u8),
        (String::from("a7"), 1u8),
    ] {
        let (_, from_row, _) = game.valid_input(&movement).unwrap();
        let converted_row = game.convert_row_to_our_array(&from_row).unwrap();
        assert_eq!(converted_row, expected);
    }
}

fn get_row_column(game: &Game, input: String) -> RowColumn {
    let (from_column, from_row, _) = game.valid_input(&input).unwrap();
    let converted_row = game.convert_row_to_our_array(&from_row).unwrap();
    return RowColumn {
        row: converted_row,
        column: from_column,
    };
}

#[test]
fn checking_white_movement_pawn_should_be_able_to_move_up() {
    // Let's imagine this
    //    a b c d e f g h
    // 8   ##  ##  ##  ## 8
    // 7 ##  ##  ##  ##   7
    // 6   ##  ##  ##  ## 6
    // 5 ##  ##  ##  ##   5
    // 4   ##  ##  ##  ## 4
    // 3 ##  ##  ##  ##   3
    // 2   WP  ##  ##  ## 2
    // 1 ##  ##  ##  ##   1
    //    a b c d e f g h
    // b2 should be able to move to be.
    let board = Board::create_empty_board();
    let mut game = Game::inject_board(board);
    let from = get_row_column(&game, String::from("b2"));
    let to = get_row_column(&game, String::from("b3"));
    let pawn = Pieces::Pawn(PieceInfo::new(Color::White, false));
    game.set_piece(from.row, from.column, pawn);
    let result = game.start_movement(&from, &to, None);

    assert_eq!(result, Ok(()));
}

#[test]
fn white_pawn_should_not_move_diagonally() {
    // Let's imagine this
    //    a b c d e f g h
    // 8   ##  ##  ##  ## 8
    // 7 ##  ##  ##  ##   7
    // 6   ##  ##  ##  ## 6
    // 5 ##  ##  ##  ##   5
    // 4   ##  ##  ##  ## 4
    // 3 ##  ##  ##  ##   3
    // 2   WP  ##  ##  ## 2
    // 1 ##  ##  ##  ##   1
    //    a b c d e f g h
    // b2 should be able to move to be.
    let board = Board::create_empty_board();
    let mut game = Game::inject_board(board);
    let from = get_row_column(&game, String::from("b2"));
    let to = get_row_column(&game, String::from("c3"));
    let pawn = Pieces::Pawn(PieceInfo::new(Color::White, false));
    game.set_piece(from.row, from.column, pawn);
    let result = game.start_movement(&from, &to, None);

    assert_eq!(result.is_err(), true);
}

#[test]
fn white_pawn_should_be_able_to_take_over() {
    // Let's imagine this
    //    a b c d e f g h
    // 8   ##  ##  ##  ## 8
    // 7 ##  ##  ##  ##   7
    // 6   ##  ##  ##  ## 6
    // 5 ##  ##  ##  ##   5
    // 4   ##  ##  ##  ## 4
    // 3 ##  BP  ##  ##   3
    // 2   WP  ##  ##  ## 2
    // 1 ##  ##  ##  ##   1
    //    a b c d e f g h
    // b2 should be able to move to be.
    let board = Board::create_empty_board();
    let mut game = Game::inject_board(board);
    let from = get_row_column(&game, String::from("b2"));
    let to = get_row_column(&game, String::from("c3"));
    let pawn = Pieces::Pawn(PieceInfo::new(Color::White, true));
    let black_pawn = Pieces::Pawn(PieceInfo::new(Color::Black, true));
    game.set_piece(from.row, from.column, pawn);
    game.set_piece(to.row, to.column, black_pawn);
    let result = game.start_movement(&from, &to, None);

    assert_eq!(result.is_ok(), true);
    println!("{}", game.print_board());
}

#[test]
fn white_pawn_in_front_blocking_piece() {
    // Let's imagine this
    //    a b c d e f g h
    // 8   ##  ##  ##  ## 8
    // 7 ##  ##  ##  ##   7
    // 6   ##  ##  ##  ## 6
    // 5 ##  ##  ##  ##   5
    // 4   ##  ##  ##  ## 4
    // 3 ##BP##  ##  ##   3
    // 2   WP  ##  ##  ## 2
    // 1 ##  ##  ##  ##   1
    //    a b c d e f g h
    // the piece in b2 should not be able to move.
    let board = Board::create_empty_board();
    let mut game = Game::inject_board(board);
    let from = get_row_column(&game, String::from("b2"));
    let to = get_row_column(&game, String::from("b3"));
    let pawn = Pieces::Pawn(PieceInfo::new(Color::White, true));
    let black_pawn = Pieces::Pawn(PieceInfo::new(Color::Black, true));

    game.set_piece(from.row, from.column, pawn);
    game.set_piece(to.row, to.column, black_pawn);

    let result = game.start_movement(&from, &to, None);

    assert_eq!(result.is_err(), true);
    assert_eq!(result.err().unwrap(), "Invalid movement.");
}

#[test]
fn white_bishop_cant_jump_over_other_pieces_blocked_by_black_pawn() {
    // Let's imagine this
    //    a b c d e f g h
    // 8   ##  ##  ##  ## 8
    // 7 ##  ##  ##  ##   7
    // 6   ##  ##  ##  ## 6
    // 5 ##  ##  XX  ##   5
    // 4   ##  BP  ##  ## 4
    // 3 ##  ##  ##  ##   3
    // 2   WB  ##  ##  ## 2
    // 1 ##  ##  ##  ##   1
    //    a b c d e f g h
    // the piece in b2 should not be able to move to where the xx is.
    let board = Board::create_empty_board();
    let mut game = Game::inject_board(board);
    let from = get_row_column(&game, String::from("b2"));
    let black_pawn_position = get_row_column(&game, String::from("d4"));
    let to = get_row_column(&game, String::from("e5"));
    let white_bishop = Pieces::Bishop(PieceInfo::new(Color::White, false));
    let black_pawn = Pieces::Pawn(PieceInfo::new(Color::Black, true));

    game.set_piece(from.row, from.column, white_bishop);
    game.set_piece(
        black_pawn_position.row,
        black_pawn_position.column,
        black_pawn,
    );

    let result = game.start_movement(&from, &to, None);

    assert_eq!(result.is_err(), true);
    assert_eq!(result.err().unwrap(), "Invalid movement.");
}

#[test]
fn white_rook_cant_jump_over_other_pieces_blocked_by_black_pawn() {
    // Let's imagine this
    //    a b c d e f g h
    // 8   ##  ##  ##  ## 8
    // 7 ##  ##  ##  ##   7
    // 6   ##  ##  ##  ## 6
    // 5 ##  ##  ##  ##   5
    // 4   ##  ##  ##  ## 4
    // 3 ##  ##  ##  ##   3
    // 2   WR  BP  XX  ## 2
    // 1 ##  ##  ##  ##   1
    //    a b c d e f g h
    // the piece in b2 should not be able to move to where the xx is.
    let board = Board::create_empty_board();
    let mut game = Game::inject_board(board);
    let from = get_row_column(&game, String::from("b2"));
    let black_pawn_position = get_row_column(&game, String::from("d2"));
    let to = get_row_column(&game, String::from("f2"));
    let white_rook = Pieces::Rook(PieceInfo::new(Color::White, false));
    let black_pawn = Pieces::Pawn(PieceInfo::new(Color::Black, true));

    game.set_piece(from.row, from.column, white_rook);
    game.set_piece(
        black_pawn_position.row,
        black_pawn_position.column,
        black_pawn,
    );
    println!("{}", game.print_board());

    let result = game.start_movement(&from, &to, None);

    assert_eq!(true, result.is_err());
    assert_eq!(result.err().unwrap(), "Invalid movement.");
}

#[test]
fn white_attempts_to_castle_e1_to_g1() {
    // Let's imagine this
    //    a b c d e f g h
    // 8   ##  ##  ##  ## 8
    // 7 ##  ##  ##  ##   7
    // 6   ##  ##  ##  ## 6
    // 5 ##  ##  ##  ##   5
    // 4   ##  ##  ##  ## 4
    // 3 ##  ##  ##  ##   3
    // 2   ##  ##  ##  ## 2
    // 1 ##  ##  WK  ##WR1
    //    a b c d e f g h
    // white king is at e1.
    // white rook is at a1 and h1
    // white should be able to perform a castling
    // white king will perform e1 to g1
    let board = Board::create_empty_board();
    let mut game = Game::inject_board(board);
    let from = get_row_column(&game, String::from("e1"));
    let to = get_row_column(&game, String::from("g1"));
    let white_rook_placement = get_row_column(&game, String::from("h1"));
    let white_king = PieceType::King.create_actual_piece(PieceInfo::new(Color::White, true));

    let white_rook = PieceType::Rook.create_actual_piece(PieceInfo::new(Color::White, true));

    game.set_piece_row_col(&from, white_king);
    game.set_piece_row_col(&white_rook_placement, white_rook);

    let result = game.start_movement(&from, &to, None);

    assert_eq!(true, result.is_ok());
    println!("{}", game.print_board());

    let piece_info = &game.board().squares[to.row as usize][to.column as usize]
        .get_piece_info()
        .unwrap();
    assert_eq!(true, piece_info.get_has_moved());
}

#[test]
fn white_attempts_to_castle_e1_to_g1_rook_already_moved() {
    // Let's imagine this
    //    a b c d e f g h
    // 8   ##  ##  ##  ## 8
    // 7 ##  ##  ##  ##   7
    // 6   ##  ##  ##  ## 6
    // 5 ##  ##  ##  ##   5
    // 4   ##  ##  ##  ## 4
    // 3 ##  ##  ##  ##   3
    // 2   ##  ##  ##  ## 2
    // 1 ##  ##  WK  ##WR1
    //    a b c d e f g h
    // white king is at e1.
    // white rook is at a1 and h1
    // white should be able to perform a castling
    // white king will perform e1 to g1
    let board = Board::create_empty_board();
    let mut game = Game::inject_board(board);
    let from = get_row_column(&game, String::from("e1"));
    let to = get_row_column(&game, String::from("g1"));
    let white_rook_placement = get_row_column(&game, String::from("h1"));
    let white_king = PieceType::King.create_actual_piece(PieceInfo::new(Color::White, true));

    let mut white_rook_movement = PieceInfo::new(Color::White, true);
    white_rook_movement.set_has_moved();
    let white_rook = PieceType::Rook.create_actual_piece(white_rook_movement);

    game.set_piece_row_col(&from, white_king);
    game.set_piece_row_col(&white_rook_placement, white_rook);

    let result = game.start_movement(&from, &to, None);

    assert_eq!(true, result.is_err());
    println!("{}", game.print_board());
}

#[test]
fn white_attempts_to_castle_e1_c1() {
    // Let's imagine this
    //    a b c d e f g h
    // 8   ##  ##  ##  ## 8
    // 7 ##  ##  ##  ##   7
    // 6   ##  ##  ##  ## 6
    // 5 ##  ##  ##  ##   5
    // 4   ##  ##  ##  ## 4
    // 3 ##  ##  ##  ##   3
    // 2   ##  ##  ##  ## 2
    // 1 WR  ##  WK  ##   1
    //    a b c d e f g h
    // white king is at e1.
    // white rook is at a1 and h1
    // white should be able to perform a castling
    // white king will perform e1 to g1
    let board = Board::create_empty_board();
    let mut game = Game::inject_board(board);
    let from = get_row_column(&game, String::from("e1"));
    let to = get_row_column(&game, String::from("c1"));
    let white_rook_placement = get_row_column(&game, String::from("a1"));
    let white_king = PieceType::King.create_actual_piece(PieceInfo::new(Color::White, true));

    let white_rook = PieceType::Rook.create_actual_piece(PieceInfo::new(Color::White, true));

    game.set_piece_row_col(&from, white_king);
    game.set_piece_row_col(&white_rook_placement, white_rook);

    let result = game.start_movement(&from, &to, None);

    assert_eq!(true, result.is_ok());
}

#[test]
fn white_attempts_to_castle_e1_c1_rook_not_there() {
    // Let's imagine this
    //    a b c d e f g h
    // 8   ##  ##  ##  ## 8
    // 7 ##  ##  ##  ##   7
    // 6   ##  ##  ##  ## 6
    // 5 ##  ##  ##  ##   5
    // 4   ##  ##  ##  ## 4
    // 3 ##  ##  ##  ##   3
    // 2   ##  ##  ##  ## 2
    // 1 WR  ##  WK  ##   1
    //    a b c d e f g h
    // white king is at e1.
    // white rook is at a1 and h1
    // white should be able to perform a castling
    // white king will perform e1 to g1
    let board = Board::create_empty_board();
    let mut game = Game::inject_board(board);
    let from = get_row_column(&game, String::from("e1"));
    let to = get_row_column(&game, String::from("g1"));
    let white_rook_placement = get_row_column(&game, String::from("a1"));
    let white_king = PieceType::King.create_actual_piece(PieceInfo::new(Color::White, true));

    let white_rook = PieceType::Rook.create_actual_piece(PieceInfo::new(Color::White, true));

    game.set_piece_row_col(&from, white_king);
    game.set_piece_row_col(&white_rook_placement, white_rook);

    let result = game.start_movement(&from, &to, None);

    assert_eq!(true, result.is_err());
    println!("{}", game.print_board());
}

#[test]
fn white_attempts_to_castle_e1_g1_piece_blocking_h1() {
    // Let's imagine this
    //    a b c d e f g h
    // 8   ##  ##  ##  ## 8
    // 7 ##  ##  ##  ##   7
    // 6   ##  ##  ##  ## 6
    // 5 ##  ##  ##  ##   5
    // 4   ##  ##  ##  ## 4
    // 3 ##  ##  ##  ##   3
    // 2   ##  ##  ##  ## 2
    // 1     ##  WK  WNWR 1
    //    a b c d e f g h
    // white king is at e1.
    // white rook is at a1 and h1
    // white should be able to perform a castling
    // white king will perform e1 to g1
    let board = Board::create_empty_board();
    let mut game = Game::inject_board(board);
    let from = get_row_column(&game, String::from("e1"));
    let to = get_row_column(&game, String::from("g1"));
    let white_knight_placement = get_row_column(&game, String::from("g1"));
    let white_rook_placement = get_row_column(&game, String::from("h1"));
    let white_king = PieceType::King.create_actual_piece(PieceInfo::new(Color::White, true));
    let white_knight =
        PieceType::Knight.create_actual_piece(PieceInfo::new(Color::White, true));

    let white_rook = PieceType::Rook.create_actual_piece(PieceInfo::new(Color::White, true));

    game.set_piece_row_col(&from, white_king);
    game.set_piece_row_col(&white_rook_placement, white_rook);
    game.set_piece_row_col(&white_knight_placement, white_knight);

    let result = game.start_movement(&from, &to, None);

    assert_eq!(true, result.is_err());
}

#[test]
fn white_attempts_to_castle_e1_g1_piece_blocking_f1() {
    // Let's imagine this
    //    a b c d e f g h
    // 8   ##  ##  ##  ## 8
    // 7 ##  ##  ##  ##   7
    // 6   ##  ##  ##  ## 6
    // 5 ##  ##  ##  ##   5
    // 4   ##  ##  ##  ## 4
    // 3 ##  ##  ##  ##   3
    // 2   ##  ##  ##  ## 2
    // 1 ##  ##  WKWNWNWR 1
    //    a b c d e f g h
    // white king is at e1.
    // white rook is at a1 and h1
    // white should be able to perform a castling
    // white king will perform e1 to g1
    let board = Board::create_empty_board();
    let mut game = Game::inject_board(board);
    let from = get_row_column(&game, String::from("e1"));
    let to = get_row_column(&game, String::from("g1"));
    let white_knight_placement = get_row_column(&game, String::from("f1"));
    let white_rook_placement = get_row_column(&game, String::from("h1"));
    let white_king = PieceType::King.create_actual_piece(PieceInfo::new(Color::White, true));
    let white_knight =
        PieceType::Knight.create_actual_piece(PieceInfo::new(Color::White, true));

    let white_rook = PieceType::Rook.create_actual_piece(PieceInfo::new(Color::White, true));

    game.set_piece_row_col(&from, white_king);
    game.set_piece_row_col(&white_rook_placement, white_rook);
    game.set_piece_row_col(&white_knight_placement, white_knight);

    let result = game.start_movement(&from, &to, None);

    assert_eq!(true, result.is_err());
}

#[test]
fn white_attempts_to_castle_e1_a1_piece_blocking_b1() {
    // Let's imagine this
    //    a b c d e f g h
    // 8   ##  ##  ##  ## 8
    // 7 ##  ##  ##  ##   7
    // 6   ##  ##  ##  ## 6
    // 5 ##  ##  ##  ##   5
    // 4   ##  ##  ##  ## 4
    // 3 ##  ##  ##  ##   3
    // 2   ##  ##  ##  ## 2
    // 1 ##  ##  WKWNWNWR 1
    //    a b c d e f g h
    // white king is at e1.
    // white rook is at a1 and h1
    // white should be able to perform a castling
    // white king will perform e1 to g1
    let board = Board::create_empty_board();
    let mut game = Game::inject_board(board);
    let from = get_row_column(&game, String::from("e1"));
    let to = get_row_column(&game, String::from("g1"));
    let white_knight_placement = get_row_column(&game, String::from("b1"));
    let white_rook_placement = get_row_column(&game, String::from("a1"));
    let white_king = PieceType::King.create_actual_piece(PieceInfo::new(Color::White, true));
    let white_knight =
        PieceType::Knight.create_actual_piece(PieceInfo::new(Color::White, true));

    let white_rook = PieceType::Rook.create_actual_piece(PieceInfo::new(Color::White, true));

    game.set_piece_row_col(&from, white_king);
    game.set_piece_row_col(&white_rook_placement, white_rook);
    game.set_piece_row_col(&white_knight_placement, white_knight);

    let result = game.start_movement(&from, &to, None);

    println!("{}", game.print_board());
    assert_eq!(true, result.is_err());
    println!("{}", game.print_board());
}

// BLACK PIECES
#[test]
fn black_attempts_to_castle_e8_to_g8() {
    // black king is at e1.
    // black rook is at a1 and h1
    // black should be able to perform a castling
    // black king will perform e1 to g1
    let board = Board::create_empty_board();
    let mut game = Game::inject_board(board);
    let from = get_row_column(&game, String::from("e8"));
    let to = get_row_column(&game, String::from("g8"));
    let black_rook_placement = get_row_column(&game, String::from("h8"));
    let black_king = PieceType::King.create_actual_piece(PieceInfo::new(Color::Black, true));

    let black_rook = PieceType::Rook.create_actual_piece(PieceInfo::new(Color::Black, true));

    game.set_piece_row_col(&from, black_king);
    game.set_piece_row_col(&black_rook_placement, black_rook);

    let result = game.start_movement(&from, &to, None);

    assert_eq!(true, result.is_ok());
    println!("{}", game.print_board());
}

#[test]
fn black_attempts_to_castle_e1_c1() {
    // black king is at e1.
    // black rook is at a1 and h1
    // black should be able to perform a castling
    // black king will perform e1 to g1
    let board = Board::create_empty_board();
    let mut game = Game::inject_board(board);
    let from = get_row_column(&game, String::from("e8"));
    let to = get_row_column(&game, String::from("c8"));
    let black_rook_placement = get_row_column(&game, String::from("e8"));
    let black_king = PieceType::King.create_actual_piece(PieceInfo::new(Color::Black, true));

    let black_rook = PieceType::Rook.create_actual_piece(PieceInfo::new(Color::Black, true));

    game.set_piece_row_col(&from, black_king);
    game.set_piece_row_col(&black_rook_placement, black_rook);

    let result = game.start_movement(&from, &to, None);

    assert_eq!(true, result.is_ok());
    println!("{}", game.print_board());
}

#[test]
fn black_attempts_to_castle_e1_c1_rook_not_there() {
    // black king is at e1.
    // black rook is at a1 and h1
    // black should be able to perform a castling
    // black king will perform e1 to g1
    let board = Board::create_empty_board();
    let mut game = Game::inject_board(board);
    let from = get_row_column(&game, String::from("e8"));
    let to = get_row_column(&game, String::from("g8"));
    let black_rook_placement = get_row_column(&game, String::from("a8"));
    let black_king = PieceType::King.create_actual_piece(PieceInfo::new(Color::Black, true));

    let black_rook = PieceType::Rook.create_actual_piece(PieceInfo::new(Color::Black, true));

    game.set_piece_row_col(&from, black_king);
    game.set_piece_row_col(&black_rook_placement, black_rook);

    let result = game.start_movement(&from, &to, None);

    assert_eq!(true, result.is_err());
    println!("{}", game.print_board());
}

#[test]
fn black_attempts_to_castle_e1_g1_piece_blocking_h1() {
    // black king is at e1.
    // black rook is at a1 and h1
    // black should be able to perform a castling
    // black king will perform e1 to g1
    let board = Board::create_empty_board();
    let mut game = Game::inject_board(board);
    let from = get_row_column(&game, String::from("e8"));
    let to = get_row_column(&game, String::from("g8"));
    let black_knight_placement = get_row_column(&game, String::from("g8"));
    let black_rook_placement = get_row_column(&game, String::from("h8"));
    let black_king = PieceType::King.create_actual_piece(PieceInfo::new(Color::Black, true));
    let black_knight =
        PieceType::Knight.create_actual_piece(PieceInfo::new(Color::Black, true));

    let black_rook = PieceType::Rook.create_actual_piece(PieceInfo::new(Color::Black, true));

    game.set_piece_row_col(&from, black_king);
    game.set_piece_row_col(&black_rook_placement, black_rook);
    game.set_piece_row_col(&black_knight_placement, black_knight);

    let result = game.start_movement(&from, &to, None);

    assert_eq!(true, result.is_err());
}

#[test]
fn black_attempts_to_castle_e1_g1_piece_blocking_f1() {
    // black king is at e1.
    // black rook is at a1 and h1
    // black should be able to perform a castling
    // black king will perform e1 to g1
    let board = Board::create_empty_board();
    let mut game = Game::inject_board(board);
    let from = get_row_column(&game, String::from("e8"));
    let to = get_row_column(&game, String::from("g8"));
    let black_knight_placement = get_row_column(&game, String::from("f8"));
    let black_rook_placement = get_row_column(&game, String::from("h8"));
    let black_king = PieceType::King.create_actual_piece(PieceInfo::new(Color::Black, true));
    let black_knight =
        PieceType::Knight.create_actual_piece(PieceInfo::new(Color::Black, true));

    let black = PieceType::Rook.create_actual_piece(PieceInfo::new(Color::Black, true));

    game.set_piece_row_col(&from, black_king);
    game.set_piece_row_col(&black_rook_placement, black);
    game.set_piece_row_col(&black_knight_placement, black_knight);

    let result = game.start_movement(&from, &to, None);

    assert_eq!(true, result.is_err());
}

#[test]
fn black_attempts_to_castle_e1_a1_piece_blocking_b1() {
    let board = Board::create_empty_board();
    let mut game = Game::inject_board(board);
    let from = get_row_column(&game, String::from("e1"));
    let to = get_row_column(&game, String::from("g1"));
    let black_knight_placement = get_row_column(&game, String::from("b1"));
    let black_rook_placement = get_row_column(&game, String::from("a1"));
    let black_king = PieceType::King.create_actual_piece(PieceInfo::new(Color::Black, true));
    let black_knight =
        PieceType::Knight.create_actual_piece(PieceInfo::new(Color::Black, true));

    let black_rook = PieceType::Rook.create_actual_piece(PieceInfo::new(Color::Black, true));

    game.set_piece_row_col(&from, black_king);
    game.set_piece_row_col(&black_rook_placement, black_rook);
    game.set_piece_row_col(&black_knight_placement, black_knight);

    let result = game.start_movement(&from, &to, None);

    println!("{}", game.print_board());
    assert_eq!(true, result.is_err());
    println!("{}", game.print_board());
}

#[test]
fn assure_last_history_working_great() {
    let mut histories = HistoryOfLastFiveMovement::new();
    assert_eq!(histories.peek(), None);
    let color = Color::Black;
    let piece_type = &PieceType::Pawn;
    for i in 1..=5 {
        let from = RowColumn::new(i, 0);
        let history = History::new(&color, &from, &from, piece_type);
        histories.add_history(history);
        assert_eq!(
            histories.peek(),
            Some(&History::new(&color, &from, &from, piece_type))
        );
        assert_eq!(histories.size(), i as usize)
    }
    let from = RowColumn::new(6, 0);
    let history = History::new(&color, &from, &from, piece_type);
    histories.add_history(history);
    assert_eq!(
        histories.peek(),
        Some(&History::new(&color, &from, &from, piece_type))
    );
    assert_eq!(histories.size(), 5)
}

#[test]
fn en_passant_test() {
    // Let's imagine this
    //    a b c d e f g h
    // 8   ##  ##  ##  ## 8
    // 7 ##  BP  BP  ##   7
    // 6   ##  ##  ##  ## 6
    // 5 ##  ##  ##  ##   5
    // 4   ##  ##  ##  ## 4
    // 3 ##  ##  ##  ##   3
    // 2   ##  ##  WP  ## 2
    // 1 ##  ##  ##  ##   1
    //    a b c d e f g h
    // part 2 WP - f2 f4
    //    a b c d e f g h
    // 8   ##  ##  ##  ## 8
    // 7 ##  BP  BP  ##   7
    // 6   ##  ##  ##  ## 6
    // 5 ##  ##  ##  ##   5
    // 4   ##  ##  WP  ## 4
    // 3 ##  ##  ##  ##   3
    // 2   ##  ##  ##  ## 2
    // 1 ##  ##  ##  ##   1
    //    a b c d e f g h
    // part 3 BP - c7 to c5
    //    a b c d e f g h
    // 8   ##  ##  ##  ## 8
    // 7 ##  ##  BP  ##   7
    // 6   ##  ##  ##  ## 6
    // 5 ##  BP  ##  ##   5
    // 4   ##  ##  WP  ## 4
    // 3 ##  ##  ##  ##   3
    // 2   ##  ##  ##  ## 2
    // 1 ##  ##  ##  ##   1
    //    a b c d e f g h
    // part 4 wp - f4 -f5
    //    a b c d e f g h
    // 8   ##  ##  ##  ## 8
    // 7 ##  ##  BP  ##   7
    // 6   ##  ##  ##  ## 6
    // 5 ##  BP  ##WP##   5
    // 4   ##  ##  ##  ## 4
    // 3 ##  ##  ##  ##   3
    // 2   ##  ##  ##  ## 2
    // 1 ##  ##  ##  ##   1
    //    a b c d e f g h
    // part 5 bp - e7 -e5
    //    a b c d e f g h
    // 8   ##  ##  ##  ## 8
    // 7 ##  ##  ##  ##   7
    // 6   ##  ##  ##  ## 6
    // 5 ##  BP  BPWP##   5
    // 4   ##  ##  ##  ## 4
    // 3 ##  ##  ##  ##   3
    // 2   ##  ##  ##  ## 2
    // 1 ##  ##  ##  ##   1
    //    a b c d e f g h
    // en passant WP - f5 e6 - should be valid
    //    a b c d e f g h
    // 8   ##  ##  ##  ## 8
    // 7 ##  ##  ##  ##   7
    // 6   ##  ##WP##  ## 6
    // 5 ##  BP  ##  ##   5
    // 4   ##  ##  ##  ## 4
    // 3 ##  ##  ##  ##   3
    // 2   ##  ##  ##  ## 2
    // 1 ##  ##  ##  ##   1
    //    a b c d e f g h

    let board = Board::create_empty_board();
    let mut game = Game::inject_board(board);

    let white_pawn_start = get_row_column(&game, String::from("f2"));
    let black_pawn_1_start = get_row_column(&game, String::from("e7"));
    let black_pawn_2_start = get_row_column(&game, String::from("c7"));
    let black_pawn_1 = PieceType::Pawn.create_actual_piece(PieceInfo::new(Color::Black, true));
    let black_pawn_2 = PieceType::Pawn.create_actual_piece(PieceInfo::new(Color::Black, true));
    let white_pawn = PieceType::Pawn.create_actual_piece(PieceInfo::new(Color::White, true));

    game.set_piece_row_col(&white_pawn_start, white_pawn);
    game.set_piece_row_col(&black_pawn_1_start, black_pawn_1);
    game.set_piece_row_col(&black_pawn_2_start, black_pawn_2);

    game.start_movement(
        /*from=*/ &get_row_column(&game, String::from("f2")),
        /*to=*/ &get_row_column(&game, String::from("f4")),
        None,
    )
    .unwrap();

    game.start_movement(
        /*from=*/ &get_row_column(&game, String::from("c7")),
        /*to=*/ &get_row_column(&game, String::from("c5")),
        None,
    );

    game.start_movement(
        /*from=*/ &get_row_column(&game, String::from("f4")),
        /*to=*/ &get_row_column(&game, String::from("f5")),
        None,
    );

    game.start_movement(
        /*from=*/ &get_row_column(&game, String::from("e7")),
        /*to=*/ &get_row_column(&game, String::from("e5")),
        None,
    );

    let result = game.start_movement(
        /*from=*/ &get_row_column(&game, String::from("f5")),
        /*to=*/ &get_row_column(&game, String::from("e6")),
        None,
    );

    assert_eq!(true, result.is_ok());

    println!("{}", game.print_board());
}

#[test]
fn en_passant_black_test() {
    // Let's imagine this
    //    a b c d e f g h
    // 8   ##  ##  ##  ## 8
    // 7 ##  BP  BP  ##   7
    // 6   ##  ##  ##  ## 6
    // 5 ##  ##  ##  ##   5
    // 4   ##  ##  ##  ## 4
    // 3 ##  ##  ##  ##   3
    // 2   ##  ##  WPWP## 2
    // 1 ##  ##  ##  ##   1
    //    a b c d e f g h
    // part 2 WP - g2 g4
    //    a b c d e f g h
    // 8   ##  ##  ##  ## 8
    // 7 ##  BP  BP  ##   7
    // 6   ##  ##  ##  ## 6
    // 5 ##  ##  ##  ##   5
    // 4   ##  ##  ##WP## 4
    // 3 ##  ##  ##  ##   3
    // 2   ##  ##  WP  ## 2
    // 1 ##  ##  ##  ##   1
    //    a b c d e f g h
    // part 3 BP - e7 to e5
    //    a b c d e f g h
    // 8   ##  ##  ##  ## 8
    // 7 ##  BP  ##  ##   7
    // 6   ##  ##  ##  ## 6
    // 5 ##  ##  BP  ##   5
    // 4   ##  ##  ##WP## 4
    // 3 ##  ##  ##  ##   3
    // 2   ##  ##  WP  ## 2
    // 1 ##  ##  ##  ##   1
    //    a b c d e f g h
    // part 4 wp - g4 -g5
    //    a b c d e f g h
    // 8   ##  ##  ##  ## 8
    // 7 ##  BP  ##  ##   7
    // 6   ##  ##  ##  ## 6
    // 5 ##  ##  BP  WP   5
    // 4   ##  ##  ##  ## 4
    // 3 ##  ##  ##  ##   3
    // 2   ##  ##  WP  ## 2
    // 1 ##  ##  ##  ##   1
    //    a b c d e f g h
    // part 5 bp - e5 -e4
    //    a b c d e f g h
    // 8   ##  ##  ##  ## 8
    // 7 ##  ##  ##  ##   7
    // 6   ##  ##  ##  ## 6
    // 5 ##  BP  ##  WP   5
    // 4   ##  ##BP##  ## 4
    // 3 ##  ##  ##  ##   3
    // 2   ##  ##  WP  ## 2
    // 1 ##  ##  ##  ##   1
    //    a b c d e f g h
    // part 6 WP - f2 f4
    //    a b c d e f g h
    // 8   ##  ##  ##  ## 8
    // 7 ##  ##  ##  ##   7
    // 6   ##  ##  ##  ## 6
    // 5 ##  BP  ##  ##   5
    // 4   ##  ##BPWP  ## 4
    // 3 ##  ##  ##  ##   3
    // 2   ##  ##  ##  ## 2
    // 1 ##  ##  ##  ##   1
    //    a b c d e f g h

    let board = Board::create_empty_board();
    let mut game = Game::inject_board(board);

    let white_pawn_1_start = get_row_column(&game, String::from("f2"));
    let white_pawn_2_start = get_row_column(&game, String::from("g2"));
    let black_pawn_1_start = get_row_column(&game, String::from("e7"));
    let black_pawn_2_start = get_row_column(&game, String::from("c7"));
    let black_pawn_1 = PieceType::Pawn.create_actual_piece(PieceInfo::new(Color::Black, true));
    let black_pawn_2 = PieceType::Pawn.create_actual_piece(PieceInfo::new(Color::Black, true));
    let white_pawn_1 = PieceType::Pawn.create_actual_piece(PieceInfo::new(Color::White, true));
    let white_pawn_2 = PieceType::Pawn.create_actual_piece(PieceInfo::new(Color::White, true));

    game.set_piece_row_col(&white_pawn_1_start, white_pawn_1);
    game.set_piece_row_col(&white_pawn_2_start, white_pawn_2);
    game.set_piece_row_col(&black_pawn_1_start, black_pawn_1);
    game.set_piece_row_col(&black_pawn_2_start, black_pawn_2);

    game.start_movement(
        /*from=*/ &get_row_column(&game, String::from("g2")),
        /*to=*/ &get_row_column(&game, String::from("g4")),
        None,
    )
    .unwrap();

    game.start_movement(
        /*from=*/ &get_row_column(&game, String::from("e7")),
        /*to=*/ &get_row_column(&game, String::from("e5")),
        None,
    );

    game.start_movement(
        /*from=*/ &get_row_column(&game, String::from("g4")),
        /*to=*/ &get_row_column(&game, String::from("g5")),
        None,
    );

    game.start_movement(
        /*from=*/ &get_row_column(&game, String::from("e5")),
        /*to=*/ &get_row_column(&game, String::from("e4")),
        None,
    );

    game.start_movement(
        /*from=*/ &get_row_column(&game, String::from("f2")),
        /*to=*/ &get_row_column(&game, String::from("f4")),
        None,
    );
    let result = game.start_movement(
        /*from=*/ &get_row_column(&game, String::from("e4")),
        /*to=*/ &get_row_column(&game, String::from("f3")),
        None,
    );

    assert_eq!(true, result.is_ok());

    println!("{}", game.print_board());
}

#[test]
fn en_passant_test_invalid() {
    // Let's imagine this
    //    a b c d e f g h
    // 8   ##  ##  ##  ## 8
    // 7 ##  BP  BP  ##   7
    // 6   ##  ##  ##  ## 6
    // 5 ##  ##  ##  ##   5
    // 4   ##  ##  ##  ## 4
    // 3 ##  ##  ##  ##   3
    // 2   ##  ##  WP  ## 2
    // 1 ##  ##  ##  ##   1
    //    a b c d e f g h
    // part 2 WP - f2 f4
    //    a b c d e f g h
    // 8   ##  ##  ##  ## 8
    // 7 ##  BP  BP  ##   7
    // 6   ##  ##  ##  ## 6
    // 5 ##  ##  ##  ##   5
    // 4   ##  ##  WP  ## 4
    // 3 ##  ##  ##  ##   3
    // 2   ##  ##  ##  ## 2
    // 1 ##  ##  ##  ##   1
    //    a b c d e f g h
    // part 3 BP - c7 to c5
    //    a b c d e f g h
    // 8   ##  ##  ##  ## 8
    // 7 ##  ##  BP  ##   7
    // 6   ##  ##  ##  ## 6
    // 5 ##  BP  ##  ##   5
    // 4   ##  ##  WP  ## 4
    // 3 ##  ##  ##  ##   3
    // 2   ##  ##  ##  ## 2
    // 1 ##  ##  ##  ##   1
    //    a b c d e f g h
    // part 4 wp - f4 -f5
    //    a b c d e f g h
    // 8   ##  ##  ##  ## 8
    // 7 ##  ##  BP  ##   7
    // 6   ##  ##  ##  ## 6
    // 5 ##  BP  ##WP##   5
    // 4   ##  ##  ##  ## 4
    // 3 ##  ##  ##  ##   3
    // 2   ##  ##  ##  ## 2
    // 1 ##  ##  ##  ##   1
    //    a b c d e f g h
    // part 5 bp - e7 -e5
    //    a b c d e f g h
    // 8   ##  ##  ##  ## 8
    // 7 ##  ##  ##  ##   7
    // 6   ##  ##  ##  ## 6
    // 5 ##  BP  BPWP##   5
    // 4   ##  ##  ##  ## 4
    // 3 ##  ##  ##  ##   3
    // 2   ##  ##  ##  ## 2
    // 1 ##  ##  ##  ##   1
    //    a b c d e f g h
    // en passant WP - f5 g6 - should be invalid
    // en passant WP - f5 e4 - should be invalid
    //    a b c d e f g h
    // 8   ##  ##  ##  ## 8
    // 7 ##  ##  ##  ##   7
    // 6   ##  ##  ##  ## 6
    // 5 ##  BP  BPWP##   5
    // 4   ##  ##  ##  ## 4
    // 3 ##  ##  ##  ##   3
    // 2   ##  ##  ##  ## 2
    // 1 ##  ##  ##  ##   1
    //    a b c d e f g h

    let board = Board::create_empty_board();
    let mut game = Game::inject_board(board);

    let white_pawn_start = get_row_column(&game, String::from("f2"));
    let black_pawn_1_start = get_row_column(&game, String::from("e7"));
    let black_pawn_2_start = get_row_column(&game, String::from("c7"));
    let black_pawn_1 = PieceType::Pawn.create_actual_piece(PieceInfo::new(Color::Black, true));
    let black_pawn_2 = PieceType::Pawn.create_actual_piece(PieceInfo::new(Color::Black, true));
    let white_pawn = PieceType::Pawn.create_actual_piece(PieceInfo::new(Color::White, true));

    game.set_piece_row_col(&white_pawn_start, white_pawn);
    game.set_piece_row_col(&black_pawn_1_start, black_pawn_1);
    game.set_piece_row_col(&black_pawn_2_start, black_pawn_2);

    game.start_movement(
        /*from=*/ &get_row_column(&game, String::from("f2")),
        /*to=*/ &get_row_column(&game, String::from("f4")),
        None,
    )
    .unwrap();

    game.start_movement(
        /*from=*/ &get_row_column(&game, String::from("c7")),
        /*to=*/ &get_row_column(&game, String::from("c5")),
        None,
    );

    game.start_movement(
        /*from=*/ &get_row_column(&game, String::from("f4")),
        /*to=*/ &get_row_column(&game, String::from("f5")),
        None,
    );

    game.start_movement(
        /*from=*/ &get_row_column(&game, String::from("e7")),
        /*to=*/ &get_row_column(&game, String::from("e5")),
        None,
    );

    let result = game.start_movement(
        /*from=*/ &get_row_column(&game, String::from("f5")),
        /*to=*/ &get_row_column(&game, String::from("g6")),
        None,
    );

    assert_eq!(true, result.is_err());

    let result = game.start_movement(
        /*from=*/ &get_row_column(&game, String::from("f5")),
        /*to=*/ &get_row_column(&game, String::from("e4")),
        None,
    );

    assert_eq!(true, result.is_err());

    println!("{}", game.print_board());
}

#[test]
fn en_passant_missed_chance() {
    let board = Board::create_empty_board();
    let mut game = Game::inject_board(board);

    let white_pawn_start = get_row_column(&game, String::from("f2"));
    let white_another_pawn_start = get_row_column(&game, String::from("g2"));
    let black_pawn_1_start = get_row_column(&game, String::from("e7"));
    let black_pawn_2_start = get_row_column(&game, String::from("c7"));
    let black_pawn_1 = PieceType::Pawn.create_actual_piece(PieceInfo::new(Color::Black, true));
    let black_pawn_2 = PieceType::Pawn.create_actual_piece(PieceInfo::new(Color::Black, true));
    let white_pawn = PieceType::Pawn.create_actual_piece(PieceInfo::new(Color::White, true));
    let white_pawn_2 = PieceType::Pawn.create_actual_piece(PieceInfo::new(Color::White, true));

    game.set_piece_row_col(&white_pawn_start, white_pawn);
    game.set_piece_row_col(&white_another_pawn_start, white_pawn_2);
    game.set_piece_row_col(&black_pawn_1_start, black_pawn_1);
    game.set_piece_row_col(&black_pawn_2_start, black_pawn_2);

    game.start_movement(
        /*from=*/ &get_row_column(&game, String::from("f2")),
        /*to=*/ &get_row_column(&game, String::from("f4")),
        None,
    )
    .unwrap();

    game.start_movement(
        /*from=*/ &get_row_column(&game, String::from("c7")),
        /*to=*/ &get_row_column(&game, String::from("c5")),
        None,
    );

    game.start_movement(
        /*from=*/ &get_row_column(&game, String::from("f4")),
        /*to=*/ &get_row_column(&game, String::from("f5")),
        None,
    );

    game.start_movement(
        /*from=*/ &get_row_column(&game, String::from("e7")),
        /*to=*/ &get_row_column(&game, String::from("e5")),
        None,
    );

    game.start_movement(
        /*from=*/ &get_row_column(&game, String::from("g2")),
        /*to=*/ &get_row_column(&game, String::from("g3")),
        None,
    );

    // pretend black already went
    game.start_movement(
        /*from=*/ &get_row_column(&game, String::from("c5")),
        /*to=*/ &get_row_column(&game, String::from("c4")),
        None,
    );

    let result = game.start_movement(
        /*from=*/ &get_row_column(&game, String::from("f5")),
        /*to=*/ &get_row_column(&game, String::from("e6")),
        None,
    );

    assert_eq!(true, result.is_err());

    println!("{}", game.print_board());
}

#[test]
fn simple_promotion_test() {
    let board = Board::create_empty_board();
    let mut game = Game::inject_board(board);
    let white_pawn_start = get_row_column(&game, String::from("a7"));
    let black_pawn_start = get_row_column(&game, String::from("a2"));
    let black_pawn = PieceType::Pawn.create_actual_piece(PieceInfo::new(Color::Black, true));
    let white_pawn = PieceType::Pawn.create_actual_piece(PieceInfo::new(Color::White, true));

    game.set_piece_row_col(&white_pawn_start, white_pawn);
    game.set_piece_row_col(&black_pawn_start, black_pawn);
    println!("{}", game.print_board());

    let result = game.handle_input(&String::from("move a7 a8"));
    assert_eq!(true, result.is_err());
    assert_eq!("We need to know what piece you want", result.err().unwrap());

    let result = game.handle_input(&String::from("move a7 a8Q"));
    assert_eq!(true, result.is_ok());
    println!("{}", game.print_board());

    // same for black
    let result = game.handle_input(&String::from("move a2 a1"));
    assert_eq!(true, result.is_err());
    assert_eq!("We need to know what piece you want", result.err().unwrap());

    let result = game.handle_input(&String::from("move a2 a1R"));
    assert_eq!(true, result.is_ok());
    println!("{}", game.print_board());
}

#[test]
fn knight_movement_testing() {
    let board = Board::create_empty_board();
    let mut game = Game::inject_board(board);
    let from = get_row_column(&game, String::from("c5"));
    let to = get_row_column(&game, String::from("c7"));
    let white_knight_placement = get_row_column(&game, String::from("c5"));
    let white_king = PieceType::Knight.create_actual_piece(PieceInfo::new(Color::White, true));

    game.set_piece_row_col(&from, white_king);

    let result = game.start_movement(&from, &to, None);

    assert_eq!(true, result.is_err());
}

