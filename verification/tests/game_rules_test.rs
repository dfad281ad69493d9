use chess::game::board::Board;
use chess::game::check_mate_status::CheckMateStatus;
use chess::game::game::{Errors, Game, Outcome};
use chess::game::square::Square;
use chess::pieces::color::Color;
use chess::pieces::piece::{PieceInfo, PieceType, Pieces};
use chess::pieces::validator::row_column::RowColumn;

fn square(game: &Game, name: &str) -> RowColumn {
    let (column, rank, _) = game.valid_input(name).unwrap();
    RowColumn::new(game.convert_row_to_our_array(&rank).unwrap(), column)
}

fn piece_at(game: &Game, name: &str) -> Option<Pieces> {
    let rc = square(game, name);
    *game.board().squares[rc.row as usize][rc.column as usize].get_piece()
}

const START: &str = "   a b c d e f g h  \n\
8 BRBNBBBQBKBBBNBR 8\n\
7 BPBPBPBPBPBPBPBP 7\n\
6   ##  ##  ##  ## 6\n\
5 ##  ##  ##  ##   5\n\
4   ##  ##  ##  ## 4\n\
3 ##  ##  ##  ##   3\n\
2 WPWPWPWPWPWPWPWP 2\n\
1 WRWNWBWQWKWBWNWR 1\n   a b c d e f g h  \n";

#[test]
fn starting_board_text() {
    let game = Game::new();
    assert_eq!(game.print_board(), START);
    assert_eq!(Board::new().print_all(), START);
}

#[test]
fn starting_counts() {
    let board = Board::new();
    for color in [Color::White, Color::Black] {
        assert_eq!(board.count_of(color, PieceType::Pawn), 8);
        assert_eq!(board.count_of(color, PieceType::Rook), 2);
        assert_eq!(board.count_of(color, PieceType::Knight), 2);
        assert_eq!(board.count_of(color, PieceType::Bishop), 2);
        assert_eq!(board.count_of(color, PieceType::Queen), 1);
        assert_eq!(board.count_of(color, PieceType::King), 1);
    }
    let empty = Board::create_empty_board();
    assert_eq!(empty.count_of(Color::White, PieceType::Pawn), 0);
}

#[test]
fn counts_go_down_and_vanish() {
    let mut board = Board::new();
    let queen = Pieces::Queen(PieceInfo::new(Color::Black, false));
    board.remove_piece_from_map(queen);
    assert_eq!(board.count_of(Color::Black, PieceType::Queen), 0);
    assert_eq!(board.count_of(Color::White, PieceType::Queen), 1);
    let pawn = Pieces::Pawn(PieceInfo::new(Color::White, true));
    board.remove_piece_from_map(pawn);
    assert_eq!(board.count_of(Color::White, PieceType::Pawn), 7);
}

#[test]
fn square_names_read_with_white_space_and_a_letter() {
    let game = Game::new();
    assert_eq!(game.valid_input("  a3  "), Ok((0, 2, None)));
    assert_eq!(game.valid_input("h8Q"), Ok((7, 7, Some('Q'))));
    assert_eq!(game.valid_input("a"), Err(String::from("Invalid input.")));
    assert_eq!(game.valid_input(""), Err(String::from("Invalid input.")));
    assert_eq!(
        game.valid_input("A1"),
        Err(String::from("Must be a char between a - h."))
    );
    for column in 0..8u8 {
        for rank in 0..8u8 {
            let name: String = [(b'a' + column) as char, (b'1' + rank) as char].iter().collect();
            assert_eq!(game.valid_input(&name), Ok((column, rank, None)));
        }
    }
}

#[test]
fn row_conversion() {
    let game = Game::new();
    for rank in 0..8u8 {
        let row = game.convert_row_to_our_array(&rank).unwrap();
        assert_eq!(row, 7 - rank);
        assert_eq!(game.convert_row_to_our_array(&row).unwrap(), rank);
    }
    assert_eq!(game.convert_row_to_our_array(&8).unwrap(), 255);
    assert!(matches!(game.convert_row_to_our_array(&9), Err(Errors::InvalidInput)));
}

#[test]
fn command_errors() {
    let mut game = Game::new();
    let before = game.print_board();
    assert_eq!(game.handle_input("jump"), Err(String::from("Unknown input jump")));
    assert_eq!(game.handle_input("move a2"), Err(String::from("Missing from and/or to")));
    assert_eq!(
        game.handle_input("move z2 a9"),
        Err(String::from("Must be a char between a - h.,Invalid number. Must be between 1-8"))
    );
    assert_eq!(
        game.handle_input("move a2 a9"),
        Err(String::from("Invalid number. Must be between 1-8"))
    );
    assert_eq!(
        game.handle_input("move z2 a3"),
        Err(String::from("Must be a char between a - h."))
    );
    assert_eq!(game.handle_input("move a3 a4"), Err(String::from("No piece! Try again")));
    assert_eq!(
        game.handle_input("move a7 a6"),
        Err(String::from("You can't move the other's person piece"))
    );
    assert_eq!(game.handle_input("move a2 b3"), Err(String::from("Invalid movement.")));
    // two blanks in a row make an empty word, which names no square
    assert_eq!(game.handle_input("move  a2 a3"), Err(String::from("Invalid input.")));
    // refused commands leave the game as it was
    assert_eq!(game.print_board(), before);
    assert_eq!(game.get_current_user_color(), "W");
    assert_eq!(game.has_ended(), false);
}

#[test]
fn help_and_exit() {
    let mut game = Game::new();
    assert_eq!(game.handle_command("help"), Ok(Outcome::Help));
    assert_eq!(game.has_ended(), false);
    assert_eq!(game.handle_command("exit"), Ok(Outcome::Exit));
    assert_eq!(game.has_ended(), true);
}

#[test]
fn moves_alternate_sides() {
    let mut game = Game::new();
    assert_eq!(game.get_current_user_color(), "W");
    assert_eq!(
        game.handle_command("move e2 e4"),
        Ok(Outcome::Moved(CheckMateStatus::NONE, Color::White))
    );
    assert_eq!(game.get_current_user_color(), "B");
    assert_eq!(
        game.handle_input("move e2 e3"),
        Err(String::from("No piece! Try again"))
    );
    assert_eq!(
        game.handle_command("move e7 e5"),
        Ok(Outcome::Moved(CheckMateStatus::NONE, Color::Black))
    );
    assert_eq!(game.get_current_user_color(), "W");
    let pawn = piece_at(&game, "e4").unwrap();
    assert_eq!(pawn.get_piece_type(), PieceType::Pawn);
    assert_eq!(pawn.get_piece_info().get_has_moved(), true);
    assert_eq!(piece_at(&game, "e2"), None);
}

#[test]
fn fools_mate_ends_the_game() {
    let mut game = Game::new();
    assert!(game.handle_input("move f2 f3").is_ok());
    assert!(game.handle_input("move e7 e5").is_ok());
    assert!(game.handle_input("move g2 g4").is_ok());
    assert_eq!(
        game.handle_command("move d8 h4"),
        Ok(Outcome::Moved(CheckMateStatus::CHECKMATE, Color::Black))
    );
    assert_eq!(game.has_ended(), true);
}

#[test]
fn a_check_that_can_be_answered() {
    let mut game = Game::new();
    assert!(game.handle_input("move e2 e4").is_ok());
    assert!(game.handle_input("move d7 d6").is_ok());
    assert_eq!(
        game.handle_command("move f1 b5"),
        Ok(Outcome::Moved(CheckMateStatus::CHECK, Color::White))
    );
    assert_eq!(game.has_ended(), false);
}

#[test]
fn castling_moves_the_rook() {
    let mut game = Game::inject_board(Board::create_empty_board());
    let king = Pieces::King(PieceInfo::new(Color::White, true));
    let rook = Pieces::Rook(PieceInfo::new(Color::White, true));
    game.set_piece_row_col(&square(&game, "e1"), king);
    game.set_piece_row_col(&square(&game, "a1"), rook);
    assert_eq!(game.start_movement(&square(&game, "e1"), &square(&game, "c1"), None), Ok(()));
    assert_eq!(piece_at(&game, "c1").unwrap().get_piece_type(), PieceType::King);
    assert_eq!(piece_at(&game, "d1").unwrap().get_piece_type(), PieceType::Rook);
    assert_eq!(piece_at(&game, "d1").unwrap().get_piece_info().get_has_moved(), true);
    assert_eq!(piece_at(&game, "a1"), None);
    assert_eq!(piece_at(&game, "e1"), None);
}

#[test]
fn en_passant_takes_the_pawn_passed_by() {
    let mut game = Game::inject_board(Board::create_empty_board());
    game.set_piece_row_col(&square(&game, "f5"), Pieces::Pawn(PieceInfo::new(Color::White, true)));
    game.set_piece_row_col(&square(&game, "e7"), Pieces::Pawn(PieceInfo::new(Color::Black, true)));
    game.set_piece_row_col(&square(&game, "h2"), Pieces::Pawn(PieceInfo::new(Color::White, true)));
    assert_eq!(game.start_movement(&square(&game, "h2"), &square(&game, "h3"), None), Ok(()));
    assert_eq!(game.start_movement(&square(&game, "e7"), &square(&game, "e5"), None), Ok(()));
    assert_eq!(game.start_movement(&square(&game, "f5"), &square(&game, "e6"), None), Ok(()));
    assert_eq!(piece_at(&game, "e5"), None);
    assert_eq!(piece_at(&game, "e6").unwrap().get_piece_type(), PieceType::Pawn);
}

#[test]
fn promotion_needs_a_known_letter() {
    let mut game = Game::inject_board(Board::create_empty_board());
    game.set_piece_row_col(&square(&game, "b7"), Pieces::Pawn(PieceInfo::new(Color::White, true)));
    let before = game.print_board();
    assert_eq!(
        game.handle_input("move b7 b8X"),
        Err(String::from("Invalid piece. Please enter Q, R, B, or N"))
    );
    assert_eq!(game.print_board(), before);
    assert_eq!(game.handle_input("move b7 b8n"), Ok(()));
    let knight = piece_at(&game, "b8").unwrap();
    assert_eq!(knight.get_piece_type(), PieceType::Knight);
    assert_eq!(*knight.get_color(), Color::White);
    assert_eq!(piece_at(&game, "b7"), None);
}

#[test]
fn moving_from_an_empty_square() {
    let mut game = Game::inject_board(Board::create_empty_board());
    assert_eq!(
        game.start_movement(&square(&game, "b7"), &square(&game, "b6"), None),
        Err(String::from("Must contain a piece"))
    );
}

#[test]
fn set_and_read_back() {
    let mut board = Board::create_empty_board();
    let piece = Pieces::Bishop(PieceInfo::new(Color::Black, false));
    assert_eq!(board.set_piece(3, 4, piece), None);
    let knight = Pieces::Knight(PieceInfo::new(Color::White, false));
    assert_eq!(board.set_piece(3, 4, knight), Some(piece));
    assert_eq!(board.set_piece(3, 4, piece), Some(knight));
    assert_eq!(*board.squares[3][4].get_piece(), Some(piece));
    assert!(matches!(board.squares[3][4], Square::Black(_)));
    board.remove_piece(3, 4);
    assert_eq!(*board.squares[3][4].get_piece(), None);
    assert!(matches!(board.squares[3][4], Square::Black(_)));
}

#[test]
fn promotion_pieces() {
    let board = Board::create_empty_board();
    for c in ['Q', 'q', 'R', 'r', 'B', 'b', 'N', 'n'] {
        let piece = board.create_new_piece_and_set_as_moved(c, true).unwrap();
        assert_eq!(*piece.get_color(), Color::Black);
    }
    assert_eq!(board.create_new_piece_and_set_as_moved('K', false), None);
    assert_eq!(board.create_new_piece_and_set_as_moved('p', false), None);
    let queen = board.create_new_piece_and_set_as_moved('q', false).unwrap();
    assert_eq!(queen.get_piece_type(), PieceType::Queen);
    // a queen's movement is tracked, but only pawns, kings and rooks record a move
    assert_eq!(queen.get_piece_info().get_has_moved(), false);
    let rook = board.create_new_piece_and_set_as_moved('R', false).unwrap();
    assert_eq!(rook.get_piece_info().get_has_moved(), false);
}

#[test]
fn moved_pieces_stay_moved() {
    let mut piece = PieceType::Rook.create_actual_piece(PieceInfo::new(Color::White, true));
    assert_eq!(piece.get_piece_info().get_has_moved(), false);
    piece.set_as_moved();
    let once = piece;
    piece.set_as_moved();
    assert_eq!(piece, once);
    assert_eq!(piece.get_piece_type(), PieceType::Rook);
    assert_eq!(piece.get_piece_info().get_has_moved(), true);
    let mut knight = PieceType::Knight.create_actual_piece(PieceInfo::new(Color::Black, false));
    knight.set_as_moved();
    assert_eq!(knight.get_piece_info().get_has_moved(), false);
}

#[test]
fn an_ended_game_stays_ended() {
    let mut game = Game::new();
    assert!(game.handle_input("move f2 f3").is_ok());
    assert!(game.handle_input("move e7 e5").is_ok());
    assert!(game.handle_input("move g2 g4").is_ok());
    assert!(game.handle_input("move d8 h4").is_ok());
    assert_eq!(game.has_ended(), true);
    assert!(game.handle_input("move a2 a3").is_ok());
    assert_eq!(game.has_ended(), true);
    assert_eq!(game.handle_input("help"), Ok(()));
    assert_eq!(game.has_ended(), true);
}

#[test]
fn starting_position_is_mirrored() {
    for row in 0..8usize {
        for column in 0..8usize {
            let here = Board::maybe_get_piece(row, column);
            let there = Board::maybe_get_piece(7 - row, column);
            match (here, there) {
                (None, None) => {}
                (Some(a), Some(b)) => {
                    assert_eq!(a.get_piece_type(), b.get_piece_type());
                    assert_ne!(*a.get_color(), *b.get_color());
                }
                _ => panic!("row {} column {} is not mirrored", row, column),
            }
        }
    }
    assert_eq!(Board::maybe_get_piece(7, 4).unwrap().get_piece_type(), PieceType::King);
    assert_eq!(Board::maybe_get_piece(0, 3).unwrap().get_piece_type(), PieceType::Queen);
    assert_eq!(Board::maybe_get_piece(3, 3), None);
}

#[test]
fn pieces_keep_their_kind_and_information() {
    let info = PieceInfo::new(Color::Black, true);
    for kind in [
        PieceType::Pawn,
        PieceType::Bishop,
        PieceType::Knight,
        PieceType::King,
        PieceType::Queen,
        PieceType::Rook,
    ] {
        let piece = kind.create_actual_piece(info);
        assert_eq!(piece.get_piece_type(), kind);
        assert_eq!(*piece.get_piece_info(), info);
        assert_eq!(piece.get_piece_info_clone(), info);
    }
    assert_eq!(
        PieceType::Queen.create_actual_piece(info).get_name(),
        String::from("BQ")
    );
}

// A king that has not moved, asked to go two columns along its row beyond the board,
// is refused.
#[test]
fn king_two_columns_off_the_board() {
    let mut game = Game::inject_board(Board::create_empty_board());
    let king = Pieces::King(PieceInfo::new(Color::White, true));
    game.set_piece(7, 6, king);
    let before = game.print_board();
    assert_eq!(
        game.start_movement(&RowColumn::new(7, 6), &RowColumn::new(7, 8), None),
        Err(String::from("Invalid movement."))
    );
    assert_eq!(game.print_board(), before);
    assert_eq!(
        game.start_movement(&RowColumn::new(7, 6), &RowColumn::new(7, 9), None),
        Err(String::from("Invalid movement."))
    );
}
