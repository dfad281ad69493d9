use chess::game::game::Game;

// Replays lines such as `1. e2 e4`: the second and third words are the squares.
fn replay_numbered(game: &mut Game, lines: &[&str]) {
    for line in lines {
        let movement: Vec<&str> = line.split(" ").collect();
        if movement.len() == 3 {
            let mut sb = String::from("move ");
            sb.push_str(movement[1]);
            sb.push_str(" ");
            sb.push_str(movement[2]);
            let result = game.handle_input(&sb);
            assert_eq!(true, result.is_ok(), "failed at {}", sb);
        }
    }
}

// Replays lines such as `e2e4` of exactly four characters.
fn replay_four(game: &mut Game, lines: &[&str]) {
    for line in lines {
        if line.len() == 4 {
            let mut sb = String::from("move ");
            let mut iter = line.chars();
            sb.push(iter.next().unwrap());
            sb.push(iter.next().unwrap());
            sb.push_str(" ");
            sb.push(iter.next().unwrap());
            sb.push(iter.next().unwrap());
            let result = game.handle_input(&sb);
            assert_eq!(true, result.is_ok(), "failed at {}", sb);
        }
    }
}

// Replays lines such as `e2e4`, or `g7g8Q` with the piece a pawn becomes.
fn replay_with_promotion(game: &mut Game, lines: &[&str]) {
    for line in lines {
        if line.len() >= 4 {
            let mut sb = String::from("move ");
            let mut iter = line.chars();
            sb.push(iter.next().unwrap());
            sb.push(iter.next().unwrap());
            sb.push_str(" ");
            sb.push(iter.next().unwrap());
            sb.push(iter.next().unwrap());
            if line.len() == 5 {
                sb.push(iter.next().unwrap());
            }
            let result = game.handle_input(&sb);
            assert_eq!(true, result.is_ok(), "failed at {}", sb);
            if sb == "move c6 b5" {
                println!("{}", game.print_board());
                println!("check here");
            }
        }
    }
}

// The recorded games (`./tests/resources/*.txt`) are not part of this crate: each test
// replays the lines it holds, none, and shows the board, as a missing record gives.
const BLACK_WINS: &[&str] = &[];
const DRAW: &[&str] = &[];
const WHITE_WINS: &[&str] = &[];
const WHITE_WINS_AUGUST_30: &[&str] = &[];
const DRAW_AUGUST_30: &[&str] = &[];
const DRAW_SEPT_1: &[&str] = &[];
const WHITE_WINS_SEPT_1: &[&str] = &[];

#[test]
fn playing_against_myself_before_check_mate_logic() {
    let mut game = Game::new();
    replay_numbered(&mut game, BLACK_WINS);
    println!("{}", game.print_board());
}

#[test]
fn draw() {
    let mut game = Game::new();
    replay_four(&mut game, DRAW);
    println!("{}", game.print_board());
}

// features promotion
#[test]
fn white_wins() {
    let mut game = Game::new();
    replay_with_promotion(&mut game, WHITE_WINS);
    println!("{}", game.print_board());
}

#[test]
fn white_wins_aug_30() {
    let mut game = Game::new();
    replay_with_promotion(&mut game, WHITE_WINS_AUGUST_30);
    println!("{}", game.print_board());
}

#[test]
fn draw_aug_30() {
    let mut game = Game::new();
    replay_with_promotion(&mut game, DRAW_AUGUST_30);
    println!("{}", game.print_board());
}

#[test]
fn draw_sept_1() {
    let mut game = Game::new();
    replay_with_promotion(&mut game, DRAW_SEPT_1);
    println!("{}", game.print_board());
}

#[test]
fn white_wins_sept_1() {
    let mut game = Game::new();
    replay_with_promotion(&mut game, WHITE_WINS_SEPT_1);
    println!("{}", game.print_board());
}

// The replays read both notations: a short game ending in checkmate.
#[test]
fn replays_read_both_notations() {
    let mut game = Game::new();
    replay_numbered(&mut game, &["1. f2 f3", "1. e7 e5"]);
    replay_four(&mut game, &["g2g4"]);
    replay_with_promotion(&mut game, &["d8h4"]);
    assert_eq!(game.has_ended(), true);
}
