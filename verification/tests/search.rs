use tictactoe::{Cell, GameState};

fn play(g: &mut GameState, index: usize, player: &str) {
    g.make_move(index, player.to_string()).unwrap();
}

#[test]
fn evaluate_line_exact_values() {
    let mut g = GameState::new();
    play(&mut g, 0, "O");
    play(&mut g, 1, "O");
    play(&mut g, 7, "X");
    // Two computer marks alone on a line score +4.
    assert_eq!(g.evaluate_line(0, 1, 2), 4);
    // One human mark alone scores -1.
    assert_eq!(g.evaluate_line(6, 7, 8), -1);
    // A mixed line scores 0 (1 holds O, 7 holds X).
    assert_eq!(g.evaluate_line(1, 4, 7), 0);
    // An all-empty line scores 0.
    assert_eq!(g.evaluate_line(2, 4, 6), 0);
}

#[test]
fn evaluate_board_exact_values() {
    let g = GameState::new();
    assert_eq!(g.evaluate_board(), 0);

    // The centre sits on four lines: one lone computer mark there
    // scores +1 on each of them.
    let mut c = GameState::new();
    play(&mut c, 4, "O");
    assert_eq!(c.evaluate_board(), 4);

    // A lone human corner mark sits on three lines.
    let mut h = GameState::new();
    play(&mut h, 0, "X");
    assert_eq!(h.evaluate_board(), -3);
}

#[test]
fn terminal_scores_depth_adjusted() {
    // A computer win evaluated with depth budget d scores 10 - d.
    let mut g = GameState::new();
    play(&mut g, 0, "O");
    play(&mut g, 1, "O");
    play(&mut g, 2, "O");
    assert_eq!(g.minimax(Cell::X, 9, i32::MIN, i32::MAX, false), (None, 1));
    assert_eq!(g.minimax(Cell::X, 3, i32::MIN, i32::MAX, false), (None, 7));

    // A human win scores -10 + d.
    let mut h = GameState::new();
    play(&mut h, 2, "X");
    play(&mut h, 4, "X");
    play(&mut h, 6, "X");
    assert_eq!(h.minimax(Cell::O, 9, i32::MIN, i32::MAX, true), (None, -1));

    // A full drawn board scores 0 with no move.
    let mut d = GameState::new();
    for i in [0usize, 2, 3, 7, 8] {
        play(&mut d, i, "X");
    }
    for i in [1usize, 4, 5, 6] {
        play(&mut d, i, "O");
    }
    assert_eq!(d.minimax(Cell::O, 9, i32::MIN, i32::MAX, true), (None, 0));
}

#[test]
fn depth_zero_falls_back_to_heuristic() {
    let mut g = GameState::new();
    play(&mut g, 4, "O");
    play(&mut g, 0, "X");
    let expected = g.evaluate_board();
    assert_eq!(g.minimax(Cell::X, 0, i32::MIN, i32::MAX, false), (None, expected));
}

#[test]
fn ai_move_deterministic() {
    let mut g = GameState::new();
    play(&mut g, 0, "X");
    play(&mut g, 4, "O");
    play(&mut g, 5, "X");
    for difficulty in ["easy", "medium", "hard"] {
        let first = g.get_ai_move(difficulty.to_string()).position;
        let second = g.get_ai_move(difficulty.to_string()).position;
        assert_eq!(first, second);
        assert!(first.is_some());
    }
}

#[test]
fn ai_move_lands_on_empty_cell() {
    let mut g = GameState::new();
    play(&mut g, 0, "X");
    play(&mut g, 1, "O");
    play(&mut g, 8, "X");
    for difficulty in ["easy", "medium", "hard"] {
        let r = g.get_ai_move(difficulty.to_string());
        assert!(!r.game_over);
        assert!(r.winner.is_none());
        assert!(r.winning_line.is_none());
        let p = r.position.unwrap();
        assert!(g.is_empty(p));
    }
}

#[test]
fn ai_move_on_full_board_is_harmless() {
    let mut d = GameState::new();
    for i in [0usize, 2, 3, 7, 8] {
        play(&mut d, i, "X");
    }
    for i in [1usize, 4, 5, 6] {
        play(&mut d, i, "O");
    }
    assert!(d.get_ai_move("hard".to_string()).position.is_none());
}

#[test]
fn immediate_win_taken() {
    // The computer owns 6 and 7 with 8 open; the only other open cell,
    // 1, wins nothing for either side. The search takes the win at 8.
    let mut g = GameState::new();
    for i in [2usize, 3, 4] {
        play(&mut g, i, "X");
    }
    for i in [0usize, 5, 6, 7] {
        play(&mut g, i, "O");
    }
    assert!(!g.is_game_over());
    assert_eq!(g.get_ai_move("hard".to_string()).position, Some(8));
}

#[test]
fn threat_blocked() {
    // The human owns 0 and 1 with 2 open and the computer has no win of
    // its own: the search must answer at 2.
    let mut g = GameState::new();
    play(&mut g, 0, "X");
    play(&mut g, 1, "X");
    play(&mut g, 4, "O");
    play(&mut g, 8, "O");
    assert_eq!(g.get_ai_move("hard".to_string()).position, Some(2));
}

#[test]
fn example_game_blocks_at_two() {
    // Empty board, X at 0, O at 4, X at 1: X threatens the top row, so
    // the computer at full depth answers at 2.
    let mut g = GameState::new();
    play(&mut g, 0, "X");
    play(&mut g, 4, "O");
    play(&mut g, 1, "X");
    assert_eq!(g.get_ai_move("hard".to_string()).position, Some(2));
}

#[test]
fn full_depth_self_play_draws() {
    // The computer as maximizer against an optimal minimizing opponent,
    // both at full depth, from the empty board: the game must end in a
    // draw whichever side moves first.
    for computer_first in [true, false] {
        let mut g = GameState::new();
        let mut computer_turn = computer_first;
        while !g.is_game_over() {
            let (mv, _) = if computer_turn {
                g.minimax(Cell::O, 9, i32::MIN, i32::MAX, true)
            } else {
                g.minimax(Cell::X, 9, i32::MIN, i32::MAX, false)
            };
            let index = mv.unwrap();
            let player = if computer_turn { "O" } else { "X" };
            play(&mut g, index, player);
            computer_turn = !computer_turn;
        }
        assert!(g.check_winner().is_none());
        assert!(g.is_board_full());
    }
}
