use tictactoe::board::Board;
use tictactoe::player::Entry;
use tictactoe::player::Human;
use tictactoe::player::MinimaxAI;
use tictactoe::player::Player;
use tictactoe::player::RandomAI;

fn position(first: &[usize], second: &[usize], to_move: u8) -> Board {
    let mut b = Board::new();
    b.set_active_player(1);
    for s in first {
        b.set_space(*s);
    }
    b.set_active_player(2);
    for s in second {
        b.set_space(*s);
    }
    b.set_active_player(to_move);
    b
}

#[test]
fn a_number_is_judged_by_range_and_by_the_board() {
    let b = position(&[1, 5], &[9], 2);
    let human = Human::new();
    assert_eq!(human.check_space(&b, None), Entry::Invalid);
    assert_eq!(human.check_space(&b, Some(0)), Entry::NotASpace);
    assert_eq!(human.check_space(&b, Some(10)), Entry::NotASpace);
    assert_eq!(human.check_space(&b, Some(usize::MAX)), Entry::NotASpace);
    assert_eq!(human.check_space(&b, Some(1)), Entry::Taken);
    assert_eq!(human.check_space(&b, Some(5)), Entry::Taken);
    assert_eq!(human.check_space(&b, Some(9)), Entry::Taken);
    for s in [2, 3, 4, 6, 7, 8] {
        assert_eq!(human.check_space(&b, Some(s)), Entry::Chosen(s));
    }
}

#[test]
fn a_line_is_read_as_a_number_without_the_space_around_it() {
    let b = position(&[1, 5], &[9], 2);
    let human = Human::new();
    assert_eq!(human.read_space(&b, "3\n"), Entry::Chosen(3));
    assert_eq!(human.read_space(&b, "  7 \r\n"), Entry::Chosen(7));
    assert_eq!(human.read_space(&b, "\t2"), Entry::Chosen(2));
    assert_eq!(human.read_space(&b, "+4\n"), Entry::Chosen(4));
    assert_eq!(human.read_space(&b, "006\n"), Entry::Chosen(6));
    assert_eq!(human.read_space(&b, "1\n"), Entry::Taken);
    assert_eq!(human.read_space(&b, " 9"), Entry::Taken);
    assert_eq!(human.read_space(&b, "0\n"), Entry::NotASpace);
    assert_eq!(human.read_space(&b, "10\n"), Entry::NotASpace);
    assert_eq!(human.read_space(&b, "4294967295\n"), Entry::NotASpace);
}

#[test]
fn a_line_that_is_no_number_is_invalid() {
    let b = Board::new();
    let human = Human::new();
    for line in ["", "\n", "abc\n", "3 4\n", "-1\n", "2.0\n", "five\n", "3x", "x3", "+", "99999999999999999999999999\n"] {
        assert_eq!(human.read_space(&b, line), Entry::Invalid);
    }
}

#[test]
fn a_random_player_chooses_an_open_space() {
    let ai = RandomAI::new();
    let b = position(&[1, 5], &[9], 2);
    let mut seen = [false; 10];
    for _ in 0..300 {
        let s = ai.choose_space(&b);
        assert!(1 <= s && s <= 9);
        assert!(!b.space_taken(s));
        assert!(b.open_spaces().contains(&s));
        seen[s] = true;
    }
    assert!(!seen[1] && !seen[5] && !seen[9]);
    assert!(seen.iter().filter(|&&hit| hit).count() > 1);
}

#[test]
fn a_random_player_takes_the_only_open_space() {
    let ai = RandomAI::new();
    let b = position(&[1, 3, 4, 8], &[2, 5, 6, 7], 1);
    for _ in 0..20 {
        assert_eq!(ai.choose_space(&b), 9);
    }
    let won = position(&[1, 2, 3, 9], &[4, 5, 7, 8], 2);
    assert_eq!(won.is_terminal(), (1, [1, 2, 3]));
    assert_eq!(ai.choose_space(&won), 6);
}

#[test]
fn a_random_player_plays_a_whole_board() {
    let ai = RandomAI::new();
    let mut b = Board::new();
    let mut player = 1;
    for n in 0..9 {
        b.set_active_player(player);
        let s = ai.choose_space(&b);
        assert!(!b.space_taken(s));
        b.set_space(s);
        assert_eq!(b.open_spaces().len(), 8 - n);
        player = 3 - player;
    }
    assert!(b.is_full());
}

#[test]
fn minimax_takes_the_winning_move() {
    let b = position(&[1, 2, 9], &[4, 5], 2);
    assert_eq!(MinimaxAI::new(1).choose_space(&b), 6);
    assert_eq!(MinimaxAI::new(2).choose_space(&b), 6);
    let c = position(&[1, 2], &[4, 5], 2);
    assert_eq!(MinimaxAI::new(1).choose_space(&c), 6);
    assert_eq!(MinimaxAI::new(2).choose_space(&c), 6);
    let d = position(&[], &[4, 5], 2);
    assert_eq!(MinimaxAI::new(1).choose_space(&d), 6);
    assert_eq!(MinimaxAI::new(2).choose_space(&d), 6);
    let mut after = d.clone();
    after.set_space(6);
    assert_eq!(after.is_terminal(), (2, [4, 5, 6]));
}

#[test]
fn minimax_keeps_an_earlier_space_that_scores_a_win_too() {
    let b = position(&[1, 2, 9], &[4, 5], 2);
    assert_eq!(MinimaxAI::new(3).choose_space(&b), 3);
    assert_eq!(MinimaxAI::new(8).choose_space(&b), 3);
    let d = position(&[], &[4, 5], 2);
    assert_eq!(MinimaxAI::new(8).choose_space(&d), 1);
}

#[test]
fn minimax_reports_the_space_of_the_best_reply() {
    let ai = MinimaxAI::new(8);
    let b = position(&[1, 3, 4], &[2, 5, 6, 7], 1);
    assert_eq!(b.open_spaces(), vec![8, 9]);
    assert_eq!(ai.minimax((0, b.clone()), 2, true), (8, -500_000));
    assert_eq!(ai.minimax((0, b.clone()), 1, true), (8, 0));
    assert_eq!(ai.minimax((0, b.clone()), 8, true), (8, -500_000));
    assert_eq!(ai.minimax((8, position(&[1, 3, 4, 8], &[2, 5, 6, 7], 1)), 1, false), (9, -500_000));
    assert_eq!(ai.minimax((0, position(&[1, 3, 4], &[2, 5, 6, 7], 2)), 2, true), (8, 1_000_000));
}

#[test]
fn minimax_reports_space_and_score() {
    let ai = MinimaxAI::new(8);
    assert_eq!(ai.minimax((0, position(&[1, 2, 9], &[4, 5], 2)), 8, true), (3, 1_000_000));
    assert_eq!(ai.minimax((0, position(&[1, 2, 9], &[4, 5], 2)), 2, true), (6, 1_000_000));
    assert_eq!(ai.minimax((0, position(&[1, 2, 9], &[4, 5], 2)), 2, false), (3, 1_000_000));
    assert_eq!(ai.minimax((0, position(&[3], &[], 2)), 8, true), (1, 1_000_000));
    assert_eq!(ai.minimax((0, position(&[3], &[], 2)), 4, true), (1, 0));
    assert_eq!(ai.minimax((0, position(&[], &[], 1)), 8, true), (1, -1_000_000));
    assert_eq!(ai.minimax((0, position(&[], &[], 2)), 9, true), (1, 1_000_000));
    assert_eq!(ai.minimax((0, position(&[1, 2], &[4, 5], 1)), 1, true), (6, 0));
    assert_eq!(ai.minimax((0, position(&[1, 2], &[4, 5], 1)), 1, false), (3, -1_000_000));
    assert_eq!(ai.minimax((0, position(&[1, 2], &[4, 5], 1)), 2, true), (3, -1_000_000));
    assert_eq!(ai.minimax((0, position(&[1, 2], &[4, 5], 1)), 3, true), (3, -1_000_000));
}

#[test]
fn minimax_keeps_the_first_of_equal_scores() {
    let ai = MinimaxAI::new(1);
    assert_eq!(ai.minimax((0, Board::new()), 1, true), (1, 0));
    assert_eq!(ai.minimax((0, Board::new()), 1, false), (1, 0));
    assert_eq!(ai.minimax((0, position(&[], &[], 1)), 2, true), (1, 0));
    assert_eq!(ai.choose_space(&position(&[1], &[2], 1)), 3);
}

#[test]
fn minimax_stops_at_depth_zero_and_at_the_end_of_the_game() {
    let ai = MinimaxAI::new(8);
    assert_eq!(ai.minimax((7, position(&[1, 2], &[4, 5], 2)), 0, true), (7, 0));
    assert_eq!(ai.minimax((7, position(&[1, 2, 3], &[4, 5], 2)), 8, true), (7, -1_000_000));
    assert_eq!(ai.minimax((4, position(&[1, 2, 9], &[4, 5, 6], 1)), 8, false), (4, 1_000_000));
    assert_eq!(
        ai.minimax((9, position(&[1, 3, 4, 8, 9], &[2, 5, 6, 7], 2)), 8, true),
        (9, -500_000)
    );
    assert_eq!(MinimaxAI::new(0).choose_space(&position(&[1], &[5], 1)), 0);
    assert_eq!(ai.choose_space(&position(&[1, 2, 3], &[4, 5], 2)), 0);
}

#[test]
fn minimax_answers_zero_on_a_full_board() {
    let full = position(&[1, 3, 4, 8, 9], &[2, 5, 6, 7], 2);
    assert!(full.is_full());
    assert_eq!(MinimaxAI::new(8).choose_space(&full), 0);
    assert_eq!(MinimaxAI::new(0).choose_space(&full), 0);
    assert_eq!(MinimaxAI::new(8).minimax((0, full.clone()), 8, true), (0, -500_000));
}

#[test]
fn minimax_chooses_as_its_search_reports() {
    let boards = [
        position(&[], &[], 1),
        position(&[5, 1], &[9], 2),
        position(&[1, 2, 3], &[4, 5], 2),
        position(&[1, 3, 4, 8, 9], &[2, 5, 6, 7], 2),
    ];
    for depth in [0, 1, 3, 8] {
        let ai = MinimaxAI::new(depth);
        for b in boards.iter() {
            let before = b.print();
            let chosen = ai.choose_space(b);
            assert_eq!(chosen, ai.minimax((0, b.clone()), depth, true).0);
            assert_eq!(chosen, ai.choose_space(b));
            assert_eq!(b.print(), before);
        }
    }
}

#[test]
fn minimax_scores_a_draw_on_the_last_space() {
    let ai = MinimaxAI::new(8);
    let b = position(&[1, 3, 4, 8], &[2, 5, 6, 7], 1);
    assert_eq!(ai.minimax((0, b.clone()), 8, true), (9, -500_000));
    assert_eq!(ai.choose_space(&b), 9);
}

#[test]
fn minimax_chooses_an_open_space_while_the_game_is_in_progress() {
    let boards = [
        position(&[], &[], 1),
        position(&[5], &[], 2),
        position(&[5, 1], &[9], 2),
        position(&[1, 3, 8], &[2, 5], 2),
        position(&[1, 3, 4, 8], &[2, 5, 6, 7], 1),
    ];
    for depth in [1, 2, 4, 8] {
        let ai = MinimaxAI::new(depth);
        for b in boards.iter() {
            let s = ai.choose_space(b);
            assert!(1 <= s && s <= 9);
            assert!(!b.space_taken(s));
        }
    }
    assert_eq!(MinimaxAI::new(4).choose_space(&boards[2]), 3);
    assert_eq!(MinimaxAI::new(8).choose_space(&boards[2]), 2);
    assert_eq!(MinimaxAI::new(8).choose_space(&boards[3]), 4);
}

fn is_white_space(c: char) -> bool {
    matches!(
        c,
        '\u{9}'..='\u{D}'
            | ' '
            | '\u{85}'
            | '\u{A0}'
            | '\u{1680}'
            | '\u{2000}'..='\u{200A}'
            | '\u{2028}'
            | '\u{2029}'
            | '\u{202F}'
            | '\u{205F}'
            | '\u{3000}'
    )
}

#[test]
fn white_space_and_nothing_else_is_taken_off_a_line() {
    let b = Board::new();
    let human = Human::new();
    let mut count = 0;
    for code in 0..=0x10FFFFu32 {
        if let Some(c) = char::from_u32(code) {
            let line = format!("{}5{}", c, c);
            let chosen = human.read_space(&b, &line) == Entry::Chosen(5);
            assert_eq!(chosen, is_white_space(c));
            if chosen {
                count += 1;
            }
        }
    }
    assert_eq!(count, 25);
}

#[test]
fn white_space_inside_a_line_stays() {
    let b = Board::new();
    let human = Human::new();
    assert_eq!(human.read_space(&b, " 2 "), Entry::Chosen(2));
    assert_eq!(human.read_space(&b, "\u{3000}\t 8\u{A0}\n"), Entry::Chosen(8));
    assert_eq!(human.read_space(&b, "1 2"), Entry::Invalid);
    assert_eq!(human.read_space(&b, " + 2"), Entry::Invalid);
    assert_eq!(human.read_space(&b, "   "), Entry::Invalid);
}
