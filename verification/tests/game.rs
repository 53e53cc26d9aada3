use tictactoe::board::Board;
use tictactoe::game::Game;
use tictactoe::game::Outcome;
use tictactoe::player::MinimaxAI;
use tictactoe::player::Player;
use tictactoe::player::RandomAI;

#[test]
fn a_new_game_is_empty_and_player_one_moves() {
    let game = Game::new();
    assert_eq!(game.board().open_spaces(), vec![1, 2, 3, 4, 5, 6, 7, 8, 9]);
    assert_eq!(game.board().active_player(), 1);
    assert_eq!(game.board().is_terminal(), (-1, [0, 0, 0]));
}

#[test]
fn the_players_take_turns() {
    let mut game = Game::new();
    assert_eq!(game.play(5), (-1, [0, 0, 0]));
    assert_eq!(game.board().active_player(), 2);
    assert!(game.board().space_taken(5));
    assert_eq!(game.play(1), (-1, [0, 0, 0]));
    assert_eq!(game.board().active_player(), 1);
    assert_eq!(game.board().open_spaces(), vec![2, 3, 4, 6, 7, 8, 9]);
    let mut expected = Board::new();
    expected.set_active_player(1);
    expected.set_space(5);
    expected.set_active_player(2);
    expected.set_space(1);
    assert_eq!(game.board().print(), expected.print());
}

#[test]
fn a_game_ends_when_a_line_is_held() {
    let mut game = Game::new();
    for s in [1, 4, 2, 5] {
        assert_eq!(game.play(s), (-1, [0, 0, 0]));
    }
    assert_eq!(game.play(3), (1, [1, 2, 3]));
    assert_eq!(game.board().active_player(), 1);
    assert_eq!(game.board().is_terminal(), (1, [1, 2, 3]));
}

#[test]
fn the_second_player_can_win() {
    let mut game = Game::new();
    for s in [1, 5, 2, 3, 9] {
        assert_eq!(game.play(s), (-1, [0, 0, 0]));
    }
    assert_eq!(game.play(7), (2, [7, 5, 3]));
    assert_eq!(game.board().active_player(), 2);
}

#[test]
fn a_game_without_a_line_ends_in_a_draw() {
    let mut game = Game::new();
    for s in [1, 2, 3, 5, 4, 6, 8, 7] {
        assert_eq!(game.play(s), (-1, [0, 0, 0]));
    }
    assert_eq!(game.play(9), (0, [0, 0, 0]));
    assert!(game.board().is_full());
    assert_eq!(game.board().active_player(), 1);
}

fn play_out(first: &dyn Fn(&Board) -> usize, second: &dyn Fn(&Board) -> usize) -> (Game, Vec<usize>) {
    let mut game = Game::new();
    let mut moves = Vec::new();
    let mut state = game.board().is_terminal();
    while state.0 == -1 {
        let player = game.board().active_player();
        let space = if player == 1 { first(game.board()) } else { second(game.board()) };
        assert!(1 <= space && space <= 9);
        assert!(!game.board().space_taken(space));
        moves.push(space);
        state = game.play(space);
        if state.0 == -1 {
            assert_eq!(game.board().active_player(), 3 - player);
        }
        assert!(moves.len() <= 9);
    }
    assert_eq!(state, game.board().is_terminal());
    (game, moves)
}

#[test]
fn two_searching_players_play_a_game_to_its_end() {
    let strong = MinimaxAI::new(8);
    let weak = MinimaxAI::new(4);
    let (game, moves) = play_out(&|b| strong.choose_space(b), &|b| strong.choose_space(b));
    assert_eq!(moves, vec![1, 2, 3, 4, 5, 6, 7]);
    assert_eq!(game.board().is_terminal(), (1, [7, 5, 3]));
    let (game, moves) = play_out(&|b| strong.choose_space(b), &|b| weak.choose_space(b));
    assert_eq!(moves, vec![1, 2, 3, 5, 4, 6, 7]);
    assert_eq!(game.board().is_terminal(), (1, [1, 4, 7]));
}

#[test]
fn the_outcome_follows_the_state() {
    assert_eq!(Game::outcome(-1), Outcome::InProgress);
    assert_eq!(Game::outcome(0), Outcome::Draw);
    assert_eq!(Game::outcome(1), Outcome::Win(1));
    assert_eq!(Game::outcome(2), Outcome::Win(2));
    let mut game = Game::new();
    assert_eq!(Game::outcome(game.board().is_terminal().0), Outcome::InProgress);
    for s in [1, 4, 2, 5] {
        assert_eq!(Game::outcome(game.play(s).0), Outcome::InProgress);
    }
    assert_eq!(Game::outcome(game.play(3).0), Outcome::Win(1));
}

#[test]
fn random_players_play_a_game_to_its_end() {
    let ai = RandomAI::new();
    for _ in 0..50 {
        let (game, moves) = play_out(&|b| ai.choose_space(b), &|b| ai.choose_space(b));
        let state = game.board().is_terminal();
        assert!(state.0 == 0 || state.0 == 1 || state.0 == 2);
        assert!(5 <= moves.len() && moves.len() <= 9);
        assert_eq!(game.board().open_spaces().len(), 9 - moves.len());
        if state.0 == 0 {
            assert_eq!(moves.len(), 9);
        }
    }
}

#[test]
fn a_searching_player_meets_a_random_one() {
    let strong = MinimaxAI::new(8);
    let ai = RandomAI::new();
    for _ in 0..5 {
        let (game, _) = play_out(&|b| ai.choose_space(b), &|b| strong.choose_space(b));
        assert!(game.board().is_terminal().0 >= 0);
    }
}
