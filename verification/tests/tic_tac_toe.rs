use lib::tic_tac_toe::{Game, Player, Square, Status};

#[test]
fn lib_not_allow_player_o_to_play_first() {
    let mut game = Game::default();

    let result = game.play(Player::O, Square::top_left());

    assert_eq!(Err(String::from("Invalid player")), result);
}

#[test]
fn lib_not_allow_player_x_to_play_twice() {
    let mut game = Game::default();

    let mut result = game.play(Player::X, Square::top_left());
    assert_eq!(Ok(Status::Playing), result);

    result = game.play(Player::X, Square::top_middle());
    assert_eq!(Err(String::from("Invalid player")), result);
}

#[test]
fn lib_not_allow_player_to_play_twice_in_same_position() {
    let mut game = Game::default();

    let mut result = game.play(Player::X, Square::top_left());
    assert_eq!(Ok(Status::Playing), result);

    result = game.play(Player::O, Square::top_left());
    assert_eq!(Err(String::from("Invalid move")), result);
}

#[test]
fn lib_not_allow_player_to_play_in_same_position_once_taken() {
    let mut game = Game::default();

    let mut result = game.play(Player::X, Square::top_left());
    assert_eq!(Ok(Status::Playing), result);

    result = game.play(Player::O, Square::top_middle());
    assert_eq!(Ok(Status::Playing), result);

    result = game.play(Player::X, Square::top_left());
    assert_eq!(Err(String::from("Invalid move")), result);
}

#[test]
fn lib_declare_winner_if_it_has_three_moves_on_top_row() {
    let mut game = Game::default();

    _ = game.play(Player::X, Square::top_left());
    _ = game.play(Player::O, Square::center_left());
    _ = game.play(Player::X, Square::top_middle());
    _ = game.play(Player::O, Square::center_middle());
    let result = game.play(Player::X, Square::top_rigth());
    assert_eq!(Ok(Status::Win(Player::X)), result);
}

#[test]
fn lib_declare_winner_if_it_has_three_moves_on_center_row() {
    let mut game = Game::default();

    _ = game.play(Player::X, Square::center_left());
    _ = game.play(Player::O, Square::top_left());
    _ = game.play(Player::X, Square::center_middle());
    _ = game.play(Player::O, Square::top_middle());
    let result = game.play(Player::X, Square::center_rigth());
    assert_eq!(Ok(Status::Win(Player::X)), result);
}

#[test]
fn lib_declare_winner_if_it_has_three_moves_on_bottom_row() {
    let mut game = Game::default();

    _ = game.play(Player::X, Square::bottom_left());
    _ = game.play(Player::O, Square::top_left());
    _ = game.play(Player::X, Square::bottom_middle());
    _ = game.play(Player::O, Square::top_middle());
    let result = game.play(Player::X, Square::bottom_rigth());
    assert_eq!(Ok(Status::Win(Player::X)), result);
}

#[test]
fn lib_declare_winner_if_it_has_three_moves_on_left_column() {
    let mut game = Game::default();

    _ = game.play(Player::X, Square::top_left());
    _ = game.play(Player::O, Square::center_rigth());
    _ = game.play(Player::X, Square::center_left());
    _ = game.play(Player::O, Square::center_middle());
    let result = game.play(Player::X, Square::bottom_left());
    assert_eq!(Ok(Status::Win(Player::X)), result);
}

#[test]
fn lib_declare_winner_if_it_has_three_moves_on_middle_column() {
    let mut game = Game::default();

    _ = game.play(Player::X, Square::top_middle());
    _ = game.play(Player::O, Square::center_rigth());
    _ = game.play(Player::X, Square::center_middle());
    _ = game.play(Player::O, Square::top_rigth());
    let result = game.play(Player::X, Square::bottom_middle());
    assert_eq!(Ok(Status::Win(Player::X)), result);
}

#[test]
fn lib_declare_winner_if_it_has_three_moves_on_right_column() {
    let mut game = Game::default();

    _ = game.play(Player::X, Square::top_rigth());
    _ = game.play(Player::O, Square::center_left());
    _ = game.play(Player::X, Square::center_rigth());
    _ = game.play(Player::O, Square::center_middle());
    let result = game.play(Player::X, Square::bottom_rigth());
    assert_eq!(Ok(Status::Win(Player::X)), result);
}

#[test]
fn tic_tac_toe_not_allow_player_o_to_play_first() {
    let mut game = Game::default();

    let result = game.play(Player::O, Square::top_left());

    assert_eq!(Err(String::from("Invalid player")), result);
}

#[test]
fn tic_tac_toe_not_allow_player_x_to_play_twice() {
    let mut game = Game::default();

    let mut result = game.play(Player::X, Square::top_left());
    assert_eq!(Ok(Status::Playing), result);

    result = game.play(Player::X, Square::top_middle());
    assert_eq!(Err(String::from("Invalid player")), result);
}

#[test]
fn tic_tac_toe_not_allow_player_to_play_twice_in_same_position() {
    let mut game = Game::default();

    let mut result = game.play(Player::X, Square::top_left());
    assert_eq!(Ok(Status::Playing), result);

    result = game.play(Player::O, Square::top_left());
    assert_eq!(Err(String::from("Invalid move")), result);
}

#[test]
fn tic_tac_toe_not_allow_player_to_play_in_same_position_once_taken() {
    let mut game = Game::default();

    let mut result = game.play(Player::X, Square::top_left());
    assert_eq!(Ok(Status::Playing), result);

    result = game.play(Player::O, Square::top_middle());
    assert_eq!(Ok(Status::Playing), result);

    result = game.play(Player::X, Square::top_left());
    assert_eq!(Err(String::from("Invalid move")), result);
}

#[test]
fn tic_tac_toe_declare_winner_if_it_has_three_moves_on_top_row() {
    let mut game = Game::default();

    _ = game.play(Player::X, Square::top_left());
    _ = game.play(Player::O, Square::center_left());
    _ = game.play(Player::X, Square::top_middle());
    _ = game.play(Player::O, Square::center_middle());
    let result = game.play(Player::X, Square::top_rigth());
    assert_eq!(Ok(Status::Win(Player::X)), result);
}

#[test]
fn tic_tac_toe_declare_winner_if_it_has_three_moves_on_center_row() {
    let mut game = Game::default();

    _ = game.play(Player::X, Square::center_left());
    _ = game.play(Player::O, Square::top_left());
    _ = game.play(Player::X, Square::center_middle());
    _ = game.play(Player::O, Square::top_middle());
    let result = game.play(Player::X, Square::center_rigth());
    assert_eq!(Ok(Status::Win(Player::X)), result);
}

#[test]
fn tic_tac_toe_declare_winner_if_it_has_three_moves_on_bottom_row() {
    let mut game = Game::default();

    _ = game.play(Player::X, Square::bottom_left());
    _ = game.play(Player::O, Square::top_left());
    _ = game.play(Player::X, Square::bottom_middle());
    _ = game.play(Player::O, Square::top_middle());
    let result = game.play(Player::X, Square::bottom_rigth());
    assert_eq!(Ok(Status::Win(Player::X)), result);
}

#[test]
fn tic_tac_toe_declare_winner_if_it_has_three_moves_on_left_column() {
    let mut game = Game::default();

    _ = game.play(Player::X, Square::top_left());
    _ = game.play(Player::O, Square::center_rigth());
    _ = game.play(Player::X, Square::center_left());
    _ = game.play(Player::O, Square::center_middle());
    let result = game.play(Player::X, Square::bottom_left());
    assert_eq!(Ok(Status::Win(Player::X)), result);
}

#[test]
fn tic_tac_toe_declare_winner_if_it_has_three_moves_on_middle_column() {
    let mut game = Game::default();

    _ = game.play(Player::X, Square::top_middle());
    _ = game.play(Player::O, Square::center_rigth());
    _ = game.play(Player::X, Square::center_middle());
    _ = game.play(Player::O, Square::top_rigth());
    let result = game.play(Player::X, Square::bottom_middle());
    assert_eq!(Ok(Status::Win(Player::X)), result);
}

#[test]
fn tic_tac_toe_declare_winner_if_it_has_three_moves_on_right_column() {
    let mut game = Game::default();

    _ = game.play(Player::X, Square::top_rigth());
    _ = game.play(Player::O, Square::center_left());
    _ = game.play(Player::X, Square::center_rigth());
    _ = game.play(Player::O, Square::center_middle());
    let result = game.play(Player::X, Square::bottom_rigth());
    assert_eq!(Ok(Status::Win(Player::X)), result);
}
