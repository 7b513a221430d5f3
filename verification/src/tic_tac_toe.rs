//! A tic-tac-toe game: two players alternate, each square can be
//! taken once, and three squares of one player in a row or a column
//! win. (As in many small versions of the game, diagonals do not
//! count.)

use vstd::prelude::*;
use vstd::string::*;
use vstd::pervasive::VecAdditionalExecFns;

verus! {

/// The state of the game after a move.
#[derive(Debug, PartialEq, Eq, Structural)]
pub enum Status {
    Playing,
    Win(Player),
    Draw,
}

/// One of the two players; X always moves first.
#[derive(Debug, PartialEq, Eq, Structural, Clone, Copy)]
pub enum Player {
    X,
    O,
}

/// A column of the board.
#[derive(Debug, PartialEq, Eq, Structural, Clone, Copy)]
pub enum Column {
    Left,
    Middle,
    Rigth,
}

/// A row of the board.
#[derive(Debug, PartialEq, Eq, Structural, Clone, Copy)]
pub enum Row {
    Top,
    Center,
    Bottom,
}

/// One of the nine squares of the board.
#[derive(Debug, PartialEq, Eq, Structural, Clone, Copy)]
pub struct Square {
    row: Row,
    column: Column,
}

impl Row {
    /// The row's place in the board's cell order.
    pub open spec fn spec_index(self) -> int {
        match self {
            Row::Top => 0,
            Row::Center => 1,
            Row::Bottom => 2,
        }
    }
}

impl Column {
    /// The column's place in the board's cell order.
    pub open spec fn spec_index(self) -> int {
        match self {
            Column::Left => 0,
            Column::Middle => 1,
            Column::Rigth => 2,
        }
    }
}

impl Square {
    /// The square at `row` and `column`.
    pub closed spec fn spec_at(row: Row, column: Column) -> Square {
        Square { row, column }
    }

    /// The square's row.
    pub closed spec fn spec_row(self) -> Row {
        self.row
    }

    /// The square's column.
    pub closed spec fn spec_column(self) -> Column {
        self.column
    }

    /// The square's place in the board's row-major cell order.
    pub closed spec fn spec_index(self) -> int {
        self.row.spec_index() * 3 + self.column.spec_index()
    }

    fn new(row: Row, column: Column) -> (square: Square)
        ensures
            square == Square::spec_at(row, column),
    {
        Square { row, column }
    }

    /// The board's cell order index of the square.
    fn index(&self) -> (i: usize)
        ensures
            i as int == self.spec_index(),
            0 <= i < 9,
    {
        let row: usize = match self.row {
            Row::Top => 0,
            Row::Center => 1,
            Row::Bottom => 2,
        };
        let column: usize = match self.column {
            Column::Left => 0,
            Column::Middle => 1,
            Column::Rigth => 2,
        };
        row * 3 + column
    }

    pub fn top_left() -> (square: Square)
        ensures
            square == Square::spec_at(Row::Top, Column::Left),
    {
        Square::new(Row::Top, Column::Left)
    }

    pub fn top_middle() -> (square: Square)
        ensures
            square == Square::spec_at(Row::Top, Column::Middle),
    {
        Square::new(Row::Top, Column::Middle)
    }

    pub fn top_rigth() -> (square: Square)
        ensures
            square == Square::spec_at(Row::Top, Column::Rigth),
    {
        Square::new(Row::Top, Column::Rigth)
    }

    pub fn center_left() -> (square: Square)
        ensures
            square == Square::spec_at(Row::Center, Column::Left),
    {
        Square::new(Row::Center, Column::Left)
    }

    pub fn center_middle() -> (square: Square)
        ensures
            square == Square::spec_at(Row::Center, Column::Middle),
    {
        Square::new(Row::Center, Column::Middle)
    }

    pub fn center_rigth() -> (square: Square)
        ensures
            square == Square::spec_at(Row::Center, Column::Rigth),
    {
        Square::new(Row::Center, Column::Rigth)
    }

    pub fn bottom_left() -> (square: Square)
        ensures
            square == Square::spec_at(Row::Bottom, Column::Left),
    {
        Square::new(Row::Bottom, Column::Left)
    }

    pub fn bottom_middle() -> (square: Square)
        ensures
            square == Square::spec_at(Row::Bottom, Column::Middle),
    {
        Square::new(Row::Bottom, Column::Middle)
    }

    pub fn bottom_rigth() -> (square: Square)
        ensures
            square == Square::spec_at(Row::Bottom, Column::Rigth),
    {
        Square::new(Row::Bottom, Column::Rigth)
    }
}

/// The nine cells of the board, row-major, each empty or taken.
struct Board {
    movements: Vec<Option<Player>>,
}

impl Board {
    /// The board always has exactly nine cells.
    pub closed spec fn wf(&self) -> bool {
        self.movements@.len() == 9
    }

    /// Who holds `square`, if anyone.
    pub closed spec fn spec_cell(&self, square: Square) -> Option<Player> {
        self.movements@[square.spec_index()]
    }

    /// Whether `player` holds all three squares of `row`.
    pub open spec fn spec_row_filled(&self, player: Player, row: Row) -> bool {
        &&& self.spec_cell(Square::spec_at(row, Column::Left)) == Some(player)
        &&& self.spec_cell(Square::spec_at(row, Column::Middle)) == Some(player)
        &&& self.spec_cell(Square::spec_at(row, Column::Rigth)) == Some(player)
    }

    /// Whether `player` holds all three squares of `column`.
    pub open spec fn spec_column_filled(&self, player: Player, column: Column) -> bool {
        &&& self.spec_cell(Square::spec_at(Row::Top, column)) == Some(player)
        &&& self.spec_cell(Square::spec_at(Row::Center, column)) == Some(player)
        &&& self.spec_cell(Square::spec_at(Row::Bottom, column)) == Some(player)
    }

    /// Whether the cell at `row` and `column` is held by `player`.
    fn cell_is(&self, row: Row, column: Column, player: Player) -> (held: bool)
        requires
            self.wf(),
        ensures
            held == (self.spec_cell(Square::spec_at(row, column)) == Some(player)),
    {
        let index = Square::new(row, column).index();
        match self.movements[index] {
            Some(occupant) => occupant == player,
            None => false,
        }
    }

    /// Takes `square` for `player`; refuses a square already taken.
    pub fn add(&mut self, player: Player, square: Square) -> (result: Result<(), String>)
        requires
            old(self).wf(),
        ensures
            final(self).wf(),
            old(self).spec_cell(square) is Some ==> {
                &&& result matches Err(message) && message@ == "Invalid move"@
                &&& forall|s: Square| final(self).spec_cell(s) == old(self).spec_cell(s)
            },
            old(self).spec_cell(square) is None ==> {
                &&& result is Ok
                &&& final(self).spec_cell(square) == Some(player)
                &&& forall|s: Square|
                    s != square ==> final(self).spec_cell(s) == old(self).spec_cell(s)
            },
    {
        let index = square.index();
        if self.movements[index].is_some() {
            return Err(String::from_str("Invalid move"));
        }
        self.movements.set(index, Some(player));
        proof {
            assert forall|s: Square| s != square implies final(self).spec_cell(s) == old(
                self,
            ).spec_cell(s) by {
                assert(s.spec_index() != square.spec_index());
            }
        }
        Ok(())
    }

    /// Whether `player`, having just taken `square`, now holds all of
    /// its row or all of its column.
    pub fn is_same_player_in_all_squares_in_row_or_column(
        &self,
        player: Player,
        square: Square,
    ) -> (won: bool)
        requires
            self.wf(),
        ensures
            won == (self.spec_row_filled(player, square.spec_row()) || self.spec_column_filled(
                player,
                square.spec_column(),
            )),
    {
        self.is_same_player_in_all_squares_in_row(&player, square.row)
            || self.is_same_player_in_all_squares_in_column(&player, square.column)
    }

    fn is_same_player_in_all_squares_in_row(&self, player: &Player, row: Row) -> (filled: bool)
        requires
            self.wf(),
        ensures
            filled == self.spec_row_filled(*player, row),
    {
        self.cell_is(row, Column::Left, *player) && self.cell_is(row, Column::Middle, *player)
            && self.cell_is(row, Column::Rigth, *player)
    }

    fn is_same_player_in_all_squares_in_column(
        &self,
        player: &Player,
        column: Column,
    ) -> (filled: bool)
        requires
            self.wf(),
        ensures
            filled == self.spec_column_filled(*player, column),
    {
        self.cell_is(Row::Top, column, *player) && self.cell_is(Row::Center, column, *player)
            && self.cell_is(Row::Bottom, column, *player)
    }
}

impl Default for Board {
    /// An empty board.
    fn default() -> (board: Board)
        ensures
            board.wf(),
            forall|s: Square| board.spec_cell(s) is None,
    {
        let mut movements: Vec<Option<Player>> = Vec::with_capacity(9);
        let mut i: usize = 0;
        while i < 9
            invariant
                i <= 9,
                movements@.len() == i,
                forall|j: int| 0 <= j < i ==> movements@[j] is None,
            decreases 9 - i,
        {
            movements.push(None);
            i += 1;
        }
        Board { movements }
    }
}

/// One game of tic-tac-toe: a board and the player who moved last.
pub struct Game {
    last_player: Player,
    board: Board,
}

impl Default for Game {
    /// A fresh game: the board is empty, and O counts as having moved
    /// last so that X moves first.
    fn default() -> (game: Game)
        ensures
            game.wf(),
            game.spec_last_player() == Player::O,
            forall|s: Square| game.spec_cell(s) is None,
    {
        Game { last_player: Player::O, board: Board::default() }
    }
}

impl Game {
    /// The game's board always has its nine cells.
    pub closed spec fn wf(&self) -> bool {
        self.board.wf()
    }

    /// The player who moved last.
    pub closed spec fn spec_last_player(&self) -> Player {
        self.last_player
    }

    /// Who holds `square`, if anyone.
    pub closed spec fn spec_cell(&self, square: Square) -> Option<Player> {
        self.board.spec_cell(square)
    }

    /// Whether `player` holds all of the row or all of the column of
    /// `square`.
    pub closed spec fn spec_won_through(&self, player: Player, square: Square) -> bool {
        self.board.spec_row_filled(player, square.spec_row()) || self.board.spec_column_filled(
            player,
            square.spec_column(),
        )
    }

    /// One move: `player` takes `square`. The same player may not move
    /// twice in a row, and a taken square may not be taken again; a
    /// move that completes a row or column wins, and any other move
    /// keeps the game going.
    pub fn play(&mut self, player: Player, square: Square) -> (outcome: Result<Status, String>)
        requires
            old(self).wf(),
        ensures
            final(self).wf(),
            player == old(self).spec_last_player() ==> {
                &&& outcome matches Err(message) && message@ == "Invalid player"@
                &&& *final(self) == *old(self)
            },
            player != old(self).spec_last_player() && old(self).spec_cell(square) is Some ==> {
                &&& outcome matches Err(message) && message@ == "Invalid move"@
                &&& final(self).spec_last_player() == old(self).spec_last_player()
                &&& forall|s: Square| final(self).spec_cell(s) == old(self).spec_cell(s)
            },
            player != old(self).spec_last_player() && old(self).spec_cell(square) is None ==> {
                &&& final(self).spec_cell(square) == Some(player)
                &&& (forall|s: Square|
                    s != square ==> final(self).spec_cell(s) == old(self).spec_cell(s))
                &&& (final(self).spec_won_through(player, square) ==> outcome == Ok::<Status, String>(Status::Win(player)) && final(self).spec_last_player() == old(self).spec_last_player())
                &&& (!final(self).spec_won_through(player, square) ==> outcome == Ok::<Status, String>(Status::Playing) && final(self).spec_last_player() == player)
            },
    {
        if player == self.last_player {
            return Err(String::from_str("Invalid player"));
        }
        let added = self.board.add(player, square);
        match added {
            Err(message) => Err(message),
            Ok(()) => {
                if self.board.is_same_player_in_all_squares_in_row_or_column(player, square) {
                    return Ok(Status::Win(player));
                }
                self.last_player = player;
                Ok(Status::Playing)
            },
        }
    }
}

} // verus!
