//! The Mars rover instruction interpreter.
//!
//! An instruction text has three newline-separated logical lines: the
//! grid upper bound (parsed and deliberately left unenforced), the
//! starting pose `x y H`, and an optional command string. Each command
//! character turns the rover or moves it one cell forward; anything
//! other than `L`, `R` or `M` does nothing. Malformed input never
//! fails: a token that is not a numeral in range reads as 0, an
//! unrecognized heading reads as north, and a missing line is empty.
//! Moving past the edge of the coordinate range saturates, so a rover
//! at a boundary that is told to move beyond it stays where it is.

use vstd::prelude::*;
use vstd::string::*;
use crate::text::{
    chars_of_str, spec_decimal, spec_split_on, spec_split_whitespace, spec_token_u8, split_on,
    split_whitespace, token_u8, u8_to_decimal,
};

verus! {

/// The rover's compass heading.
#[derive(Clone, Copy, Debug, PartialEq, Eq, Structural)]
pub enum Direction {
    North,
    West,
    South,
    East,
}

/// One parsed instruction character.
#[derive(Clone, Copy, Debug, PartialEq, Eq, Structural)]
pub enum Command {
    Left,
    Right,
    Move,
    Null,
}

impl Direction {
    /// The heading after a quarter turn to the left.
    pub open spec fn spec_turn_left(self) -> Direction {
        match self {
            Direction::North => Direction::West,
            Direction::West => Direction::South,
            Direction::South => Direction::East,
            Direction::East => Direction::North,
        }
    }

    /// The heading after a quarter turn to the right.
    pub open spec fn spec_turn_right(self) -> Direction {
        match self {
            Direction::North => Direction::East,
            Direction::West => Direction::North,
            Direction::South => Direction::West,
            Direction::East => Direction::South,
        }
    }

    /// The unit step along x and y that one move forward takes.
    pub open spec fn spec_move_vector(self) -> (i8, i8) {
        match self {
            Direction::North => (0i8, 1i8),
            Direction::West => (-1i8, 0i8),
            Direction::South => (0i8, -1i8),
            Direction::East => (1i8, 0i8),
        }
    }

    /// The single letter that names the heading.
    pub open spec fn spec_label(self) -> char {
        match self {
            Direction::North => 'N',
            Direction::West => 'W',
            Direction::South => 'S',
            Direction::East => 'E',
        }
    }

    /// The heading a pose token names; any unrecognized token reads as
    /// north.
    pub open spec fn spec_of_token(token: Seq<char>) -> Direction {
        if token == seq!['N'] {
            Direction::North
        } else if token == seq!['W'] {
            Direction::West
        } else if token == seq!['S'] {
            Direction::South
        } else if token == seq!['E'] {
            Direction::East
        } else {
            Direction::North
        }
    }

    /// Turns a quarter turn to the left.
    pub fn turn_left(self) -> (turned: Direction)
        ensures
            turned == self.spec_turn_left(),
    {
        match self {
            Direction::North => Direction::West,
            Direction::West => Direction::South,
            Direction::South => Direction::East,
            Direction::East => Direction::North,
        }
    }

    /// Turns a quarter turn to the right.
    pub fn turn_right(self) -> (turned: Direction)
        ensures
            turned == self.spec_turn_right(),
    {
        match self {
            Direction::North => Direction::East,
            Direction::West => Direction::North,
            Direction::South => Direction::West,
            Direction::East => Direction::South,
        }
    }

    /// The unit step along x and y that one move forward takes.
    pub fn move_vector(self) -> (vector: (i8, i8))
        ensures
            vector == self.spec_move_vector(),
    {
        match self {
            Direction::North => (0, 1),
            Direction::West => (-1, 0),
            Direction::South => (0, -1),
            Direction::East => (1, 0),
        }
    }

    /// The single-letter label of the heading.
    pub fn label(self) -> (letter: &'static str)
        ensures
            letter@ == seq![self.spec_label()],
    {
        proof {
            reveal_strlit("N");
            reveal_strlit("W");
            reveal_strlit("S");
            reveal_strlit("E");
        }
        let letter = match self {
            Direction::North => "N",
            Direction::West => "W",
            Direction::South => "S",
            Direction::East => "E",
        };
        proof {
            assert(letter@ =~= seq![self.spec_label()]);
        }
        letter
    }

    /// Reads a heading from a pose token.
    fn of_token(token: &Vec<char>) -> (direction: Direction)
        ensures
            direction == Direction::spec_of_token(token@),
    {
        if token.len() == 1 {
            proof {
                assert(token@ == seq![token@[0]]) by {
                    assert(token@ =~= seq![token@[0]]);
                }
            }
            match token[0] {
                'N' => Direction::North,
                'W' => Direction::West,
                'S' => Direction::South,
                'E' => Direction::East,
                _ => Direction::North,
            }
        } else {
            Direction::North
        }
    }
}

impl Command {
    /// The command one character stands for; any unrecognized
    /// character stands for the command that does nothing.
    pub open spec fn spec_of_char(c: char) -> Command {
        if c == 'L' {
            Command::Left
        } else if c == 'R' {
            Command::Right
        } else if c == 'M' {
            Command::Move
        } else {
            Command::Null
        }
    }

    /// Reads one command character.
    fn from(input: &char) -> (command: Command)
        ensures
            command == Command::spec_of_char(*input),
    {
        match *input {
            'L' => Command::Left,
            'R' => Command::Right,
            'M' => Command::Move,
            _ => Command::Null,
        }
    }
}

/// `a + delta`, held inside the coordinate range: a step that would
/// pass an edge stops on it.
pub open spec fn spec_saturating_add(a: u8, delta: i8) -> u8 {
    if a + delta < 0 {
        0u8
    } else if a + delta > 255 {
        255u8
    } else {
        (a + delta) as u8
    }
}

/// Adds a signed unit step to a coordinate axis, saturating at the
/// edges of the range.
fn saturating_add(a: u8, delta: i8) -> (sum: u8)
    ensures
        sum == spec_saturating_add(a, delta),
{
    let wide: i16 = a as i16 + delta as i16;
    if wide < 0 {
        0
    } else if wide > 255 {
        255
    } else {
        wide as u8
    }
}

/// A grid coordinate.
pub struct Coordinate {
    x: u8,
    y: u8,
}

impl View for Coordinate {
    type V = (u8, u8);

    closed spec fn view(&self) -> (u8, u8) {
        (self.x, self.y)
    }
}

impl Coordinate {
    /// Places a coordinate.
    pub fn new(x: u8, y: u8) -> (coordinate: Coordinate)
        ensures
            coordinate@ == (x, y),
    {
        Coordinate { x, y }
    }

    /// Moves one cell up, staying put at the upper edge of the range.
    pub fn increment_y(&mut self)
        ensures
            final(self)@ == (old(self)@.0, spec_saturating_add(old(self)@.1, 1)),
    {
        self.y = saturating_add(self.y, 1);
    }

    /// Moves one cell down, staying put at 0.
    pub fn decrement_y(&mut self)
        ensures
            final(self)@ == (old(self)@.0, spec_saturating_add(old(self)@.1, -1i8)),
    {
        self.y = saturating_add(self.y, -1);
    }

    /// Moves one cell right, staying put at the upper edge of the
    /// range.
    pub fn increment_x(&mut self)
        ensures
            final(self)@ == (spec_saturating_add(old(self)@.0, 1), old(self)@.1),
    {
        self.x = saturating_add(self.x, 1);
    }

    /// Moves one cell left, staying put at 0.
    pub fn decrement_x(&mut self)
        ensures
            final(self)@ == (spec_saturating_add(old(self)@.0, -1i8), old(self)@.1),
    {
        self.x = saturating_add(self.x, -1);
    }

    /// Adds a step vector to both axes, saturating at the edges.
    pub fn apply_vector(&mut self, vector: (i8, i8))
        ensures
            final(self)@ == (
                spec_saturating_add(old(self)@.0, vector.0),
                spec_saturating_add(old(self)@.1, vector.1),
            ),
    {
        self.x = saturating_add(self.x, vector.0);
        self.y = saturating_add(self.y, vector.1);
    }
}

/// A full rover pose: coordinate and heading.
pub struct Position {
    coordinate: Coordinate,
    direction: Direction,
}

/// The pose after one move forward: one axis changes by one unit,
/// chosen by the heading, saturating at the edges of the range.
pub open spec fn spec_move_forward(pose: (u8, u8, Direction)) -> (u8, u8, Direction) {
    let vector = pose.2.spec_move_vector();
    (spec_saturating_add(pose.0, vector.0), spec_saturating_add(pose.1, vector.1), pose.2)
}

/// The pose after one command.
pub open spec fn spec_apply(pose: (u8, u8, Direction), command: Command) -> (u8, u8, Direction) {
    match command {
        Command::Left => (pose.0, pose.1, pose.2.spec_turn_left()),
        Command::Right => (pose.0, pose.1, pose.2.spec_turn_right()),
        Command::Move => spec_move_forward(pose),
        Command::Null => pose,
    }
}

/// The pose after a command sequence, applied strictly left to right.
pub open spec fn spec_run(pose: (u8, u8, Direction), commands: Seq<Command>) -> (u8, u8, Direction)
    decreases commands.len(),
{
    if commands.len() == 0 {
        pose
    } else {
        spec_run(spec_apply(pose, commands[0]), commands.drop_first())
    }
}

impl View for Position {
    type V = (u8, u8, Direction);

    closed spec fn view(&self) -> (u8, u8, Direction) {
        (self.coordinate@.0, self.coordinate@.1, self.direction)
    }
}

impl Position {
    /// Places a pose.
    pub fn new(coordinate: Coordinate, direction: Direction) -> (position: Position)
        ensures
            position@ == (coordinate@.0, coordinate@.1, direction),
    {
        Position { coordinate, direction }
    }

    /// Turns the pose a quarter turn to the left in place.
    pub fn turn_left(&mut self)
        ensures
            final(self)@ == (old(self)@.0, old(self)@.1, old(self)@.2.spec_turn_left()),
    {
        let turned = self.direction.turn_left();
        self.change_direction(turned);
    }

    /// Turns the pose a quarter turn to the right in place.
    pub fn turn_right(&mut self)
        ensures
            final(self)@ == (old(self)@.0, old(self)@.1, old(self)@.2.spec_turn_right()),
    {
        let turned = self.direction.turn_right();
        self.change_direction(turned);
    }

    /// Moves one cell in the direction of the current heading.
    pub fn move_position(&mut self)
        ensures
            final(self)@ == spec_move_forward(old(self)@),
    {
        match self.direction {
            Direction::North => self.move_north(),
            Direction::West => self.move_west(),
            Direction::South => self.move_south(),
            Direction::East => self.move_east(),
        }
    }

    /// Moves one cell in the direction of the current heading, by
    /// adding the heading's step vector.
    pub fn move_forward(&mut self)
        ensures
            final(self)@ == spec_move_forward(old(self)@),
    {
        let vector = self.direction.move_vector();
        self.coordinate.apply_vector(vector);
    }

    fn change_direction(&mut self, direction: Direction)
        ensures
            final(self)@ == (old(self)@.0, old(self)@.1, direction),
    {
        self.direction = direction;
    }

    /// Moves one cell up.
    pub fn move_north(&mut self)
        ensures
            final(self)@ == (old(self)@.0, spec_saturating_add(old(self)@.1, 1), old(self)@.2),
    {
        self.coordinate.increment_y()
    }

    /// Moves one cell down.
    pub fn move_south(&mut self)
        ensures
            final(self)@ == (old(self)@.0, spec_saturating_add(old(self)@.1, -1i8), old(self)@.2),
    {
        self.coordinate.decrement_y()
    }

    /// Moves one cell right.
    pub fn move_east(&mut self)
        ensures
            final(self)@ == (spec_saturating_add(old(self)@.0, 1), old(self)@.1, old(self)@.2),
    {
        self.coordinate.increment_x()
    }

    /// Moves one cell left.
    pub fn move_west(&mut self)
        ensures
            final(self)@ == (spec_saturating_add(old(self)@.0, -1i8), old(self)@.1, old(self)@.2),
    {
        self.coordinate.decrement_x()
    }
}

/// The `n`-th newline-separated line of the input; a line the input
/// does not have is empty.
pub open spec fn spec_nth_line(input: Seq<char>, n: int) -> Seq<char> {
    let lines = spec_split_on(input, '\n');
    if n < lines.len() {
        lines[n]
    } else {
        Seq::empty()
    }
}

/// The starting pose that the whitespace-separated tokens of the pose
/// line describe: a missing or malformed coordinate token reads as 0,
/// and a missing or unrecognized heading token reads as north.
pub open spec fn spec_pose_of_tokens(tokens: Seq<Seq<char>>) -> (u8, u8, Direction) {
    let x = if tokens.len() > 0 {
        spec_token_u8(tokens[0])
    } else {
        0u8
    };
    let y = if tokens.len() > 1 {
        spec_token_u8(tokens[1])
    } else {
        0u8
    };
    let direction = if tokens.len() > 2 {
        Direction::spec_of_token(tokens[2])
    } else {
        Direction::North
    };
    (x, y, direction)
}

/// The starting pose of an instruction text: read from the second
/// line, with the first line (the grid bound) consumed and discarded.
pub open spec fn spec_parse_pose(input: Seq<char>) -> (u8, u8, Direction) {
    spec_pose_of_tokens(spec_split_whitespace(spec_nth_line(input, 1)))
}

/// The commands of a command line, one per character.
pub open spec fn spec_commands_of(line: Seq<char>) -> Seq<Command> {
    line.map_values(|c: char| Command::spec_of_char(c))
}

/// The command sequence of an instruction text: read from the third
/// line, empty when that line is missing.
pub open spec fn spec_parse_commands(input: Seq<char>) -> Seq<Command> {
    spec_commands_of(spec_nth_line(input, 2))
}

/// The report line for a pose: `"<x> <y> <heading letter>"`.
pub open spec fn spec_render(pose: (u8, u8, Direction)) -> Seq<char> {
    spec_decimal(pose.0 as nat) + seq![' '] + spec_decimal(pose.1 as nat) + seq![' ']
        + seq![pose.2.spec_label()]
}

/// What executing an instruction text reports: the pose parsed from
/// it, taken through its commands in order, rendered as text.
pub open spec fn spec_execute(input: Seq<char>) -> Seq<char> {
    spec_render(spec_run(spec_parse_pose(input), spec_parse_commands(input)))
}

/// Four consecutive quarter turns to the left lead back to the
/// original heading, from every heading.
pub proof fn lemma_four_left_turns_identity(direction: Direction)
    ensures
        direction.spec_turn_left().spec_turn_left().spec_turn_left().spec_turn_left() == direction,
{
}

/// Four consecutive quarter turns to the right lead back to the
/// original heading, from every heading.
pub proof fn lemma_four_right_turns_identity(direction: Direction)
    ensures
        direction.spec_turn_right().spec_turn_right().spec_turn_right().spec_turn_right()
            == direction,
{
}

/// A left turn followed by a right turn, and a right turn followed by
/// a left turn, are both the identity on every heading.
pub proof fn lemma_opposite_turns_identity(direction: Direction)
    ensures
        direction.spec_turn_left().spec_turn_right() == direction,
        direction.spec_turn_right().spec_turn_left() == direction,
{
}

/// Running a command sequence extended by one command is running the
/// sequence and then applying that command.
proof fn lemma_run_snoc(pose: (u8, u8, Direction), commands: Seq<Command>, command: Command)
    ensures
        spec_run(pose, commands.push(command)) == spec_apply(spec_run(pose, commands), command),
    decreases commands.len(),
{
    let extended = commands.push(command);
    assert(spec_run(pose, extended) == spec_run(spec_apply(pose, extended[0]), extended.drop_first()));
    if commands.len() == 0 {
        assert(extended[0] == command);
        assert(extended.drop_first() =~= Seq::<Command>::empty());
        assert(spec_run(spec_apply(pose, command), extended.drop_first()) == spec_apply(
            pose,
            command,
        ));
        assert(spec_run(pose, commands) == pose);
    } else {
        assert(extended[0] == commands[0]);
        assert(extended.drop_first() =~= commands.drop_first().push(command));
        lemma_run_snoc(spec_apply(pose, commands[0]), commands.drop_first(), command);
        assert(spec_run(pose, commands) == spec_run(
            spec_apply(pose, commands[0]),
            commands.drop_first(),
        ));
    }
}

/// Appending a character outside {L, R, M} to a command line does not
/// change where the rover ends, relative to omitting it.
pub proof fn lemma_unknown_command_is_noop(pose: (u8, u8, Direction), line: Seq<char>, c: char)
    requires
        c != 'L' && c != 'R' && c != 'M',
    ensures
        spec_run(pose, spec_commands_of(line.push(c))) == spec_run(pose, spec_commands_of(line)),
{
    assert(spec_commands_of(line.push(c)) =~= spec_commands_of(line).push(Command::Null));
    lemma_run_snoc(pose, spec_commands_of(line), Command::Null);
}

/// A command line made of nothing but unrecognized characters leaves
/// the pose exactly as it was parsed.
pub proof fn lemma_unrecognized_commands_keep_pose(pose: (u8, u8, Direction), line: Seq<char>)
    requires
        forall|i: int|
            0 <= i < line.len() ==> line[i] != 'L' && line[i] != 'R' && line[i] != 'M',
    ensures
        spec_run(pose, spec_commands_of(line)) == pose,
    decreases line.len(),
{
    if line.len() > 0 {
        assert(spec_commands_of(line)[0] == Command::Null);
        assert(spec_commands_of(line).drop_first() =~= spec_commands_of(line.drop_first()));
        lemma_unrecognized_commands_keep_pose(pose, line.drop_first());
    }
}

/// Appending a character outside {L, R, M} to a full instruction text
/// whose last line is the command line does not change the report.
pub proof fn lemma_appending_unknown_character_to_input(input: Seq<char>, c: char)
    requires
        spec_split_on(input, '\n').len() == 3,
        c != 'L' && c != 'R' && c != 'M' && c != '\n',
    ensures
        spec_execute(input.push(c)) == spec_execute(input),
{
    let lines = spec_split_on(input, '\n');
    assert(input.push(c).drop_last() == input) by {
        assert(input.push(c).drop_last() =~= input);
    }
    assert(spec_split_on(input.push(c), '\n') == lines.update(2, lines[2].push(c)));
    assert(spec_nth_line(input.push(c), 1) == spec_nth_line(input, 1));
    assert(spec_nth_line(input.push(c), 2) == spec_nth_line(input, 2).push(c));
    lemma_unknown_command_is_noop(spec_parse_pose(input), spec_nth_line(input, 2), c);
}

/// An instruction text whose command line holds nothing but
/// unrecognized characters reports the parsed starting pose itself.
pub proof fn lemma_unrecognized_command_line_reports_start(input: Seq<char>)
    requires
        forall|i: int|
            0 <= i < spec_nth_line(input, 2).len() ==> spec_nth_line(input, 2)[i] != 'L'
                && spec_nth_line(input, 2)[i] != 'R' && spec_nth_line(input, 2)[i] != 'M',
    ensures
        spec_execute(input) == spec_render(spec_parse_pose(input)),
{
    lemma_unrecognized_commands_keep_pose(spec_parse_pose(input), spec_nth_line(input, 2));
}

/// Reads instruction text into a starting pose and a command sequence.
pub struct Parser {}

impl Parser {
    /// Makes a parser.
    pub fn new() -> (parser: Parser) {
        Parser {}
    }

    /// Parses instruction text into the starting pose and the command
    /// sequence. Never fails: every malformed part reads as a default.
    pub fn parse(&self, instructions: String) -> (parsed: (Position, Vec<Command>))
        ensures
            parsed.0@ == spec_parse_pose(instructions@),
            parsed.1@ == spec_parse_commands(instructions@),
    {
        let chars = chars_of_str(instructions.as_str());
        let lines = split_on(&chars, '\n');
        let empty_line: Vec<char> = Vec::new();
        let pose_line: &Vec<char> = if lines.len() > 1 {
            proof {
                assert(lines@[1]@ == lines.deep_view()[1]);
            }
            &lines[1]
        } else {
            &empty_line
        };
        proof {
            assert(pose_line@ == spec_nth_line(instructions@, 1));
        }
        let position = self.parse_position(pose_line);
        let command_line: &Vec<char> = if lines.len() > 2 {
            proof {
                assert(lines@[2]@ == lines.deep_view()[2]);
            }
            &lines[2]
        } else {
            &empty_line
        };
        proof {
            assert(command_line@ == spec_nth_line(instructions@, 2));
        }
        let commands = self.parse_commands(command_line);
        (position, commands)
    }

    /// Reads the pose line's tokens: x, y, heading.
    fn parse_position(&self, line: &Vec<char>) -> (position: Position)
        ensures
            position@ == spec_pose_of_tokens(spec_split_whitespace(line@)),
    {
        let tokens = split_whitespace(line);
        proof {
            if tokens@.len() > 0 {
                assert(tokens@[0]@ == tokens.deep_view()[0]);
            }
            if tokens@.len() > 1 {
                assert(tokens@[1]@ == tokens.deep_view()[1]);
            }
            if tokens@.len() > 2 {
                assert(tokens@[2]@ == tokens.deep_view()[2]);
            }
        }
        let x = if tokens.len() > 0 {
            token_u8(&tokens[0])
        } else {
            0
        };
        let y = if tokens.len() > 1 {
            token_u8(&tokens[1])
        } else {
            0
        };
        let direction = if tokens.len() > 2 {
            Direction::of_token(&tokens[2])
        } else {
            Direction::North
        };
        Position::new(Coordinate::new(x, y), direction)
    }

    /// Reads the command line, one command per character.
    fn parse_commands(&self, line: &Vec<char>) -> (commands: Vec<Command>)
        ensures
            commands@ == spec_commands_of(line@),
    {
        let mut commands: Vec<Command> = Vec::new();
        let mut i: usize = 0;
        proof {
            assert(commands@ =~= spec_commands_of(line@.take(0)));
        }
        while i < line.len()
            invariant
                i <= line@.len(),
                commands@ == spec_commands_of(line@.take(i as int)),
            decreases line@.len() - i,
        {
            let command = Command::from(&line[i]);
            commands.push(command);
            proof {
                assert(commands@ =~= spec_commands_of(line@.take(i + 1)));
            }
            i += 1;
        }
        proof {
            assert(line@.take(line@.len() as int) =~= line@);
        }
        commands
    }
}

/// Owns one pose and takes it through instruction texts.
pub struct Rover {
    position: Position,
    parser: Parser,
}

impl Rover {
    /// The rover's current pose.
    pub closed spec fn spec_position(&self) -> (u8, u8, Direction) {
        self.position@
    }

    /// Makes a rover standing at the origin, facing north.
    pub fn new(parser: Parser) -> (rover: Rover)
        ensures
            rover.spec_position() == (0u8, 0u8, Direction::North),
    {
        Rover { position: Position::new(Coordinate::new(0, 0), Direction::North), parser }
    }

    /// Executes one instruction text: parses it, replaces the pose
    /// with the parsed starting pose, applies every command in order,
    /// and reports the final pose.
    pub fn execute(&mut self, instructions: String) -> (report: String)
        ensures
            report@ == spec_execute(instructions@),
            final(self).spec_position() == spec_run(
                spec_parse_pose(instructions@),
                spec_parse_commands(instructions@),
            ),
    {
        let ghost start = spec_parse_pose(instructions@);
        let ghost all_commands = spec_parse_commands(instructions@);
        let (position, commands) = self.parser.parse(instructions);
        self.update_position(position);
        let mut i: usize = 0;
        proof {
            assert(commands@.skip(0) =~= commands@);
        }
        while i < commands.len()
            invariant
                i <= commands@.len(),
                commands@ == all_commands,
                spec_run(self.position@, commands@.skip(i as int)) == spec_run(
                    start,
                    all_commands,
                ),
            decreases commands@.len() - i,
        {
            proof {
                assert(commands@.skip(i as int).drop_first() =~= commands@.skip(i + 1));
                assert(commands@.skip(i as int)[0] == commands@[i as int]);
            }
            match commands[i] {
                Command::Left => self.turn_left(),
                Command::Right => self.turn_right(),
                Command::Move => self.move_rover(),
                _ => {},
            }
            i += 1;
        }
        self.print_final_position()
    }

    fn update_position(&mut self, position: Position)
        ensures
            final(self).position == position,
    {
        self.position = position;
    }

    fn turn_left(&mut self)
        ensures
            final(self).position@ == spec_apply(old(self).position@, Command::Left),
    {
        self.position.turn_left();
    }

    fn turn_right(&mut self)
        ensures
            final(self).position@ == spec_apply(old(self).position@, Command::Right),
    {
        self.position.turn_right();
    }

    fn move_rover(&mut self)
        ensures
            final(self).position@ == spec_apply(old(self).position@, Command::Move),
    {
        self.position.move_position();
    }

    fn print_final_position(&self) -> (report: String)
        ensures
            report@ == spec_render(self.position@),
    {
        proof {
            reveal_strlit(" ");
            assert(" "@ =~= seq![' ']);
        }
        let x_text = u8_to_decimal(self.position.coordinate.x);
        let y_text = u8_to_decimal(self.position.coordinate.y);
        let report = x_text.concat(" ").concat(y_text.as_str()).concat(" ").concat(
            self.position.direction.label(),
        );
        proof {
            assert(report@ =~= spec_render(self.position@));
        }
        report
    }
}

} // verus!
