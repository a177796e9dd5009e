//! The snake of a snake game and the board it moves on.
use vstd::prelude::*;

verus! {

/// A square of the board: column and row.
#[derive(Debug, PartialEq, Eq, Clone, Copy, Structural)]
pub struct Point(pub u32, pub u32);

impl Point {
    pub fn x(&self) -> (x: u32)
        ensures
            x == self.0,
    {
        self.0
    }

    pub fn y(&self) -> (y: u32)
        ensures
            y == self.1,
    {
        self.1
    }
}

#[derive(Debug, PartialEq, Eq, Clone, Copy, Structural)]
pub enum Direction {
    Left,
    Right,
    Up,
    Down,
}

// ---------------------------------------------------------------------------
// Board
// ---------------------------------------------------------------------------
#[derive(Debug, PartialEq)]
pub struct Board {
    _width: u32,
    _height: u32,
    _apples: Vec<Point>,
}

/// `apples` without the first apple that lies on `point`.
pub open spec fn without_first(apples: Seq<Point>, point: Point) -> Seq<Point> {
    match apples.index_of_first(point) {
        Some(index) => apples.remove(index),
        None => apples,
    }
}

impl Board {
    pub closed spec fn extent(&self) -> (u32, u32) {
        (self._width, self._height)
    }

    /// The apples on the board, in the order they were put there.
    pub closed spec fn fruit(&self) -> Seq<Point> {
        self._apples@
    }

    pub fn new(width: u32, height: u32) -> (board: Board)
        ensures
            board.extent() == (width, height),
            board.fruit() == Seq::<Point>::empty(),
    {
        Board { _width: width, _height: height, _apples: Vec::new() }
    }

    pub fn width(&self) -> (width: u32)
        ensures
            width == self.extent().0,
    {
        self._width
    }

    pub fn height(&self) -> (height: u32)
        ensures
            height == self.extent().1,
    {
        self._height
    }

    pub fn add_apple(&mut self, apple: Point)
        ensures
            final(self).extent() == old(self).extent(),
            final(self).fruit() == old(self).fruit().push(apple),
    {
        self._apples.push(apple);
    }

    pub fn apples(&self) -> (apples: &Vec<Point>)
        ensures
            apples@ == self.fruit(),
    {
        &self._apples
    }

    /// Takes the first apple on `point` off the board, and says whether
    /// there was one.
    pub fn try_to_eat_apple(&mut self, point: Point) -> (eaten: bool)
        ensures
            final(self).extent() == old(self).extent(),
            eaten == old(self).fruit().contains(point),
            final(self).fruit() == without_first(old(self).fruit(), point),
    {
        let mut index: usize = 0;
        while index < self._apples.len()
            invariant
                *self == *old(self),
                index <= self._apples@.len(),
                forall|i: int| 0 <= i < index ==> self._apples@[i] != point,
            decreases self._apples@.len() - index,
        {
            if self._apples[index] == point {
                proof {
                    let apples = self._apples@;
                    assert(apples[index as int] == point);
                    apples.index_of_first_ensures(point);
                    assert(apples.index_of_first(point) == Some(index as int));
                }
                self._apples.remove(index);
                return true;
            }
            index += 1;
        }
        proof {
            self._apples@.index_of_first_ensures(point);
        }
        false
    }
}

// ---------------------------------------------------------------------------
// Snake
// ---------------------------------------------------------------------------
#[derive(Debug)]
pub struct Snake {
    pub segments: Vec<Point>,
    _direction: Direction,
    _is_alive: bool,
}

pub open spec fn points_of(pairs: Seq<(u32, u32)>) -> Seq<Point> {
    pairs.map_values(|pair: (u32, u32)| Point(pair.0, pair.1))
}

/// The square next to `head` in `direction`.
pub open spec fn neighbour(head: Point, direction: Direction) -> Point {
    match direction {
        Direction::Left => Point((head.0 - 1) as u32, head.1),
        Direction::Right => Point((head.0 + 1) as u32, head.1),
        Direction::Up => Point(head.0, (head.1 - 1) as u32),
        Direction::Down => Point(head.0, (head.1 + 1) as u32),
    }
}

/// The neighbour of `head` in `direction` has coordinates that fit.
pub open spec fn can_step(head: Point, direction: Direction) -> bool {
    match direction {
        Direction::Left => head.0 > 0,
        Direction::Right => head.0 < u32::MAX,
        Direction::Up => head.1 > 0,
        Direction::Down => head.1 < u32::MAX,
    }
}

/// A head on the border of the board, or on its far edge, has hit the wall.
pub open spec fn hits_wall(head: Point, extent: (u32, u32)) -> bool {
    head.0 == extent.0 || head.1 == extent.1 || head.0 == 0 || head.1 == 0
}

impl Snake {
    /// The segments, head first.
    pub closed spec fn body(&self) -> Seq<Point> {
        self.segments@
    }

    pub closed spec fn heading(&self) -> Direction {
        self._direction
    }

    pub closed spec fn alive(&self) -> bool {
        self._is_alive
    }

    /// A living snake that looks up, with the given segments, head first.
    pub fn new(segments: Vec<(u32, u32)>) -> (snake: Snake)
        ensures
            snake.body() == points_of(segments@),
            snake.heading() == Direction::Up,
            snake.alive(),
    {
        let mut snake = Snake { segments: Vec::new(), _direction: Direction::Up, _is_alive: true };
        let mut i: usize = 0;
        while i < segments.len()
            invariant
                i <= segments@.len(),
                snake.segments@ == points_of(segments@.take(i as int)),
                snake._direction == Direction::Up,
                snake._is_alive,
            decreases segments@.len() - i,
        {
            let s = segments[i];
            snake.segments.push(Point(s.0, s.1));
            assert(points_of(segments@.take(i + 1)) =~= points_of(segments@.take(i as int)).push(
                Point(s.0, s.1),
            ));
            i += 1;
        }
        assert(segments@.take(i as int) =~= segments@);
        snake
    }

    pub fn head(&self) -> (head: &Point)
        requires
            self.body().len() > 0,
        ensures
            *head == self.body()[0],
    {
        &self.segments[0]
    }

    /// Moves the head one square in `direction`. The snake grows by the new
    /// head if an apple lies there, which it eats; otherwise its last
    /// segment follows. It dies when the new head hits the wall.
    pub fn move_to(&mut self, direction: Direction, board: &mut Board)
        requires
            old(self).body().len() > 0,
            old(self).body().len() < usize::MAX,
            can_step(old(self).body()[0], direction),
        ensures
            final(self).heading() == direction,
            final(board).extent() == old(board).extent(),
            ({
                let new_head = neighbour(old(self).body()[0], direction);
                let grown = seq![new_head] + old(self).body();
                &&& final(self).alive() == (old(self).alive() && !hits_wall(
                    new_head,
                    old(board).extent(),
                ))
                &&& final(board).fruit() == without_first(old(board).fruit(), new_head)
                &&& final(self).body() == if old(board).fruit().contains(new_head) {
                    grown
                } else {
                    grown.drop_last()
                }
            }),
    {
        self._direction = direction;
        let Point(x, y) = *self.head();
        let new_head = match direction {
            Direction::Left => Point(x - 1, y),
            Direction::Right => Point(x + 1, y),
            Direction::Up => Point(x, y - 1),
            Direction::Down => Point(x, y + 1),
        };
        self.segments.insert(0, new_head);
        assert(self.segments@ =~= seq![new_head] + old(self).segments@);
        if new_head.x() == board.width() || new_head.y() == board.height() || new_head.x() == 0
            || new_head.y() == 0 {
            self._is_alive = false;
        }
        if board.try_to_eat_apple(new_head) {
            return ;
        }
        self.segments.pop();
    }

    pub fn is_alive(&self) -> (alive: bool)
        ensures
            alive == self.alive(),
    {
        self._is_alive
    }

    pub fn direction(&self) -> (direction: Direction)
        ensures
            direction == self.heading(),
    {
        self._direction
    }
}

// ---------------------------------------------------------------------------
// The game
// ---------------------------------------------------------------------------
/// A board and the snake on it.
pub struct SnakeGame {
    board: Board,
    snake: Snake,
}

impl SnakeGame {
    pub closed spec fn field(&self) -> Board {
        self.board
    }

    pub closed spec fn player(&self) -> Snake {
        self.snake
    }

    pub fn snake(&self) -> (snake: &Snake)
        ensures
            *snake == self.player(),
    {
        &self.snake
    }

    pub fn board(&self) -> (board: &Board)
        ensures
            *board == self.field(),
    {
        &self.board
    }
}

pub struct SnakeGameBuilder {
    board_dimensions: (u32, u32),
    apples: Vec<Point>,
}

impl SnakeGameBuilder {
    pub closed spec fn dimensions(&self) -> (u32, u32) {
        self.board_dimensions
    }

    pub closed spec fn fruit(&self) -> Seq<Point> {
        self.apples@
    }

    /// A board of 20 by 10 without apples.
    pub fn new() -> (builder: SnakeGameBuilder)
        ensures
            builder.dimensions() == (20u32, 10u32),
            builder.fruit() == Seq::<Point>::empty(),
    {
        SnakeGameBuilder { board_dimensions: (20, 10), apples: Vec::new() }
    }

    pub fn with_board(self, width: u32, height: u32) -> (builder: Self)
        ensures
            builder.dimensions() == (width, height),
            builder.fruit() == self.fruit(),
    {
        let mut builder = self;
        builder.board_dimensions = (width, height);
        builder
    }

    pub fn with_apples(self, apples: Vec<Point>) -> (builder: Self)
        ensures
            builder.dimensions() == self.dimensions(),
            builder.fruit() == apples@,
    {
        let mut builder = self;
        builder.apples = apples;
        builder
    }

    /// The game at its start: the apples lie on the board, and a living
    /// snake of two segments stands in the middle, looking up.
    pub fn build(self) -> (game: SnakeGame)
        ensures
            game.field().extent() == self.dimensions(),
            game.field().fruit() == self.fruit(),
            game.player().alive(),
            game.player().heading() == Direction::Up,
            game.player().body() == seq![
                Point(self.dimensions().0 / 2, self.dimensions().1 / 2),
                Point(self.dimensions().0 / 2, (self.dimensions().1 / 2 + 1) as u32),
            ],
    {
        let mut board = Board::new(self.board_dimensions.0, self.board_dimensions.1);
        let mut i: usize = 0;
        while i < self.apples.len()
            invariant
                i <= self.apples@.len(),
                board.extent() == self.board_dimensions,
                board.fruit() == self.apples@.take(i as int),
            decreases self.apples@.len() - i,
        {
            board.add_apple(self.apples[i]);
            assert(self.apples@.take(i + 1) =~= self.apples@.take(i as int).push(
                self.apples@[i as int],
            ));
            i += 1;
        }
        assert(self.apples@.take(i as int) =~= self.apples@);
        let mut segments: Vec<(u32, u32)> = Vec::new();
        segments.push((self.board_dimensions.0 / 2, self.board_dimensions.1 / 2));
        segments.push((self.board_dimensions.0 / 2, self.board_dimensions.1 / 2 + 1));
        let snake = Snake::new(segments);
        assert(snake.body() =~= seq![
            Point(self.dimensions().0 / 2, self.dimensions().1 / 2),
            Point(self.dimensions().0 / 2, (self.dimensions().1 / 2 + 1) as u32),
        ]);
        SnakeGame { board, snake }
    }
}

} // verus!
