use rlox::snake::{Board, Direction, Point, Snake, SnakeGameBuilder};

fn board() -> Board {
    Board::new(20, 10)
}

fn points(segments: Vec<(u32, u32)>) -> Vec<Point> {
    segments.into_iter().map(|(x, y)| Point(x, y)).collect()
}

fn moved(segments: Vec<(u32, u32)>, direction: Direction) -> Snake {
    let mut board = board();
    let mut snake = Snake::new(segments);
    snake.move_to(direction, &mut board);
    snake
}

#[test]
fn snake_snake_constructed_with_segments() {
    let snake = Snake::new(vec![(0, 0), (1, 0), (2, 0)]);

    assert_eq!(snake.head(), &Point(0, 0));
}

#[test]
fn main_snake_constructed_with_segments() {
    let snake = Snake::new(vec![(0, 0), (1, 0), (2, 0)]);

    assert_eq!(snake.head(), &Point(0, 0));
}

#[test]
fn snake_moves_in_given_direction() {
    let snake = moved(vec![(5, 5), (5, 6), (5, 7)], Direction::Right);
    assert_eq!(snake.segments, points(vec![(6, 5), (5, 5), (5, 6)]));
    assert_eq!(snake.direction(), Direction::Right);

    let snake = moved(vec![(5, 5), (5, 6), (5, 7)], Direction::Left);
    assert_eq!(snake.segments, points(vec![(4, 5), (5, 5), (5, 6)]));
    assert_eq!(snake.direction(), Direction::Left);

    let snake = moved(vec![(5, 5), (5, 6), (5, 7)], Direction::Up);
    assert_eq!(snake.segments, points(vec![(5, 4), (5, 5), (5, 6)]));
    assert_eq!(snake.direction(), Direction::Up);

    let snake = moved(vec![(5, 7), (5, 6), (5, 5)], Direction::Down);
    assert_eq!(snake.segments, points(vec![(5, 8), (5, 7), (5, 6)]));
    assert_eq!(snake.direction(), Direction::Down);
}

#[test]
fn snake_dies_when_hits_the_wall() {
    let cases = vec![
        (vec![(10, 1)], Direction::Up),
        (vec![(10, 9)], Direction::Down),
        (vec![(1, 5)], Direction::Left),
        (vec![(19, 5)], Direction::Right),
    ];
    for (segments, direction) in cases {
        let mut board = board();
        let mut snake = Snake::new(segments);

        assert!(snake.is_alive());

        snake.move_to(direction, &mut board);

        assert!(!snake.is_alive());
    }
}

#[test]
fn when_snake_eats_apple_it_grows() {
    let mut board = board();
    board.add_apple(Point(5, 4));

    let mut snake = Snake::new(vec![(5, 5), (5, 6), (5, 7)]);

    snake.move_to(Direction::Up, &mut board);

    assert_eq!(snake.segments, points(vec![(5, 4), (5, 5), (5, 6), (5, 7)]));
    assert_eq!(board.apples().len(), 0);
}

#[test]
fn board_has_width_and_height() {
    let board = Board::new(10, 20);

    assert_eq!(board.width(), 10);
    assert_eq!(board.height(), 20);
}

#[test]
fn only_the_first_apple_on_a_square_is_eaten() {
    let mut board = board();
    board.add_apple(Point(1, 1));
    board.add_apple(Point(2, 2));
    board.add_apple(Point(1, 1));
    assert!(!board.try_to_eat_apple(Point(3, 3)));
    assert!(board.try_to_eat_apple(Point(1, 1)));
    assert_eq!(board.apples(), &vec![Point(2, 2), Point(1, 1)]);
    assert_eq!(Point(3, 4).x(), 3);
    assert_eq!(Point(3, 4).y(), 4);
}

#[test]
fn main_when_game_starts_snake_is_in_the_middle_of_the_board() {
    let (width, height) = (20, 10);

    let game = SnakeGameBuilder::new().with_board(width, height).build();

    assert_eq!(game.snake().segments, Snake::new(vec![(10, 5), (10, 6)]).segments);
}

#[test]
fn main_when_game_starts_snake_is_alive() {
    let (width, height) = (20, 10);

    let game = SnakeGameBuilder::new().with_board(width, height).build();

    assert_eq!(game.snake().is_alive(), true);
}

#[test]
fn main_when_game_starts_snake_is_directed_up() {
    let (width, height) = (20, 10);

    let game = SnakeGameBuilder::new().with_board(width, height).build();

    assert_eq!(game.snake().direction(), Direction::Up);
}

#[test]
fn snake_game_when_game_starts_snake_is_in_the_middle_of_the_board() {
    let (width, height) = (20, 10);

    let game = SnakeGameBuilder::new().with_board(width, height).build();

    assert_eq!(game.snake().segments, Snake::new(vec![(10, 5), (10, 6)]).segments);
}

#[test]
fn snake_game_when_game_starts_snake_is_alive() {
    let (width, height) = (20, 10);

    let game = SnakeGameBuilder::new().with_board(width, height).build();

    assert_eq!(game.snake().is_alive(), true);
}

#[test]
fn snake_game_when_game_starts_snake_is_directed_up() {
    let (width, height) = (20, 10);

    let game = SnakeGameBuilder::new().with_board(width, height).build();

    assert_eq!(game.snake().direction(), Direction::Up);
}

#[test]
fn the_game_starts_with_the_apples_it_was_given() {
    let game = SnakeGameBuilder::new()
        .with_board(30, 8)
        .with_apples(vec![Point(3, 3), Point(4, 4)])
        .build();
    assert_eq!(game.snake().segments, points(vec![(15, 4), (15, 5)]));
    assert_eq!(game.board().apples(), &vec![Point(3, 3), Point(4, 4)]);
    assert_eq!(game.board().width(), 30);
    assert_eq!(game.board().height(), 8);
}

#[test]
fn a_dead_snake_stays_dead() {
    let mut board = board();
    let mut snake = Snake::new(vec![(1, 5), (2, 5)]);
    snake.move_to(Direction::Left, &mut board);
    assert!(!snake.is_alive());
    snake.move_to(Direction::Right, &mut board);
    assert!(!snake.is_alive());
    assert_eq!(snake.segments, points(vec![(1, 5), (0, 5)]));
}
