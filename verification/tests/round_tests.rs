use rusty_snake::direction::Direction;
use rusty_snake::fruit::Fruit;
use rusty_snake::protocol::ProtocolError;
use rusty_snake::round::GamePhase;
use rusty_snake::round::Round;
use rusty_snake::snake::Snake;

/// The smallest seed whose first fruit draw lands on `pos`. About one seed
/// in 900 fits, so the search is short.
fn seed_with_fruit_at(pos: (i32, i32)) -> u64 {
    let mut seed: u64 = 0;
    loop {
        if Fruit::new(seed).pos == pos {
            return seed;
        }
        seed += 1;
    }
}

fn occupied_cells(round: &Round) -> Vec<(i32, i32)> {
    round
        .my_player
        .snake
        .segments
        .iter()
        .chain(round.opponent_player.snake.segments.iter())
        .map(|s| s.pos)
        .collect()
}

#[test]
fn new_round_follows_the_role_presets() {
    let server = Round::new(true, 5);
    assert_eq!(server.phase, GamePhase::Start);
    assert_eq!(server.my_player.snake.head_pos, (15, 10));
    assert_eq!(server.my_player.snake.head_facing, Direction::Right);
    assert_eq!(server.my_player.input_direction, Direction::Right);
    assert_eq!(server.opponent_player.snake.head_pos, (15, 20));
    assert_eq!(server.opponent_player.snake.head_facing, Direction::Left);

    let client = Round::new(false, 5);
    assert_eq!(client.my_player.snake.head_pos, (15, 20));
    assert_eq!(client.my_player.snake.head_facing, Direction::Left);
    assert_eq!(client.opponent_player.snake.head_pos, (15, 10));
    assert_eq!(client.opponent_player.snake.head_facing, Direction::Right);
}

#[test]
fn ready_fires_exactly_once() {
    let mut r = Round::new(true, 9);
    assert_eq!(r.phase, GamePhase::Start);
    r.ready();
    assert_eq!(r.phase, GamePhase::Play);
    let head = r.my_player.snake.head_pos;
    let len = r.my_player.snake.segments.len();
    let fruit = r.fruit.pos;
    r.ready();
    r.ready();
    assert_eq!(r.phase, GamePhase::Play);
    assert_eq!(r.my_player.snake.head_pos, head);
    assert_eq!(r.my_player.snake.segments.len(), len);
    assert_eq!(r.fruit.pos, fruit);
}

#[test]
fn turn_requests_are_filtered_to_perpendicular() {
    let mut r = Round::new(true, 9);
    // Facing right: reverse and parallel requests are dropped.
    r.request_direction(Direction::Left);
    assert_eq!(r.my_player.input_direction, Direction::Right);
    r.request_direction(Direction::Right);
    assert_eq!(r.my_player.input_direction, Direction::Right);
    // Perpendicular requests are committed.
    r.request_direction(Direction::Up);
    assert_eq!(r.my_player.input_direction, Direction::Up);
    r.request_direction(Direction::Down);
    assert_eq!(r.my_player.input_direction, Direction::Down);
}

#[test]
fn received_bytes_commit_the_opponent_direction() {
    let mut r = Round::new(true, 9);
    assert_eq!(r.receive_opponent_direction(2), Ok(()));
    assert_eq!(r.opponent_player.input_direction, Direction::Down);
    assert_eq!(r.receive_opponent_direction(0), Ok(()));
    assert_eq!(r.opponent_player.input_direction, Direction::Up);
}

#[test]
fn received_byte_four_raises_a_decode_failure() {
    let mut r = Round::new(true, 9);
    assert_eq!(r.receive_opponent_direction(1), Ok(()));
    assert_eq!(r.receive_opponent_direction(4), Err(ProtocolError::InvalidInputToken));
    // The failure leaves the committed direction untouched.
    assert_eq!(r.opponent_player.input_direction, Direction::Left);
}

#[test]
fn eating_the_fruit_grows_and_redraws() {
    // Seed the fruit onto (16, 10), one step right of the host head.
    let seed = seed_with_fruit_at((16, 10));
    let mut r = Round::new(true, seed);
    assert_eq!(r.fruit.pos, (16, 10));
    r.ready();
    r.tick();
    assert_eq!(r.phase, GamePhase::Play);
    // The host snake ate and grew; the guest moved and kept its length.
    assert_eq!(r.my_player.snake.segments.len(), 2);
    assert_eq!(r.my_player.snake.head_pos, (16, 10));
    assert_eq!(r.opponent_player.snake.segments.len(), 1);
    assert_eq!(r.opponent_player.snake.head_pos, (14, 20));
    // The fruit was redrawn off every occupied cell.
    assert!(!occupied_cells(&r).contains(&r.fruit.pos));
    assert!(!Snake::check_out_of_bounds(r.fruit.pos));
}

#[test]
fn heads_on_the_same_cell_end_the_round() {
    let mut r = Round::new(true, 9);
    r.my_player.snake = Snake::new((10, 10), Direction::Right);
    r.my_player.input_direction = Direction::Right;
    r.opponent_player.snake = Snake::new((12, 10), Direction::Left);
    r.opponent_player.input_direction = Direction::Left;
    r.ready();
    r.tick();
    assert_eq!(r.phase, GamePhase::Over);
}

#[test]
fn swapping_heads_end_the_round_for_grown_snakes() {
    let mut r = Round::new(true, 9);
    let mut a = Snake::new((9, 10), Direction::Right);
    a.push(Direction::Right);
    let mut b = Snake::new((12, 10), Direction::Left);
    b.push(Direction::Left);
    r.my_player.snake = a;
    r.my_player.input_direction = Direction::Right;
    r.opponent_player.snake = b;
    r.opponent_player.input_direction = Direction::Left;
    r.ready();
    r.tick();
    assert_eq!(r.phase, GamePhase::Over);
}

#[test]
fn running_into_the_wall_ends_the_round() {
    let mut r = Round::new(true, 9);
    r.ready();
    let mut ticks = 0;
    while r.phase == GamePhase::Play {
        r.tick();
        ticks += 1;
        assert!(ticks <= 100, "round should have ended at the wall");
    }
    assert_eq!(r.phase, GamePhase::Over);
}

#[test]
fn over_resets_both_players_and_redraws_the_fruit() {
    let mut r = Round::new(true, 9);
    r.ready();
    // March both snakes into the walls.
    while r.phase == GamePhase::Play {
        r.tick();
    }
    assert_eq!(r.phase, GamePhase::Over);
    assert_eq!(r.my_player.snake.head_pos, (15, 10));
    assert_eq!(r.my_player.snake.head_facing, Direction::Right);
    assert_eq!(r.my_player.snake.segments.len(), 1);
    assert_eq!(r.my_player.input_direction, Direction::Right);
    assert_eq!(r.opponent_player.snake.head_pos, (15, 20));
    assert_eq!(r.opponent_player.snake.head_facing, Direction::Left);
    assert_eq!(r.opponent_player.snake.segments.len(), 1);
    assert_eq!(r.opponent_player.input_direction, Direction::Left);
    assert!(!occupied_cells(&r).contains(&r.fruit.pos));
    assert!(!Snake::check_out_of_bounds(r.fruit.pos));
    // An explicit ready is required to play again.
    r.ready();
    assert_eq!(r.phase, GamePhase::Play);
}

#[test]
fn lockstep_peers_stay_identical() {
    // Two full simulations driven by the same exchanged inputs stay equal
    // cell for cell, tick for tick — the point of the lockstep design.
    let seed = 314159;
    let mut server = Round::new(true, seed);
    let mut client = Round::new(false, seed);
    server.ready();
    client.ready();
    let turns = [3u8, 2, 2, 1, 0, 3, 3, 0];
    for (i, &code) in turns.iter().enumerate() {
        // The server turns on even ticks, the client on odd ones; each
        // side hears of the peer's committed direction through the wire
        // byte, as the protocol sends it.
        if i % 2 == 0 {
            server.request_direction(Direction::try_from(code).unwrap());
        } else {
            client.request_direction(Direction::try_from(code).unwrap());
        }
        let server_byte = server.my_direction_byte();
        let client_byte = client.my_direction_byte();
        assert_eq!(server.receive_opponent_direction(client_byte), Ok(()));
        assert_eq!(client.receive_opponent_direction(server_byte), Ok(()));
        server.tick();
        client.tick();
        assert_eq!(server.phase, client.phase);
        assert_eq!(server.fruit.pos, client.fruit.pos);
        // The server's own snake is the client's opponent and vice versa.
        let server_cells: Vec<_> = server.my_player.snake.segments.iter().map(|s| s.pos).collect();
        let client_view: Vec<_> =
            client.opponent_player.snake.segments.iter().map(|s| s.pos).collect();
        assert_eq!(server_cells, client_view);
        let client_cells: Vec<_> = client.my_player.snake.segments.iter().map(|s| s.pos).collect();
        let server_view: Vec<_> =
            server.opponent_player.snake.segments.iter().map(|s| s.pos).collect();
        assert_eq!(client_cells, server_view);
        if server.phase == GamePhase::Over {
            break;
        }
    }
}
