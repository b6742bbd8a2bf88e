use term_snake::game::{Fruit, Game, FRUIT_GLYPH};
use term_snake::renderer::{Renderable, Renderer, ScreenCell, Tint};
use term_snake::snake::{Direction, Pos, Snake, Tail, HEAD_GLYPH, TAIL_GLYPH};

fn game_with(positions: &[(i16, i16)], heading: Direction, fruit: &[(i16, i16)]) -> Game {
    let mut tail: Vec<Tail> = Vec::new();
    for (i, &(x, y)) in positions.iter().enumerate() {
        tail.push(Tail {
            position: Pos { x, y },
            character: if i == 0 { HEAD_GLYPH } else { TAIL_GLYPH },
            direction: heading,
        });
    }
    let fruit = fruit
        .iter()
        .map(|&(x, y)| Fruit {
            position: Pos { x, y },
        })
        .collect();
    Game {
        snake: Snake {
            direction: heading,
            tail,
        },
        fruit,
        score: 0,
        ticks: 1,
    }
}

#[test]
fn fruit_getters_report_fields() {
    let f = Fruit {
        position: Pos { x: 3, y: 9 },
    };
    assert_eq!(f.position(), Pos { x: 3, y: 9 });
    assert_eq!(f.character(), FRUIT_GLYPH);
}

#[test]
fn collides_means_same_cell() {
    let seg = Renderable::Segment(Tail {
        position: Pos { x: 2, y: 3 },
        character: HEAD_GLYPH,
        direction: Direction::Right,
    });
    let same = Renderable::Fruit(Fruit {
        position: Pos { x: 2, y: 3 },
    });
    let other = Renderable::Fruit(Fruit {
        position: Pos { x: 2, y: 4 },
    });
    assert!(seg.collides(&same));
    assert!(!seg.collides(&other));
}

#[test]
fn collides_any_finds_a_member() {
    let seg = Renderable::Segment(Tail {
        position: Pos { x: 2, y: 3 },
        character: HEAD_GLYPH,
        direction: Direction::Right,
    });
    let group = vec![
        Renderable::Fruit(Fruit {
            position: Pos { x: 0, y: 0 },
        }),
        Renderable::Fruit(Fruit {
            position: Pos { x: 2, y: 3 },
        }),
    ];
    assert!(seg.collides_any(&group));
    let empty: Vec<Renderable> = Vec::new();
    assert!(!seg.collides_any(&empty));
}

#[test]
fn render_doubles_columns_and_tints() {
    let renderer = Renderer::new();
    let entities = vec![
        Renderable::Segment(Tail {
            position: Pos { x: 3, y: 2 },
            character: HEAD_GLYPH,
            direction: Direction::Right,
        }),
        Renderable::Fruit(Fruit {
            position: Pos { x: 5, y: 7 },
        }),
    ];
    let cells = renderer.render(&entities);
    assert_eq!(cells.len(), 2);
    assert_eq!(
        cells[0],
        ScreenCell {
            col: 6,
            row: 2,
            glyph: HEAD_GLYPH,
            tint: Tint::Green,
        }
    );
    assert_eq!(
        cells[1],
        ScreenCell {
            col: 10,
            row: 7,
            glyph: FRUIT_GLYPH,
            tint: Tint::Red,
        }
    );
}

#[test]
fn first_advance_renders_head_at_doubled_column() {
    let mut snake = Snake::new();
    let r = snake.slither(20, 10);
    assert!(r.is_ok());
    assert_eq!(snake.tail[0].position, Pos { x: 1, y: 0 });
    let renderer = Renderer::new();
    let cells = renderer.render(&vec![Renderable::Segment(snake.tail[0])]);
    assert_eq!(cells.len(), 1);
    assert_eq!(cells[0].col, 2);
    assert_eq!(cells[0].row, 0);
}

#[test]
fn consuming_one_of_two_stacked_fruit() {
    let mut g = game_with(&[(6, 5)], Direction::Right, &[(6, 5), (6, 5)]);
    g.resolve_fruit();
    assert_eq!(g.fruit.len(), 1);
    assert_eq!(g.score, 1);
    assert_eq!(g.snake.tail.len(), 2);
    assert_eq!(g.snake.tail[1].position, Pos { x: 6, y: 5 });
}

#[test]
fn resolve_without_hit_changes_nothing() {
    let mut g = game_with(&[(6, 5)], Direction::Right, &[(0, 0)]);
    g.resolve_fruit();
    assert_eq!(g.fruit.len(), 1);
    assert_eq!(g.score, 0);
    assert_eq!(g.snake.tail.len(), 1);
}

#[test]
fn tick_moves_eats_and_scores() {
    let mut g = game_with(&[(5, 5)], Direction::Right, &[(6, 5), (6, 5)]);
    let r = g.tick(20, 10);
    assert!(r.is_ok());
    assert_eq!(g.snake.tail[0].position, Pos { x: 6, y: 5 });
    assert_eq!(g.fruit.len(), 1);
    assert_eq!(g.score, 1);
    assert_eq!(g.snake.tail.len(), 2);
    assert_eq!(g.ticks, 2);
}

#[test]
fn tick_reports_self_collision() {
    let mut g = game_with(&[(5, 5), (4, 5), (3, 5)], Direction::Left, &[]);
    let r = g.tick(20, 10);
    assert!(r.is_err());
    assert_eq!(g.score, 0);
    assert_eq!(g.ticks, 1);
}

#[test]
fn tick_frame_lists_segments_then_fruit() {
    let mut g = game_with(&[(5, 5), (4, 5)], Direction::Right, &[(0, 9)]);
    let cells = g.tick(20, 10).unwrap();
    assert_eq!(cells.len(), 3);
    assert_eq!(
        cells[0],
        ScreenCell {
            col: 12,
            row: 5,
            glyph: HEAD_GLYPH,
            tint: Tint::Green,
        }
    );
    assert_eq!(
        cells[1],
        ScreenCell {
            col: 10,
            row: 5,
            glyph: TAIL_GLYPH,
            tint: Tint::Green,
        }
    );
    assert_eq!(
        cells[2],
        ScreenCell {
            col: 0,
            row: 9,
            glyph: FRUIT_GLYPH,
            tint: Tint::Red,
        }
    );
}

#[test]
fn fruit_spawns_every_tenth_tick() {
    let mut g = Game::new();
    for i in 0..20 {
        assert_eq!(g.ticks, i);
        let r = g.tick(20, 10);
        assert!(r.is_ok());
    }
    assert_eq!(g.ticks, 20);
    // Two spawns (at tick indices 0 and 10); anything the head happened to
    // eat along the way is counted by the score instead.
    assert_eq!(g.fruit.len() + g.score as usize, 2);
}

#[test]
fn spawn_positions_lie_in_the_grid() {
    for _ in 0..32 {
        let mut g = Game::new();
        let r = g.tick(20, 10);
        assert!(r.is_ok());
        let spawned = g.fruit.last().unwrap();
        assert!(0 <= spawned.position.x && spawned.position.x < 10);
        assert!(0 <= spawned.position.y && spawned.position.y < 10);
    }
}

#[test]
fn render_list_orders_segments_before_fruit() {
    let g = game_with(&[(1, 1), (0, 1)], Direction::Right, &[(2, 2)]);
    let objects = g.render_list();
    assert_eq!(objects.len(), 3);
    assert_eq!(objects[0].position(), Pos { x: 1, y: 1 });
    assert_eq!(objects[1].position(), Pos { x: 0, y: 1 });
    assert_eq!(objects[2].position(), Pos { x: 2, y: 2 });
    assert_eq!(objects[2].character(), FRUIT_GLYPH);
}
