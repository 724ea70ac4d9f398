use jiggle_physics::board::{propagate_jiggle, run_physics};
use jiggle_physics::{
    Direction, JigglePropagation, JigglyBoard, PhysicsProperties, SlimePropsIn, SlimePropsOut,
    SlimeState,
};

fn props() -> PhysicsProperties {
    PhysicsProperties {
        gravity: -9800,
        velocity_to_impact: -1500,
        min_impactable: 100,
        jiggle_stiff: 1000,
        jiggle_damp: 1000,
        jiggle_life_decrease_rate: 1000,
        jiggle_life_threshold: 200,
        jiggle_life_threshold_inverse: 5000,
        jiggle_offset_epsilon: 10,
        jiggle_momentum_epsilon: 10,
    }
}

#[derive(Clone, Copy, PartialEq, Eq, Debug)]
enum Dir4 {
    Up,
    Down,
    Left,
    Right,
}

impl Direction for Dir4 {
    fn other_directions(self) -> Vec<Dir4> {
        let mut out = Vec::new();
        for d in [Dir4::Up, Dir4::Down, Dir4::Left, Dir4::Right] {
            if d != self {
                out.push(d);
            }
        }
        out
    }

    fn opposite(self) -> Dir4 {
        match self {
            Dir4::Up => Dir4::Down,
            Dir4::Down => Dir4::Up,
            Dir4::Left => Dir4::Right,
            Dir4::Right => Dir4::Left,
        }
    }

    fn up() -> Dir4 {
        Dir4::Up
    }
}

/// A rectangular test board: `cells[c][r]` is the cell at column `c`, height
/// `r`. Impulse transfer halves the impulse per hop.
struct Grid {
    cells: Vec<Vec<SlimePropsOut>>,
}

fn blank(state: SlimeState, y_bottom: i64) -> SlimePropsOut {
    SlimePropsOut { state, y_bottom, y_scale: 1000, x_scale: 1000 }
}

impl JigglyBoard for Grid {
    type Dir = Dir4;
    type Loc = (usize, usize);

    fn cols(&self) -> Vec<Vec<(usize, usize)>> {
        let mut out = Vec::new();
        for c in 0..self.cells.len() {
            let mut col = Vec::new();
            for r in 0..self.cells[c].len() {
                col.push((c, r));
            }
            out.push(col);
        }
        out
    }

    fn slime_at(&self, loc: (usize, usize)) -> SlimePropsIn {
        let cell = &self.cells[loc.0][loc.1];
        SlimePropsIn { state: cell.state, y_bottom: cell.y_bottom }
    }

    fn mut_slime_with(&mut self, loc: (usize, usize), props: SlimePropsOut) {
        self.cells[loc.0][loc.1] = props;
    }

    fn impulse_jiggle_with(&mut self, loc: (usize, usize), state: SlimeState) {
        self.cells[loc.0][loc.1].state = state;
    }

    fn apply_dir_to_loc(
        &self,
        dir: Dir4,
        loc: (usize, usize),
        impulse: i64,
    ) -> Option<((usize, usize), i64)> {
        let (c, r) = loc;
        let attenuated = impulse / 2;
        match dir {
            Dir4::Up => {
                if r + 1 < self.cells[c].len() {
                    Some(((c, r + 1), attenuated))
                } else {
                    None
                }
            }
            Dir4::Down => {
                if r > 0 {
                    Some(((c, r - 1), attenuated))
                } else {
                    None
                }
            }
            Dir4::Left => {
                if c > 0 {
                    Some(((c - 1, r), attenuated))
                } else {
                    None
                }
            }
            Dir4::Right => {
                if c + 1 < self.cells.len() {
                    Some(((c + 1, r), attenuated))
                } else {
                    None
                }
            }
        }
    }
}

#[test]
fn settled_column_stacks_from_zero() {
    // Three settled cells with stale bases: one tick rests them at 0, 1, 2
    // with unit scales and reports the board settled.
    let mut board = Grid {
        cells: vec![vec![
            blank(SlimeState::Settled, 555),
            blank(SlimeState::Settled, -42),
            blank(SlimeState::Settled, 7),
        ]],
    };
    let settled = run_physics(&mut board, 100, &props());
    assert!(settled);
    for (r, want) in [0i64, 1000, 2000].into_iter().enumerate() {
        let cell = &board.cells[0][r];
        assert_eq!(cell.state, SlimeState::Settled);
        assert_eq!(cell.y_bottom, want);
        assert_eq!(cell.y_scale, 1000);
        assert_eq!(cell.x_scale, 1000);
    }
}

#[test]
fn columns_stack_independently() {
    // Each column accumulates its own offset from zero; a jiggle that expires
    // settles onto its own column's stack.
    let mut board = Grid {
        cells: vec![
            vec![
                blank(SlimeState::Settled, 900),
                blank(SlimeState::Jiggling { momentum: 0, offset: 800, life: 0 }, 900),
            ],
            vec![blank(SlimeState::Settled, 900)],
        ],
    };
    let settled = run_physics(&mut board, 100, &props());
    assert!(settled);
    assert_eq!(board.cells[0][0].y_bottom, 0);
    assert_eq!(board.cells[0][1].state, SlimeState::Settled);
    assert_eq!(board.cells[0][1].y_bottom, 1000);
    assert_eq!(board.cells[1][0].y_bottom, 0);
}

#[test]
fn falling_cell_keeps_the_board_unsettled() {
    let mut board = Grid {
        cells: vec![vec![
            blank(SlimeState::Settled, 0),
            blank(SlimeState::Falling { velocity: -5000 }, 10000),
        ]],
    };
    let settled = run_physics(&mut board, 100, &props());
    assert!(!settled);
    assert_eq!(board.cells[0][0].state, SlimeState::Settled);
    assert_eq!(
        board.cells[0][1].state,
        SlimeState::Falling { velocity: -5980 },
    );
    assert_eq!(board.cells[0][1].y_bottom, 10598);
}

#[test]
fn expiring_jiggle_leaves_the_board_settled() {
    // A jiggling cell whose life has run out settles on this very tick, so
    // the tick reports the board settled.
    let mut board = Grid {
        cells: vec![vec![blank(
            SlimeState::Jiggling { momentum: 4000, offset: 3000, life: 0 },
            500,
        )]],
    };
    let settled = run_physics(&mut board, 100, &props());
    assert!(settled);
    assert_eq!(board.cells[0][0].state, SlimeState::Settled);
    assert_eq!(board.cells[0][0].y_bottom, 0);
}

#[test]
fn landing_propagates_sideways() {
    // The left cell lands this tick; its impact impulse (velocity_to_impact
    // -1.5 times velocity -20.98 = 31.47) is applied at the landing cell and
    // half of it carried right to the settled neighbour.
    let mut board = Grid {
        cells: vec![
            vec![blank(SlimeState::Falling { velocity: -20000 }, -3000)],
            vec![blank(SlimeState::Settled, 0)],
        ],
    };
    let settled = run_physics(&mut board, 100, &props());
    assert!(!settled);
    assert_eq!(
        board.cells[0][0].state,
        SlimeState::Jiggling { momentum: 31470, offset: 0, life: 1000 },
    );
    assert_eq!(board.cells[0][0].y_bottom, 0);
    assert_eq!(
        board.cells[1][0].state,
        SlimeState::Jiggling { momentum: 15735, offset: 0, life: 1000 },
    );
    // The impulse-only transform leaves position and scales alone.
    assert_eq!(board.cells[1][0].y_bottom, 0);
    assert_eq!(board.cells[1][0].y_scale, 1000);
    assert_eq!(board.cells[1][0].x_scale, 1000);
}

#[test]
fn impact_fans_out_without_bouncing_back() {
    // A landing in the middle column sends half the impulse to each side
    // once; the recursion never propagates straight back, so the middle
    // cell's momentum stays exactly the full impact impulse.
    let mut board = Grid {
        cells: vec![
            vec![blank(SlimeState::Settled, 0)],
            vec![blank(SlimeState::Falling { velocity: -20000 }, -3000)],
            vec![blank(SlimeState::Settled, 0)],
        ],
    };
    let settled = run_physics(&mut board, 100, &props());
    assert!(!settled);
    assert_eq!(
        board.cells[1][0].state,
        SlimeState::Jiggling { momentum: 31470, offset: 0, life: 1000 },
    );
    assert_eq!(
        board.cells[0][0].state,
        SlimeState::Jiggling { momentum: 15735, offset: 0, life: 1000 },
    );
    assert_eq!(
        board.cells[2][0].state,
        SlimeState::Jiggling { momentum: 15735, offset: 0, life: 1000 },
    );
}

#[test]
fn impulse_below_the_floor_is_a_no_op() {
    // An impulse one thousandth under min_impactable mutates nothing at all.
    let before = vec![
        vec![blank(SlimeState::Settled, 0), blank(SlimeState::Settled, 1000)],
        vec![blank(SlimeState::Jiggling { momentum: 50, offset: 20, life: 700 }, 0)],
    ];
    let mut board = Grid { cells: before.clone() };
    propagate_jiggle(
        &mut board,
        JigglePropagation { at: (0, 1), impulse: 99, came_from: Dir4::Up },
        &props(),
    );
    assert_eq!(board.cells, before);
}

#[test]
fn impulse_at_the_floor_is_applied() {
    let mut board = Grid {
        cells: vec![vec![blank(SlimeState::Settled, 0)]],
    };
    propagate_jiggle(
        &mut board,
        JigglePropagation { at: (0, 0), impulse: 100, came_from: Dir4::Up },
        &props(),
    );
    assert_eq!(
        board.cells[0][0].state,
        SlimeState::Jiggling { momentum: 100, offset: 0, life: 1000 },
    );
}
