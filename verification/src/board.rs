//! The capability interfaces a host board must provide, and the kernel entry
//! points: the tick driver [`run_physics`] and the recursive impulse
//! propagation [`propagate_jiggle`].
//!
//! The board alone owns cell storage and topology; the kernel reads and writes
//! one cell at a time through the trait methods and retains nothing.

use crate::cell::{
    impulse_state, spec_update_cell, update_cell, PhysicsProperties,
    SlimePropsIn, SlimePropsOut, SlimeState,
};
use crate::fixed::{fx_clip, fx_ok, FX_ONE};
use vstd::prelude::*;

verus! {

/// Single-cell capability: apply a full read-modify-write of one cell's
/// physics properties.
pub trait MutSlime {
    /// The cell's current properties, as the capability models them.
    open spec fn slime(&self) -> SlimePropsOut {
        arbitrary()
    }

    fn modify_slime(&mut self, props: SlimePropsOut)
        ensures
            final(self).slime() == props,
    ;
}

/// Single-cell capability: replace only the state of one cell, leaving
/// position and scales alone.
pub trait JiggleImpulsable {
    /// The cell's current state, as the capability models it.
    open spec fn state(&self) -> SlimeState {
        arbitrary()
    }

    fn modify_state(&mut self, state: SlimeState)
        ensures
            final(self).state() == state,
    ;
}

/// Direction capability: enumerate the directions other than a given one,
/// take the opposite of a direction, and expose a distinguished "up".
pub trait Direction: Sized {
    /// Every direction except `self`.
    fn other_directions(self) -> (r: Vec<Self>)
        ensures
            forall|i: int| 0 <= i < r@.len() ==> r@[i] != self,
    ;

    /// The direction pointing the opposite way.
    fn opposite(self) -> Self;

    /// The distinguished upward direction, the synthetic origin of
    /// impact-triggered propagation.
    fn up() -> Self;
}

/// A transient impulse-transfer event: where to apply the impulse, how strong
/// it is, and the direction it arrived from (never propagated straight back).
#[derive(Clone, Copy, Debug)]
pub struct JigglePropagation<Loc, Dir> {
    pub at: Loc,
    pub impulse: i64,
    pub came_from: Dir,
}

/// `loc` is one of the board locations listed in `cols`.
pub open spec fn on_board<L>(cols: Seq<Seq<L>>, loc: L) -> bool {
    exists|c: int, i: int|
        0 <= c < cols.len() && 0 <= i < cols[c].len() && #[trigger] cols[c][i] == loc
}

/// No location appears twice in the column layout.
pub open spec fn locs_distinct<L>(cols: Seq<Seq<L>>) -> bool {
    forall|c1: int, i1: int, c2: int, i2: int|
        0 <= c1 < cols.len() && 0 <= i1 < cols[c1].len() && 0 <= c2 < cols.len() && 0 <= i2
            < cols[c2].len() && #[trigger] cols[c1][i1] == #[trigger] cols[c2][i2] ==> c1 == c2
            && i1 == i2
}

/// Every cell of the board holds fixed-point values in range.
pub open spec fn all_cells_ok<B: JigglyBoard>(b: B) -> bool {
    forall|l: B::Loc| on_board(b.columns(), l) ==> (#[trigger] b.cell(l)).wf()
}

/// Every cell of column `c` of the board is settled.
pub open spec fn column_settled<B: JigglyBoard>(b: B, c: int) -> bool {
    forall|i: int|
        0 <= i < b.columns()[c].len() ==> (#[trigger] b.cell(b.columns()[c][i])).state is Settled
}

/// Every cell of the board is settled.
pub open spec fn board_settled<B: JigglyBoard>(b: B) -> bool {
    forall|c: int, i: int|
        0 <= c < b.columns().len() && 0 <= i < b.columns()[c].len() ==> (#[trigger] b.cell(
            b.columns()[c][i],
        )).state is Settled
}

/// The resting base position of the cell at height `i` of its column: one cell
/// height per cell below it.
pub open spec fn spec_stack_height(i: int) -> i64 {
    fx_clip(FX_ONE as int * i) as i64
}

/// The write-back of a settled cell resting at height `i` of its column.
pub open spec fn settled_props(i: int) -> SlimePropsOut {
    SlimePropsOut {
        state: SlimeState::Settled,
        y_bottom: spec_stack_height(i),
        y_scale: FX_ONE,
        x_scale: FX_ONE,
    }
}

/// After a tick of a fully settled board, every cell of `b` rests at its stack
/// height with unit scales, `b0` giving the layout.
pub open spec fn settled_layout<B: JigglyBoard>(b0: B, b: B) -> bool {
    forall|c: int, i: int|
        0 <= c < b0.columns().len() && 0 <= i < b0.columns()[c].len() ==> #[trigger] b.cell(
            b0.columns()[c][i],
        ) == settled_props(i)
}

proof fn lemma_stack_height_step(i: int)
    requires
        i >= 0,
    ensures
        crate::fixed::spec_fx_add(spec_stack_height(i), FX_ONE) == spec_stack_height(i + 1),
{
}

/// The physics view of the cell at column `c`, height `i` of `b`.
pub open spec fn cell_in<B: JigglyBoard>(b: B, c: int, i: int) -> SlimePropsIn {
    SlimePropsIn {
        state: b.cell(b.columns()[c][i]).state,
        y_bottom: b.cell(b.columns()[c][i]).y_bottom,
    }
}

/// The column offset accumulator of the update pass just before the cell at
/// height `i` of column `c` is updated: the fold, from the bottom of the
/// column, of the contribution of every cell below.
pub open spec fn pass_offset<B: JigglyBoard>(
    b: B,
    c: int,
    dt: i64,
    p: PhysicsProperties,
    i: int,
) -> i64
    decreases i,
{
    if i <= 0 {
        0
    } else {
        spec_update_cell(cell_in(b, c, i - 1), dt, p, pass_offset(b, c, dt, p, i - 1)).jiggle_offset
    }
}

/// What the update pass writes back at column `c`, height `i` of a board that
/// starts the tick as `b`.
pub open spec fn pass_cell<B: JigglyBoard>(
    b: B,
    c: int,
    dt: i64,
    p: PhysicsProperties,
    i: int,
) -> SlimePropsOut {
    spec_update_cell(cell_in(b, c, i), dt, p, pass_offset(b, c, dt, p, i)).props
}

/// Every cell of `b` holds exactly what the update pass computed from `b0`:
/// the same base position and scales, and the same state unless propagation
/// has since left the cell jiggling.
pub open spec fn pass_result<B: JigglyBoard>(b0: B, b: B, dt: i64, p: PhysicsProperties) -> bool {
    forall|c: int, i: int|
        0 <= c < b0.columns().len() && 0 <= i < b0.columns()[c].len() ==> ({
            let u = pass_cell(b0, c, dt, p, i);
            let cur = #[trigger] b.cell(b0.columns()[c][i]);
            cur.y_bottom == u.y_bottom && cur.y_scale == u.y_scale && cur.x_scale == u.x_scale && (
            cur.state == u.state || cur.state is Jiggling)
        })
}

/// On a column of settled cells the update pass is the identity up to
/// stacking: the accumulator climbs one cell height per cell, and every
/// write-back is the settled cell resting at its height.
proof fn lemma_settled_pass<B: JigglyBoard>(b: B, c: int, dt: i64, p: PhysicsProperties, i: int)
    requires
        column_settled(b, c),
        0 <= c < b.columns().len(),
        0 <= i <= b.columns()[c].len(),
    ensures
        pass_offset(b, c, dt, p, i) == spec_stack_height(i),
        forall|j: int| 0 <= j < i ==> #[trigger] pass_cell(b, c, dt, p, j) == settled_props(j),
    decreases i,
{
    if i > 0 {
        lemma_settled_pass(b, c, dt, p, i - 1);
        assert(b.cell(b.columns()[c][i - 1]).state is Settled);
        lemma_stack_height_step(i - 1);
    }
}

/// A column holding only settled cells is restacked deterministically:
/// whatever the rest of the board holds, the update pass rests its cells at
/// heights 0, 1, 2, ... bottom-to-top, with unit scales. Combined with the
/// tick's `pass_result`, such a column keeps those bases and scales through
/// the whole tick.
pub proof fn lemma_settled_column_restacks<B: JigglyBoard>(
    b: B,
    c: int,
    dt: i64,
    p: PhysicsProperties,
)
    requires
        0 <= c < b.columns().len(),
        column_settled(b, c),
    ensures
        forall|i: int|
            0 <= i < b.columns()[c].len() ==> #[trigger] pass_cell(b, c, dt, p, i)
                == settled_props(i),
{
    lemma_settled_pass(b, c, dt, p, b.columns()[c].len() as int);
}

/// Board capability: location enumeration, per-cell mutation, and
/// direction-aware impulse transfer. The two kernel entry points
/// [`run_physics`] and [`propagate_jiggle`] drive a board through it.
pub trait JigglyBoard: Sized {
    type Dir: Direction + Copy;

    type Loc: Copy;

    /// The board's columns, each a bottom-to-top ordered sequence of locations.
    open spec fn columns(&self) -> Seq<Seq<Self::Loc>> {
        arbitrary()
    }

    /// The current properties of the cell at a location.
    open spec fn cell(&self, loc: Self::Loc) -> SlimePropsOut {
        arbitrary()
    }

    /// Enumerate the columns, bottom-to-top within each column.
    fn cols(&self) -> (r: Vec<Vec<Self::Loc>>)
        ensures
            r@.len() == self.columns().len(),
            forall|c: int| 0 <= c < r@.len() ==> (#[trigger] r@[c])@ == self.columns()[c],
    ;

    /// Read the physics view of one cell.
    fn slime_at(&self, loc: Self::Loc) -> (r: SlimePropsIn)
        requires
            on_board(self.columns(), loc),
        ensures
            r.state == self.cell(loc).state,
            r.y_bottom == self.cell(loc).y_bottom,
    ;

    /// Write back the full physics properties of one cell. The layout and all
    /// other cells are untouched.
    fn mut_slime_with(&mut self, loc: Self::Loc, props: SlimePropsOut)
        requires
            on_board(old(self).columns(), loc),
        ensures
            final(self).columns() == old(self).columns(),
            final(self).cell(loc) == props,
            forall|l2: Self::Loc| l2 != loc ==> final(self).cell(l2) == old(self).cell(l2),
    ;

    /// Write back only the state of one cell; its position and scales and all
    /// other cells are untouched.
    fn impulse_jiggle_with(&mut self, loc: Self::Loc, state: SlimeState)
        requires
            on_board(old(self).columns(), loc),
        ensures
            final(self).columns() == old(self).columns(),
            final(self).cell(loc).state == state,
            final(self).cell(loc).y_bottom == old(self).cell(loc).y_bottom,
            final(self).cell(loc).y_scale == old(self).cell(loc).y_scale,
            final(self).cell(loc).x_scale == old(self).cell(loc).x_scale,
            forall|l2: Self::Loc| l2 != loc ==> final(self).cell(l2) == old(self).cell(l2),
    ;

    /// Impulse transfer: whether propagation from `loc` in `dir` is allowed,
    /// and if so the destination and the attenuated impulse. The board owns
    /// adjacency and falloff, but a transferred impulse strictly decreases.
    fn apply_dir_to_loc(&self, dir: Self::Dir, loc: Self::Loc, impulse: i64) -> (r: Option<
        (Self::Loc, i64),
    >)
        requires
            fx_ok(impulse),
        ensures
            r matches Some((l2, imp2)) ==> on_board(self.columns(), l2) && fx_ok(imp2) && imp2
                < impulse,
    ;
}

/// Advance the whole board by one tick of `dt` under `physprop`.
///
/// Updates every cell bottom-to-top per column with a running stacking
/// offset, collects the impact events of cells that land, and only after the
/// whole board is updated propagates each event, so the pass is independent
/// of visitation order. Every cell ends the tick with exactly the base
/// position and scales the update pass computed for it, and with its computed
/// state unless propagation left it jiggling. Returns true exactly when every
/// cell ends the tick settled; a fully settled board stays settled, with each
/// cell resting at its stack height under unit scales.
#[verifier::loop_isolation(false)]
#[verifier::rlimit(100)]
pub fn run_physics<B: JigglyBoard>(board: &mut B, dt: i64, physprop: &PhysicsProperties) -> (settled: bool)
    requires
        physprop.wf(),
        physprop.min_impactable >= 1,
        fx_ok(dt),
        locs_distinct(old(board).columns()),
        all_cells_ok(*old(board)),
    ensures
        final(board).columns() == old(board).columns(),
        all_cells_ok(*final(board)),
        settled <==> board_settled(*final(board)),
        pass_result(*old(board), *final(board), dt, *physprop),
        board_settled(*old(board)) ==> settled_layout(*old(board), *final(board)),
{
    let ghost cs = old(board).columns();
    let cols = board.cols();
    let mut events: Vec<JigglePropagation<B::Loc, B::Dir>> = Vec::new();
    let mut settled: bool = true;
    let mut c: usize = 0;
    while c < cols.len()
        invariant
            c <= cols.len(),
            board.columns() == cs,
            all_cells_ok(*board),
            forall|c2: int, i2: int|
                0 <= c2 < cs.len() && 0 <= i2 < cs[c2].len() && c2 >= c ==> #[trigger] board.cell(
                    cs[c2][i2],
                ) == old(board).cell(cs[c2][i2]),
            settled <==> (forall|c2: int, i2: int|
                0 <= c2 < cs.len() && 0 <= i2 < cs[c2].len() && c2 < c ==> (
                #[trigger] board.cell(cs[c2][i2])).state is Settled),
            settled ==> events@.len() == 0,
            forall|k2: int|
                0 <= k2 < events@.len() ==> on_board(cs, (#[trigger] events@[k2]).at) && fx_ok(
                    events@[k2].impulse,
                ),
            forall|c2: int, i2: int|
                0 <= c2 < cs.len() && 0 <= i2 < cs[c2].len() && c2 < c ==> #[trigger] board.cell(
                    cs[c2][i2],
                ) == pass_cell(*old(board), c2, dt, *physprop, i2),
        decreases cols.len() - c,
    {
        let mut jiggle_offset: i64 = 0;
        let mut i: usize = 0;
        while i < cols[c].len()
            invariant
                c < cols.len(),
                i <= cs[c as int].len(),
                board.columns() == cs,
                all_cells_ok(*board),
                fx_ok(jiggle_offset),
                forall|c2: int, i2: int|
                    0 <= c2 < cs.len() && 0 <= i2 < cs[c2].len() && (c2 > c || (c2 == c && i2
                        >= i)) ==> #[trigger] board.cell(cs[c2][i2]) == old(board).cell(
                        cs[c2][i2],
                    ),
                settled <==> (forall|c2: int, i2: int|
                    0 <= c2 < cs.len() && 0 <= i2 < cs[c2].len() && (c2 < c || (c2 == c && i2
                        < i)) ==> (#[trigger] board.cell(cs[c2][i2])).state is Settled),
                settled ==> events@.len() == 0,
                forall|k2: int|
                    0 <= k2 < events@.len() ==> on_board(cs, (#[trigger] events@[k2]).at)
                        && fx_ok(events@[k2].impulse),
                jiggle_offset == pass_offset(*old(board), c as int, dt, *physprop, i as int),
                forall|c2: int, i2: int|
                    0 <= c2 < cs.len() && 0 <= i2 < cs[c2].len() && (c2 < c || (c2 == c && i2
                        < i)) ==> #[trigger] board.cell(cs[c2][i2]) == pass_cell(
                        *old(board),
                        c2,
                        dt,
                        *physprop,
                        i2,
                    ),
            decreases cols[c as int].len() - i,
        {
            let loc = cols[c][i];
            assert(cs[c as int][i as int] == loc);
            assert(on_board(cs, loc));
            let input = board.slime_at(loc);
            proof {
                assert(input == cell_in(*old(board), c as int, i as int));
            }
            let up = update_cell(input, dt, physprop, jiggle_offset);
            settled = settled && up.props.state.is_settled();
            if let Some(imp) = up.impact {
                events.push(
                    JigglePropagation {
                        at: loc,
                        impulse: imp,
                        came_from: <B::Dir as Direction>::up(),
                    },
                );
            }
            board.mut_slime_with(loc, up.props);
            proof {
                assert(up.jiggle_offset == pass_offset(
                    *old(board),
                    c as int,
                    dt,
                    *physprop,
                    i + 1 as int,
                ));
            }
            jiggle_offset = up.jiggle_offset;
            i += 1;
        }
        c += 1;
    }
    let ghost b1 = *board;
    proof {
        if board_settled(*old(board)) {
            assert forall|c2: int, i2: int|
                0 <= c2 < cs.len() && 0 <= i2 < cs[c2].len() implies #[trigger] b1.cell(
                cs[c2][i2],
            ) == settled_props(i2) by {
                lemma_settled_pass(*old(board), c2, dt, *physprop, i2 + 1);
            }
        }
    }
    let mut k: usize = 0;
    while k < events.len()
        invariant
            k <= events.len(),
            board.columns() == cs,
            all_cells_ok(*board),
            settled <==> board_settled(*board),
            events@.len() == 0 ==> *board == b1,
            forall|l: B::Loc|
                (#[trigger] board.cell(l)).y_bottom == b1.cell(l).y_bottom && board.cell(
                    l,
                ).y_scale == b1.cell(l).y_scale && board.cell(l).x_scale == b1.cell(l).x_scale,
            forall|l: B::Loc|
                (#[trigger] board.cell(l)).state == b1.cell(l).state || board.cell(l).state
                    is Jiggling,
        decreases events.len() - k,
    {
        let e = events[k];
        proof {
            if settled {
                assert(events@.len() == 0);
            }
        }
        propagate_jiggle(board, e, physprop);
        k += 1;
    }
    settled
}


/// Apply an impulse at a location, then fan it out to every direction other
/// than the one it arrived from, the board attenuating each hop. An impulse
/// below `min_impactable` does nothing at all; otherwise the target cell ends
/// jiggling, no settled cell is produced anywhere, and no cell's position or
/// scales change. The strict attenuation
/// the board guarantees bounds the recursion, since each hop lowers the
/// impulse and the floor `min_impactable` is positive.
#[verifier::loop_isolation(false)]
pub fn propagate_jiggle<B: JigglyBoard>(
    board: &mut B,
    propagation: JigglePropagation<B::Loc, B::Dir>,
    physprop: &PhysicsProperties,
)
    requires
        physprop.wf(),
        physprop.min_impactable >= 1,
        fx_ok(propagation.impulse),
        on_board(old(board).columns(), propagation.at),
        all_cells_ok(*old(board)),
    ensures
        final(board).columns() == old(board).columns(),
        all_cells_ok(*final(board)),
        forall|l: B::Loc|
            (#[trigger] final(board).cell(l)).state == old(board).cell(l).state
                || final(board).cell(l).state is Jiggling,
        forall|l: B::Loc|
            !((#[trigger] old(board).cell(l)).state is Settled) ==> !(final(board).cell(l).state
                is Settled),
        forall|l: B::Loc|
            (#[trigger] final(board).cell(l)).y_bottom == old(board).cell(l).y_bottom
                && final(board).cell(l).y_scale == old(board).cell(l).y_scale
                && final(board).cell(l).x_scale == old(board).cell(l).x_scale,
        propagation.impulse < physprop.min_impactable ==> *final(board) == *old(board),
        propagation.impulse >= physprop.min_impactable ==> final(board).cell(
            propagation.at,
        ).state is Jiggling,
    decreases propagation.impulse,
{
    if propagation.impulse < physprop.min_impactable {
        return ;
    }
    let input = board.slime_at(propagation.at);
    let new_state = impulse_state(input.state, propagation.impulse, physprop.velocity_to_impact);
    board.impulse_jiggle_with(propagation.at, new_state);
    let dirs = propagation.came_from.other_directions();
    let mut k: usize = 0;
    while k < dirs.len()
        invariant
            k <= dirs.len(),
            board.columns() == old(board).columns(),
            all_cells_ok(*board),
            board.cell(propagation.at).state is Jiggling,
            forall|l: B::Loc|
                (#[trigger] board.cell(l)).state == old(board).cell(l).state || board.cell(l).state
                    is Jiggling,
            forall|l: B::Loc|
                (#[trigger] board.cell(l)).y_bottom == old(board).cell(l).y_bottom && board.cell(
                    l,
                ).y_scale == old(board).cell(l).y_scale && board.cell(l).x_scale == old(
                    board,
                ).cell(l).x_scale,
        decreases dirs.len() - k,
    {
        let dir = dirs[k];
        if let Some((at2, imp2)) = board.apply_dir_to_loc(dir, propagation.at, propagation.impulse) {
            if imp2 >= physprop.min_impactable {
                propagate_jiggle(
                    board,
                    JigglePropagation { at: at2, impulse: imp2, came_from: dir.opposite() },
                    physprop,
                );
            }
        }
        k += 1;
    }
}

} // verus!
