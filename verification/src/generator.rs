//! The generator: a blank grid, a wall on every border cell, one occupant
//! strictly inside, and one opening carved into the border.

use vstd::prelude::*;
use rand::rngs::StdRng;
use crate::border::{border_positions, border_ring, in_interior, lemma_border_ring, on_border};
use crate::cell::{CellKind, GridError};
use crate::grid::{Grid, GridView};
use crate::rng::{
    draw, held, pick, range_draw, seeded, seeded_by_system, seeded_state, slice_choice,
};

verus! {

/// Where the generator takes its randomness from.
#[derive(Clone, Copy, Debug, PartialEq, Eq)]
pub enum RandomSource {
    /// A generator whose stream is fixed by the seed.
    Seeded(u64),
    /// A generator seeded by the operating system.
    System,
}

/// The kind that generation leaves at `position`: the opening is `Empty`, the
/// spawn position holds the occupant, every other border cell is a `Wall`,
/// and the rest is `Empty`.
pub open spec fn planned_kind(
    height: nat,
    width: nat,
    spawn: (usize, usize),
    opening: Option<(usize, usize)>,
    position: (usize, usize),
) -> CellKind {
    if opening == Some(position) {
        CellKind::Empty
    } else if position == spawn {
        CellKind::Occupant
    } else if on_border(height, width, position) {
        CellKind::Wall
    } else {
        CellKind::Empty
    }
}

/// The grid that generation yields for a given spawn position and opening.
pub open spec fn planned(
    height: nat,
    width: nat,
    cell_size: nat,
    spawn: (usize, usize),
    opening: Option<(usize, usize)>,
) -> GridView {
    GridView {
        height,
        width,
        cell_size,
        kinds: Seq::new(
            height,
            |r: int|
                Seq::new(
                    width,
                    |c: int| planned_kind(height, width, spawn, opening, (r as usize, c as usize)),
                ),
        ),
    }
}

/// `grid` is what generation yields for some spawn position strictly inside
/// the border and some opening on it.
pub open spec fn generated(grid: GridView, height: nat, width: nat, cell_size: nat) -> bool {
    exists|spawn: (usize, usize), gap: (usize, usize)|
        in_interior(height, width, spawn) && on_border(height, width, gap) && grid
            == #[trigger] planned(height, width, cell_size, spawn, Some(gap))
}

/// `grid` is what generation yields for some spawn position strictly inside
/// the border when no opening is carved.
pub open spec fn generated_closed(grid: GridView, height: nat, width: nat, cell_size: nat) -> bool {
    exists|spawn: (usize, usize)|
        in_interior(height, width, spawn) && grid == #[trigger] planned(
            height,
            width,
            cell_size,
            spawn,
            None,
        )
}

/// The spawn position that a generator holding `state` draws, the row before
/// the column, and the state in which the two draws leave it.
pub open spec fn spawn_draw(state: Seq<u8>, height: nat, width: nat) -> ((usize, usize), Seq<u8>) {
    let row = range_draw(state, 1, (height - 1) as u64);
    let col = range_draw(row.1, 1, (width - 1) as u64);
    ((row.0 as usize, col.0 as usize), col.1)
}

/// The opening that a generator holding `state` chooses among the border
/// cells, and the state in which the choice leaves it.
pub open spec fn opening_draw(state: Seq<u8>, height: nat, width: nat) -> ((usize, usize), Seq<u8>) {
    let choice = slice_choice(state, border_ring(height, width).len());
    (border_ring(height, width)[choice.0 as int], choice.1)
}

/// The grid that a generator holding `state` generates: the spawn position is
/// drawn first, then, if an opening is to be carved, the opening.
pub open spec fn drawn_grid(
    state: Seq<u8>,
    height: nat,
    width: nat,
    cell_size: nat,
    carve: bool,
) -> GridView {
    let spawn = spawn_draw(state, height, width);
    planned(
        height,
        width,
        cell_size,
        spawn.0,
        if carve {
            Some(opening_draw(spawn.1, height, width).0)
        } else {
            None
        },
    )
}

/// The state in which a generation leaves a generator that held `state`.
pub open spec fn state_after(state: Seq<u8>, height: nat, width: nat, carve: bool) -> Seq<u8> {
    if height < 3 || width < 3 {
        state
    } else if carve {
        opening_draw(spawn_draw(state, height, width).1, height, width).1
    } else {
        spawn_draw(state, height, width).1
    }
}

/// What a generation owes when it starts from a generator that holds `state`:
/// a refusal for a grid too small to hold a border and a cell inside it, else
/// the grid that this state yields.
pub open spec fn drawn_generation(
    state: Seq<u8>,
    height: nat,
    width: nat,
    cell_size: nat,
    carve: bool,
    made: Result<Grid, GridError>,
) -> bool {
    if height < 3 || width < 3 {
        made == Err::<Grid, GridError>(GridError::InvalidDimensions)
    } else {
        made matches Ok(grid) && grid@ == drawn_grid(state, height, width, cell_size, carve)
    }
}

/// What `assemble` owes for its arguments: a refusal for a grid too small to
/// hold a border and a cell inside it, else the planned grid.
pub open spec fn assembled(
    height: nat,
    width: nat,
    cell_size: nat,
    spawn: (usize, usize),
    opening: Option<(usize, usize)>,
    made: Result<Grid, GridError>,
) -> bool {
    if height < 3 || width < 3 {
        made == Err::<Grid, GridError>(GridError::InvalidDimensions)
    } else {
        made matches Ok(grid) && grid@ == planned(height, width, cell_size, spawn, opening)
    }
}

/// `spawn` holds the only occupant of `grid`.
pub open spec fn sole_occupant(grid: GridView, spawn: (usize, usize)) -> bool {
    &&& grid.in_bounds(spawn)
    &&& forall|position: (usize, usize)|
        grid.in_bounds(position) ==> (#[trigger] grid.kind_at(position) == CellKind::Occupant
            <==> position == spawn)
}

/// Every border cell of `grid` is a `Wall`, but for the opening, if there is
/// one, which is `Empty`; and off the border every cell that does not hold the
/// occupant is `Empty`.
pub open spec fn walled_around(grid: GridView, opening: Option<(usize, usize)>) -> bool {
    &&& forall|position: (usize, usize)|
        on_border(grid.height, grid.width, position) ==> #[trigger] grid.kind_at(position) == if opening
            == Some(position) {
            CellKind::Empty
        } else {
            CellKind::Wall
        }
    &&& forall|position: (usize, usize)|
        grid.in_bounds(position) && !on_border(grid.height, grid.width, position)
            && #[trigger] grid.kind_at(position) != CellKind::Occupant ==> grid.kind_at(position)
            == CellKind::Empty
}

/// Whether one of the first `count` positions of `ring` is `position`.
spec fn stamped(ring: Seq<(usize, usize)>, count: int, position: (usize, usize)) -> bool {
    exists|i: int| 0 <= i < count && #[trigger] ring[i] == position
}

/// The grid once the first `count` positions of `ring` have been walled.
spec fn walled(
    height: nat,
    width: nat,
    cell_size: nat,
    ring: Seq<(usize, usize)>,
    count: int,
) -> GridView {
    GridView {
        height,
        width,
        cell_size,
        kinds: Seq::new(
            height,
            |r: int|
                Seq::new(
                    width,
                    |c: int|
                        if stamped(ring, count, (r as usize, c as usize)) {
                            CellKind::Wall
                        } else {
                            CellKind::Empty
                        },
                ),
        ),
    }
}

/// Builds the grid from a border ring that has been computed already.
fn lay_out(
    height: usize,
    width: usize,
    cell_size: u32,
    ring: &Vec<(usize, usize)>,
    spawn: (usize, usize),
    opening: Option<(usize, usize)>,
) -> (made: Result<Grid, GridError>)
    requires
        height >= 3,
        width >= 3,
        ring@ == border_ring(height as nat, width as nat),
        in_interior(height as nat, width as nat, spawn),
        opening matches Some(gap) ==> on_border(height as nat, width as nat, gap),
    ensures
        made matches Ok(grid) && grid@ == planned(
            height as nat,
            width as nat,
            cell_size as nat,
            spawn,
            opening,
        ),
{
    proof {
        lemma_border_ring(height as nat, width as nat);
    }
    let mut grid = Grid::new(height, width, cell_size);
    assert(grid@ =~~= walled(height as nat, width as nat, cell_size as nat, ring@, 0));
    let mut done: usize = 0;
    while done < ring.len()
        invariant
            done <= ring@.len(),
            forall|i: int|
                0 <= i < ring@.len() ==> on_border(height as nat, width as nat, #[trigger] ring@[i]),
            grid@ == walled(height as nat, width as nat, cell_size as nat, ring@, done as int),
        decreases ring@.len() - done,
    {
        let position = ring[done];
        grid.set(position, CellKind::Wall)?;
        done = done + 1;
        assert(grid@ =~~= walled(height as nat, width as nat, cell_size as nat, ring@, done as int));
    }
    grid.set(spawn, CellKind::Occupant)?;
    if let Some(gap) = opening {
        grid.set(gap, CellKind::Empty)?;
    }
    proof {
        assert(grid@ =~~= planned(height as nat, width as nat, cell_size as nat, spawn, opening));
    }
    Ok(grid)
}

/// Builds the grid for a spawn position and an opening that the caller has
/// chosen. Describes the result completely: the same arguments give the same
/// grid.
pub fn assemble(
    height: usize,
    width: usize,
    cell_size: u32,
    spawn: (usize, usize),
    opening: Option<(usize, usize)>,
) -> (made: Result<Grid, GridError>)
    requires
        height >= 3 && width >= 3 ==> in_interior(height as nat, width as nat, spawn),
        height >= 3 && width >= 3 ==> (opening matches Some(gap) ==> on_border(
            height as nat,
            width as nat,
            gap,
        )),
    ensures
        assembled(height as nat, width as nat, cell_size as nat, spawn, opening, made),
{
    if height < 3 || width < 3 {
        return Err(GridError::InvalidDimensions);
    }
    let ring = border_positions(height, width);
    lay_out(height, width, cell_size, &ring, spawn, opening)
}

/// Generates a playspace with the draws of `rng`: the spawn row, then the
/// spawn column, then, if `carve` is set, the opening among the border cells.
/// What `rng` holds fixes the grid and what `rng` holds afterwards; a refusal
/// leaves `rng` as it was.
pub fn generate_with(
    height: usize,
    width: usize,
    cell_size: u32,
    rng: &mut StdRng,
    carve: bool,
) -> (made: Result<Grid, GridError>)
    ensures
        height < 3 || width < 3 ==> made == Err::<Grid, GridError>(GridError::InvalidDimensions),
        height >= 3 && width >= 3 && carve ==> (made matches Ok(grid) && generated(
            grid@,
            height as nat,
            width as nat,
            cell_size as nat,
        )),
        height >= 3 && width >= 3 && !carve ==> (made matches Ok(grid) && generated_closed(
            grid@,
            height as nat,
            width as nat,
            cell_size as nat,
        )),
        drawn_generation(
            held(*old(rng)),
            height as nat,
            width as nat,
            cell_size as nat,
            carve,
            made,
        ),
        held(*final(rng)) == state_after(held(*old(rng)), height as nat, width as nat, carve),
{
    if height < 3 || width < 3 {
        return Err(GridError::InvalidDimensions);
    }
    let row = draw(rng, 1, height - 1);
    let col = draw(rng, 1, width - 1);
    let ring = border_positions(height, width);
    proof {
        lemma_border_ring(height as nat, width as nat);
    }
    let opening = if carve {
        pick(rng, &ring)
    } else {
        None
    };
    lay_out(height, width, cell_size, &ring, (row, col), opening)
}

/// Generates a playspace with the generator that `seeding` brought, or
/// reports that there is none. What the generator holds fixes the grid.
pub fn generate_from(
    height: usize,
    width: usize,
    cell_size: u32,
    seeding: Result<StdRng, rand::Error>,
) -> (made: Result<Grid, GridError>)
    ensures
        height < 3 || width < 3 ==> made == Err::<Grid, GridError>(GridError::InvalidDimensions),
        height >= 3 && width >= 3 && seeding is Err ==> made == Err::<Grid, GridError>(
            GridError::RandomnessUnavailable,
        ),
        height >= 3 && width >= 3 && seeding is Ok ==> (made matches Ok(grid) && generated(
            grid@,
            height as nat,
            width as nat,
            cell_size as nat,
        )),
        seeding matches Ok(rng) ==> drawn_generation(
            held(rng),
            height as nat,
            width as nat,
            cell_size as nat,
            true,
            made,
        ),
{
    if height < 3 || width < 3 {
        return Err(GridError::InvalidDimensions);
    }
    match seeding {
        Ok(mut rng) => generate_with(height, width, cell_size, &mut rng, true),
        Err(_) => Err(GridError::RandomnessUnavailable),
    }
}

/// Generates a playspace: validates the dimensions, then obtains the random
/// source, then draws from it. The dimensions are judged before the source is
/// touched, and a source that fails ends the generation. With a seeded source
/// the seed fixes the grid: the same seed and dimensions give the same grid
/// on every call.
pub fn generate(height: usize, width: usize, cell_size: u32, source: RandomSource) -> (made: Result<
    Grid,
    GridError,
>)
    ensures
        height < 3 || width < 3 ==> made == Err::<Grid, GridError>(GridError::InvalidDimensions),
        height >= 3 && width >= 3 ==> match made {
            Ok(grid) => {
                &&& generated(grid@, height as nat, width as nat, cell_size as nat)
                &&& exists|spawn: (usize, usize)|
                    1 <= spawn.0 <= height - 2 && 1 <= spawn.1 <= width - 2
                        && #[trigger] sole_occupant(grid@, spawn)
                &&& exists|gap: (usize, usize)|
                    on_border(height as nat, width as nat, gap) && #[trigger] walled_around(
                        grid@,
                        Some(gap),
                    )
            },
            Err(error) => error == GridError::RandomnessUnavailable && source is System,
        },
        source matches RandomSource::Seeded(seed) ==> drawn_generation(
            seeded_state(seed),
            height as nat,
            width as nat,
            cell_size as nat,
            true,
            made,
        ),
{
    if height < 3 || width < 3 {
        return Err(GridError::InvalidDimensions);
    }
    let seeding = match source {
        RandomSource::Seeded(seed) => Ok(seeded(seed)),
        RandomSource::System => seeded_by_system(),
    };
    let made = generate_from(height, width, cell_size, seeding);
    proof {
        if made is Ok {
            let view = made->Ok_0@;
            lemma_generated_occupant(view, height as nat, width as nat, cell_size as nat);
            lemma_generated_walls(view, height as nat, width as nat, cell_size as nat);
        }
    }
    made
}

/// The planned grid is well formed and holds exactly one occupant, at the
/// spawn position, which lies strictly inside the border.
pub proof fn lemma_planned_occupant(
    height: nat,
    width: nat,
    cell_size: nat,
    spawn: (usize, usize),
    opening: Option<(usize, usize)>,
)
    requires
        3 <= height <= usize::MAX,
        3 <= width <= usize::MAX,
        in_interior(height, width, spawn),
        opening matches Some(gap) ==> on_border(height, width, gap),
    ensures
        planned(height, width, cell_size, spawn, opening).wf(),
        sole_occupant(planned(height, width, cell_size, spawn, opening), spawn),
{
}

/// In the planned grid every border cell is a `Wall` except the opening, and
/// every cell off the border that does not hold the occupant is `Empty`.
pub proof fn lemma_planned_walls(
    height: nat,
    width: nat,
    cell_size: nat,
    spawn: (usize, usize),
    opening: Option<(usize, usize)>,
)
    requires
        3 <= height <= usize::MAX,
        3 <= width <= usize::MAX,
        in_interior(height, width, spawn),
        opening matches Some(gap) ==> on_border(height, width, gap),
    ensures
        walled_around(planned(height, width, cell_size, spawn, opening), opening),
{
}

/// A generated grid has exactly one `Occupant` cell, and its position lies
/// strictly inside the border: its row in `[1, height - 2]`, its column in
/// `[1, width - 2]`.
pub proof fn lemma_generated_occupant(grid: GridView, height: nat, width: nat, cell_size: nat)
    requires
        3 <= height <= usize::MAX,
        3 <= width <= usize::MAX,
        generated(grid, height, width, cell_size),
    ensures
        exists|spawn: (usize, usize)|
            1 <= spawn.0 <= height - 2 && 1 <= spawn.1 <= width - 2 && #[trigger] sole_occupant(
                grid,
                spawn,
            ),
{
    let (spawn, gap) = choose|spawn: (usize, usize), gap: (usize, usize)|
        in_interior(height, width, spawn) && on_border(height, width, gap) && grid
            == #[trigger] planned(height, width, cell_size, spawn, Some(gap));
    lemma_planned_occupant(height, width, cell_size, spawn, Some(gap));
}

/// In a generated grid every border cell is a `Wall` except one, the opening,
/// which is `Empty`; every cell that is neither on the border nor the
/// occupant's is `Empty`.
pub proof fn lemma_generated_walls(grid: GridView, height: nat, width: nat, cell_size: nat)
    requires
        3 <= height <= usize::MAX,
        3 <= width <= usize::MAX,
        generated(grid, height, width, cell_size),
    ensures
        grid.height == height,
        grid.width == width,
        exists|gap: (usize, usize)|
            on_border(height, width, gap) && #[trigger] walled_around(grid, Some(gap)),
{
    let (spawn, gap) = choose|spawn: (usize, usize), gap: (usize, usize)|
        in_interior(height, width, spawn) && on_border(height, width, gap) && grid
            == #[trigger] planned(height, width, cell_size, spawn, Some(gap));
    lemma_planned_walls(height, width, cell_size, spawn, Some(gap));
}

/// A grid generated without an opening has exactly one `Occupant` cell,
/// strictly inside the border, and a `Wall` on every border cell.
pub proof fn lemma_generated_closed(grid: GridView, height: nat, width: nat, cell_size: nat)
    requires
        3 <= height <= usize::MAX,
        3 <= width <= usize::MAX,
        generated_closed(grid, height, width, cell_size),
    ensures
        grid.height == height,
        grid.width == width,
        exists|spawn: (usize, usize)|
            1 <= spawn.0 <= height - 2 && 1 <= spawn.1 <= width - 2 && #[trigger] sole_occupant(
                grid,
                spawn,
            ),
        walled_around(grid, None),
{
    let spawn = choose|spawn: (usize, usize)|
        in_interior(height, width, spawn) && grid == #[trigger] planned(
            height,
            width,
            cell_size,
            spawn,
            None,
        );
    lemma_planned_occupant(height, width, cell_size, spawn, None);
    lemma_planned_walls(height, width, cell_size, spawn, None);
}

/// Generation is repeatable: two generations that start from the same state,
/// as two generators made of one seed do, with the same dimensions, give the
/// same result; where that is a grid, the two grids hold the same cell at
/// every position.
pub proof fn lemma_generate_repeatable(
    state: Seq<u8>,
    height: nat,
    width: nat,
    cell_size: nat,
    carve: bool,
    first: Result<Grid, GridError>,
    second: Result<Grid, GridError>,
)
    requires
        drawn_generation(state, height, width, cell_size, carve, first),
        drawn_generation(state, height, width, cell_size, carve, second),
    ensures
        first is Ok <==> second is Ok,
        first is Err ==> first == second,
        first matches Ok(one) ==> second matches Ok(other) && one@ == other@ && forall|
            position: (usize, usize),
        | #[trigger] one@.cell_at(position) == other@.cell_at(position),
{
}

/// Assembly is repeatable: whatever `assemble` returns for given dimensions,
/// spawn position and opening, it returns the same on every call.
pub proof fn lemma_assemble_repeatable(
    height: nat,
    width: nat,
    cell_size: nat,
    spawn: (usize, usize),
    opening: Option<(usize, usize)>,
    first: Result<Grid, GridError>,
    second: Result<Grid, GridError>,
)
    requires
        assembled(height, width, cell_size, spawn, opening, first),
        assembled(height, width, cell_size, spawn, opening, second),
    ensures
        first is Ok <==> second is Ok,
        first is Err ==> first == second,
        first matches Ok(one) ==> second matches Ok(other) && one@ == other@,
{
}

} // verus!
