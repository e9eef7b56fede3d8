use vstd::prelude::*;

use std::rc::Rc;

use crate::cmd::Cmd;

verus! {

pub const MAP_WIDTH: usize = 80;
pub const MAP_HEIGHT: usize = 60;
pub const MAX_UNITS: usize = 1024;

/// A cell of the map, by column and row.
pub struct Pos(pub u32, pub u32);

/// A unit slot; a free slot links to the next free one.
#[derive(Clone, Copy, Debug, PartialEq, Eq, Structural)]
pub struct Unit {
    pub next_free: Option<usize>,
}

impl Default for Unit {
    fn default() -> (u: Unit)
        ensures
            u.next_free is None,
    {
        Unit { next_free: None }
    }
}

/// A cell of the map and the unit standing on it, if any.
#[derive(Clone, Copy, Debug, PartialEq, Eq, Structural)]
pub struct Cell {
    pub unit: Option<u32>,
}

impl Default for Cell {
    fn default() -> (c: Cell)
        ensures
            c.unit is None,
    {
        Cell { unit: None }
    }
}

/// The map's cells, row by row.
#[derive(Clone, Debug)]
pub struct TileMap {
    pub cells: Vec<Cell>,
}

impl Default for TileMap {
    /// An empty map of `MAP_WIDTH` by `MAP_HEIGHT` cells.
    fn default() -> (m: TileMap)
        ensures
            m.cells@.len() == MAP_WIDTH * MAP_HEIGHT,
            forall|i: int| 0 <= i < m.cells@.len() ==> #[trigger] m.cells@[i].unit is None,
    {
        let mut cells: Vec<Cell> = Vec::new();
        for i in 0..MAP_WIDTH * MAP_HEIGHT
            invariant
                cells@.len() == i,
                forall|j: int| 0 <= j < i ==> #[trigger] cells@[j].unit is None,
        {
            cells.push(Cell::default());
        }
        TileMap { cells }
    }
}

/// The state of a game: the map, the unit slots and the console it reports to.
#[derive(Clone)]
pub struct Game {
    pub map: TileMap,
    pub units: Vec<Unit>,
    pub cmd: Rc<Cmd>,
}

impl Game {
    /// A game on an empty map with every unit slot free, the free slots linked in order.
    pub fn new(cmd: Rc<Cmd>) -> (g: Game)
        ensures
            g.cmd == cmd,
            g.map.cells@.len() == MAP_WIDTH * MAP_HEIGHT,
            forall|i: int| 0 <= i < g.map.cells@.len() ==> #[trigger] g.map.cells@[i].unit is None,
            g.units@.len() == MAX_UNITS,
            forall|i: int| 0 <= i < MAX_UNITS - 1 ==> #[trigger] g.units@[i].next_free == Some((i + 1) as usize),
            g.units@[MAX_UNITS - 1].next_free is None,
    {
        let mut units: Vec<Unit> = Vec::new();
        for i in 0..MAX_UNITS
            invariant
                units@.len() == i,
                forall|j: int| 0 <= j < i ==> #[trigger] units@[j].next_free is None,
        {
            units.push(Unit::default());
        }
        let mut game = Game { map: TileMap::default(), units, cmd };
        for i in 0..(MAX_UNITS - 1)
            invariant
                game.cmd == cmd,
                game.map.cells@.len() == MAP_WIDTH * MAP_HEIGHT,
                forall|j: int| 0 <= j < game.map.cells@.len() ==> #[trigger] game.map.cells@[j].unit is None,
                game.units@.len() == MAX_UNITS,
                forall|j: int| 0 <= j < i ==> #[trigger] game.units@[j].next_free == Some((j + 1) as usize),
                forall|j: int| i <= j < MAX_UNITS ==> #[trigger] game.units@[j].next_free is None,
        {
            game.units.set(i, Unit { next_free: Some(i + 1) });
        }
        game
    }
}

} // verus!
