//! The static geometry of a match: four walls round a square floor and the
//! blocks that a text layout places on a grid.
//!
//! A layout is read line by line; the `j`-th character of line `i` is a digit
//! that gives the height, in cells, of the block on cell `(i, j)`, where zero
//! leaves the cell empty.
use vstd::prelude::*;
use crate::collision::{Cuboid, Point3, Size3, Surface};

verus! {

/// Side of a grid cell.
pub const CELL: i32 = 2000;

/// Side of the square floor.
pub const FLOOR_SIDE: i32 = 40000;

/// Height of the walls.
pub const WALL_HEIGHT: i32 = 4000;

/// The largest layout that keeps every coordinate in range.
pub const MAX_LAYOUT_LEN: usize = 1_000_000;

/// The static obstacles of a match.
pub struct Arena {
    pub objects: Vec<Cuboid>,
}

pub open spec fn is_digit(c: u8) -> bool {
    48 <= c <= 57
}

/// Distance from the centre of the floor to the centre of a wall.
pub open spec fn wall_offset() -> int {
    FLOOR_SIDE / 2 + CELL / 2
}

pub open spec fn walls() -> Seq<Cuboid> {
    let o = wall_offset() as i32;
    let across_x = Size3 { x: CELL as u32, y: WALL_HEIGHT as u32, z: FLOOR_SIDE as u32 };
    let across_z = Size3 { x: FLOOR_SIDE as u32, y: WALL_HEIGHT as u32, z: CELL as u32 };
    seq![
        Cuboid { pos: Point3 { x: o, y: CELL, z: 0 }, size: across_x, surface: Surface::Wall },
        Cuboid { pos: Point3 { x: (-o) as i32, y: CELL, z: 0 }, size: across_x, surface: Surface::Wall },
        Cuboid { pos: Point3 { x: 0, y: CELL, z: o }, size: across_z, surface: Surface::Wall },
        Cuboid { pos: Point3 { x: 0, y: CELL, z: (-o) as i32 }, size: across_z, surface: Surface::Wall },
    ]
}

/// The block of `height` cells standing on cell `(row, col)`.
pub open spec fn block_at(row: int, col: int, height: int) -> Cuboid {
    Cuboid {
        pos: Point3 {
            x: (col * CELL - FLOOR_SIDE / 2 + CELL / 2) as i32,
            y: (height * CELL / 2) as i32,
            z: (row * CELL - FLOOR_SIDE / 2 + CELL / 2) as i32,
        },
        size: Size3 { x: CELL as u32, y: (height * CELL) as u32, z: CELL as u32 },
        surface: Surface::Block,
    }
}

/// The first `n` bytes of a layout read: the blocks placed so far and the
/// cell the next digit falls on, or `None` once a byte is neither a digit nor
/// a line ending. A line ends at `\n`, and a `\r` right before it belongs to
/// the ending.
pub open spec fn scan(b: Seq<u8>, n: nat) -> Option<(Seq<Cuboid>, int, int)>
    decreases n,
{
    if n == 0 {
        Some((Seq::<Cuboid>::empty(), 0, 0))
    } else {
        match scan(b, (n - 1) as nat) {
            None => None,
            Some((blocks, row, col)) => {
                let c = b[n - 1];
                if c == 10 {
                    Some((blocks, row + 1, 0))
                } else if c == 13 && n < b.len() && b[n as int] == 10 {
                    Some((blocks, row, col))
                } else if is_digit(c) {
                    let h = c - 48;
                    Some(
                        (
                            if h == 0 {
                                blocks
                            } else {
                                blocks.push(block_at(row, col, h))
                            },
                            row,
                            col + 1,
                        ),
                    )
                } else {
                    None
                }
            },
        }
    }
}

/// The obstacles of the arena that layout `b` describes: the walls, then the
/// blocks in reading order.
pub open spec fn layout_objects(b: Seq<u8>) -> Option<Seq<Cuboid>> {
    match scan(b, b.len()) {
        Some((blocks, _, _)) => Some(walls() + blocks),
        None => None,
    }
}

proof fn lemma_scan_bounds(b: Seq<u8>, n: nat)
    requires
        n <= b.len(),
    ensures
        scan(b, n) matches Some((_, row, col)) ==> 0 <= row <= n && 0 <= col <= n,
    decreases n,
{
    if n > 0 {
        lemma_scan_bounds(b, (n - 1) as nat);
    }
}

proof fn lemma_scan_stays_failed(b: Seq<u8>, k: nat, n: nat)
    requires
        k <= n,
        scan(b, k) is None,
    ensures
        scan(b, n) is None,
    decreases n - k,
{
    if k < n {
        lemma_scan_stays_failed(b, k, (n - 1) as nat);
    }
}

impl Arena {
    /// The arena of a layout, or `None` where the layout holds a byte that is
    /// neither a digit nor a line ending.
    pub fn from_layout(layout: &[u8]) -> (r: Option<Arena>)
        requires
            layout@.len() <= MAX_LAYOUT_LEN,
        ensures
            match layout_objects(layout@) {
                Some(objects) => r matches Some(a) && a.objects@ == objects,
                None => r is None,
            },
    {
        let o: i32 = FLOOR_SIDE / 2 + CELL / 2;
        let across_x = Size3 { x: CELL as u32, y: WALL_HEIGHT as u32, z: FLOOR_SIDE as u32 };
        let across_z = Size3 { x: FLOOR_SIDE as u32, y: WALL_HEIGHT as u32, z: CELL as u32 };
        let mut objects: Vec<Cuboid> = Vec::new();
        objects.push(Cuboid::new(Point3 { x: o, y: CELL, z: 0 }, across_x, Surface::Wall));
        objects.push(Cuboid::new(Point3 { x: -o, y: CELL, z: 0 }, across_x, Surface::Wall));
        objects.push(Cuboid::new(Point3 { x: 0, y: CELL, z: o }, across_z, Surface::Wall));
        objects.push(Cuboid::new(Point3 { x: 0, y: CELL, z: -o }, across_z, Surface::Wall));
        assert(objects@ =~= walls());

        let mut row: i64 = 0;
        let mut col: i64 = 0;
        let mut k: usize = 0;
        while k < layout.len()
            invariant
                k <= layout@.len() <= MAX_LAYOUT_LEN,
                scan(layout@, k as nat) matches Some((blocks, r0, c0)) && objects@ == walls()
                    + blocks && row == r0 && col == c0,
            decreases layout@.len() - k,
        {
            proof {
                lemma_scan_bounds(layout@, k as nat);
            }
            let c = layout[k];
            if c == 10 {
                row = row + 1;
                col = 0;
            } else if c == 13 && k + 1 < layout.len() && layout[k + 1] == 10 {
            } else if 48 <= c && c <= 57 {
                let h = (c - 48) as i64;
                if h != 0 {
                    let pos = Point3 {
                        x: (col * CELL as i64 - (FLOOR_SIDE / 2) as i64 + (CELL / 2) as i64) as i32,
                        y: (h * CELL as i64 / 2) as i32,
                        z: (row * CELL as i64 - (FLOOR_SIDE / 2) as i64 + (CELL / 2) as i64) as i32,
                    };
                    let size = Size3 { x: CELL as u32, y: (h * CELL as i64) as u32, z: CELL as u32 };
                    objects.push(Cuboid::new(pos, size, Surface::Block));
                }
                col = col + 1;
            } else {
                proof {
                    lemma_scan_stays_failed(layout@, (k + 1) as nat, layout@.len());
                }
                return None;
            }
            k = k + 1;
        }
        Some(Arena { objects })
    }
}

} // verus!
