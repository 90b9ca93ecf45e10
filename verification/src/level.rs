use crate::utils::str_eq;
use vstd::prelude::*;

verus! {

/// A layer of a Tiled level file the game understands.
#[derive(Copy, Clone, Debug, PartialEq, Eq, Structural)]
pub enum LevelLayer {
    Tiles,
    Objects,
}

pub open spec fn level_layer_named(name: Seq<char>) -> Option<LevelLayer> {
    if name == "tiles"@ {
        Some(LevelLayer::Tiles)
    } else if name == "objects"@ {
        Some(LevelLayer::Objects)
    } else {
        None
    }
}

impl LevelLayer {
    /// The layer of a given name; a level with any other layer is malformed
    /// (the caller must pass a known name).
    pub fn from_name(name: &str) -> (l: LevelLayer)
        requires
            level_layer_named(name@) is Some,
        ensures
            level_layer_named(name@) == Some(l),
    {
        if str_eq(name, "tiles") {
            LevelLayer::Tiles
        } else {
            LevelLayer::Objects
        }
    }
}

/// An object of a level's object layer.
#[derive(Copy, Clone, Debug, PartialEq, Eq, Structural)]
pub enum LevelObject {
    Room,
    Player,
    Rat,
    Bat,
    Torch,
}

pub open spec fn level_object_named(name: Seq<char>) -> Option<LevelObject> {
    if name == "room"@ {
        Some(LevelObject::Room)
    } else if name == "player"@ {
        Some(LevelObject::Player)
    } else if name == "rat"@ {
        Some(LevelObject::Rat)
    } else if name == "bat"@ {
        Some(LevelObject::Bat)
    } else if name == "torch"@ {
        Some(LevelObject::Torch)
    } else {
        None
    }
}

impl LevelObject {
    /// The object of a given name; a level with any other object is
    /// malformed (the caller must pass a known name).
    pub fn from_name(name: &str) -> (o: LevelObject)
        requires
            level_object_named(name@) is Some,
        ensures
            level_object_named(name@) == Some(o),
    {
        if str_eq(name, "room") {
            LevelObject::Room
        } else if str_eq(name, "player") {
            LevelObject::Player
        } else if str_eq(name, "rat") {
            LevelObject::Rat
        } else if str_eq(name, "bat") {
            LevelObject::Bat
        } else {
            LevelObject::Torch
        }
    }
}

/// A tile to draw: its cell and the index of its sprite in the tile map
/// (the cell's value minus one).
#[derive(Copy, Clone, Debug, PartialEq, Eq, Structural)]
pub struct TilePlacement {
    pub row: usize,
    pub col: usize,
    pub sprite_idx: usize,
}

/// The tiles of the first `k` cells of a row-major grid `n_cols` wide: a
/// cell holding 0 is empty, any other value `v` shows sprite `v - 1`.
pub open spec fn tiles_of(data: Seq<usize>, n_cols: int, k: int) -> Seq<TilePlacement>
    decreases k,
{
    if k <= 0 {
        Seq::empty()
    } else {
        let rest = tiles_of(data, n_cols, k - 1);
        let v = data[k - 1];
        if v != 0 {
            rest.push(
                TilePlacement {
                    row: ((k - 1) / n_cols) as usize,
                    col: ((k - 1) % n_cols) as usize,
                    sprite_idx: (v - 1) as usize,
                },
            )
        } else {
            rest
        }
    }
}

/// The tiles of a level's tile layer, row by row.
pub fn tile_placements(data: &Vec<usize>, n_rows: usize, n_cols: usize) -> (tiles: Vec<TilePlacement>)
    requires
        n_rows * n_cols <= data.len(),
    ensures
        tiles@ == tiles_of(data@, n_cols as int, n_rows * n_cols),
{
    let mut tiles: Vec<TilePlacement> = Vec::new();
    let mut i: usize = 0;
    while i < n_rows
        invariant
            i <= n_rows,
            n_rows * n_cols <= data.len(),
            tiles@ == tiles_of(data@, n_cols as int, i * n_cols),
        decreases n_rows - i,
    {
        proof {
            assert((i + 1) * n_cols <= n_rows * n_cols) by (nonlinear_arith)
                requires
                    i + 1 <= n_rows,
            ;
            assert((i + 1) * n_cols == i * n_cols + n_cols) by (nonlinear_arith);
        }
        let mut j: usize = 0;
        while j < n_cols
            invariant
                i < n_rows,
                j <= n_cols,
                (i + 1) * n_cols <= data.len(),
                (i + 1) * n_cols == i * n_cols + n_cols,
                tiles@ == tiles_of(data@, n_cols as int, i * n_cols + j),
            decreases n_cols - j,
        {
            let k = i * n_cols + j;
            proof {
                assert((k as int) / (n_cols as int) == i && (k as int) % (n_cols as int) == j) by {
                    vstd::arithmetic::div_mod::lemma_fundamental_div_mod_converse(
                        k as int,
                        n_cols as int,
                        i as int,
                        j as int,
                    );
                }
            }
            let v = data[k];
            if v != 0 {
                tiles.push(TilePlacement { row: i, col: j, sprite_idx: v - 1 });
            }
            j = j + 1;
        }
        i = i + 1;
    }
    tiles
}

/// Each placed tile sits in the cell it came from and shows that cell's
/// sprite: its column is inside the grid, its cell is among the first `k`
/// and holds the tile's sprite number plus one; the tiles come in cell
/// order, each cell at most once, and empty cells place nothing.
pub proof fn lemma_tiles_show_their_cells(data: Seq<usize>, n_cols: int, k: int)
    requires
        0 < n_cols,
        0 <= k <= data.len(),
        k <= usize::MAX,
    ensures
        ({
            let t = tiles_of(data, n_cols, k);
            &&& t.len() <= k
            &&& forall|i: int|
                0 <= i < t.len() ==> {
                    &&& (#[trigger] t[i]).col < n_cols
                    &&& t[i].row * n_cols + t[i].col < k
                    &&& data[t[i].row * n_cols + t[i].col] == t[i].sprite_idx + 1
                }
            &&& forall|i: int, j: int|
                0 <= i < j < t.len() ==> #[trigger] t[i].row * n_cols + t[i].col < #[trigger] t[j].row
                    * n_cols + t[j].col
        }),
    decreases k,
{
    if k > 0 {
        lemma_tiles_show_their_cells(data, n_cols, k - 1);
        let c = k - 1;
        let rest = tiles_of(data, n_cols, c);
        let t = tiles_of(data, n_cols, k);
        vstd::arithmetic::div_mod::lemma_fundamental_div_mod(c, n_cols);
        vstd::arithmetic::div_mod::lemma_mod_bound(c, n_cols);
        vstd::arithmetic::div_mod::lemma_div_pos_is_pos(c, n_cols);
        vstd::arithmetic::div_mod::lemma_div_is_ordered_by_denominator(c, 1, n_cols);
        vstd::arithmetic::mul::lemma_mul_is_commutative(n_cols, c / n_cols);
        if data[c] != 0 {
            let tile = TilePlacement {
                row: (c / n_cols) as usize,
                col: (c % n_cols) as usize,
                sprite_idx: (data[c] - 1) as usize,
            };
            assert(tile.row * n_cols + tile.col == c);
            assert(t == rest.push(tile));
            assert forall|i: int| 0 <= i < t.len() implies {
                &&& (#[trigger] t[i]).col < n_cols
                &&& t[i].row * n_cols + t[i].col < k
                &&& data[t[i].row * n_cols + t[i].col] == t[i].sprite_idx + 1
            } by {
                if i < rest.len() {
                    assert(t[i] == rest[i]);
                }
            }
            assert forall|i: int, j: int| 0 <= i < j < t.len() implies #[trigger] t[i].row * n_cols
                + t[i].col < #[trigger] t[j].row * n_cols + t[j].col by {
                assert(t[i] == rest[i]);
                if j < rest.len() {
                    assert(t[j] == rest[j]);
                }
            }
        }
    }
}

} // verus!
