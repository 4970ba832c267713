//! Rendering the static maze grid for the creation response.
//!
//! The transport layer samples the engine's walkability at the centre of
//! every cell and hands the core one boolean per cell, row-major. The
//! core renders each cell as its wire tag: `"walkable"` or `"wall"`.

use vstd::prelude::*;

verus! {

/// The wire tag of one cell.
pub open spec fn cell_tag(walkable: bool) -> Seq<char> {
    if walkable {
        "walkable"@
    } else {
        "wall"@
    }
}

/// Mathematical image of a sampled walkability grid.
pub open spec fn walk_view(w: Seq<Vec<bool>>) -> Seq<Seq<bool>> {
    w.map_values(|row: Vec<bool>| row@)
}

/// Mathematical image of a rendered tag grid.
pub open spec fn grid_view(g: Seq<Vec<String>>) -> Seq<Seq<Seq<char>>> {
    g.map_values(|row: Vec<String>| row@.map_values(|s: String| s@))
}

/// The tag grid a walkability grid renders to, cell for cell.
pub open spec fn grid_tags(walk: Seq<Seq<bool>>) -> Seq<Seq<Seq<char>>> {
    walk.map_values(|row: Seq<bool>| row.map_values(|b: bool| cell_tag(b)))
}

/// Renders a sampled walkability grid as the per-cell tag grid sent with
/// the creation response: the same shape, `"walkable"` where the sample
/// was walkable and `"wall"` elsewhere.
pub fn serialize_grid(walk: &Vec<Vec<bool>>) -> (r: Vec<Vec<String>>)
    ensures
        grid_view(r@) == grid_tags(walk_view(walk@)),
        r@.len() == walk@.len(),
        forall|y: int| 0 <= y < r@.len() ==> #[trigger] r@[y]@.len() == walk@[y]@.len(),
{
    let mut result: Vec<Vec<String>> = Vec::new();
    let mut y: usize = 0;
    while y < walk.len()
        invariant
            y <= walk@.len(),
            result@.len() == y,
            forall|y2: int| #![trigger result@[y2]]
                0 <= y2 < y ==> result@[y2]@.len() == walk@[y2]@.len() && forall|x: int|
                    0 <= x < result@[y2]@.len()
                        ==> #[trigger] result@[y2]@[x]@ == cell_tag(walk@[y2]@[x]),
        decreases walk@.len() - y,
    {
        let wrow = &walk[y];
        let mut row: Vec<String> = Vec::new();
        let mut x: usize = 0;
        while x < wrow.len()
            invariant
                x <= wrow@.len(),
                row@.len() == x,
                forall|x2: int| 0 <= x2 < x ==> #[trigger] row@[x2]@ == cell_tag(wrow@[x2]),
            decreases wrow@.len() - x,
        {
            if wrow[x] {
                row.push("walkable".to_owned());
            } else {
                row.push("wall".to_owned());
            }
            x = x + 1;
        }
        result.push(row);
        y = y + 1;
    }
    proof {
        assert forall|y2: int| 0 <= y2 < result@.len()
            implies #[trigger] grid_view(result@)[y2] =~= grid_tags(walk_view(walk@))[y2] by {
            assert(grid_view(result@)[y2] == result@[y2]@.map_values(|s: String| s@));
            assert(grid_tags(walk_view(walk@))[y2]
                == walk@[y2]@.map_values(|b: bool| cell_tag(b)));
        }
        assert(grid_view(result@) =~= grid_tags(walk_view(walk@)));
    }
    result
}

} // verus!
