use vstd::prelude::*;

verus! {

/// The cell of one instance in a square grid: its column `x` and row `z`.
#[derive(Clone, Copy, Debug, PartialEq, Eq, Structural)]
pub struct GridCell {
    pub x: u32,
    pub z: u32,
}

/// The cells of a `per_row` x `per_row` grid, row after row: the instance
/// at position `z * per_row + x` sits in column `x` of row `z`.
pub fn instance_grid(per_row: u32) -> (r: Vec<GridCell>)
    requires
        per_row * per_row <= usize::MAX,
    ensures
        r@.len() == per_row * per_row,
        forall|z: int, x: int|
            0 <= z < per_row && 0 <= x < per_row ==> #[trigger] r@[z * per_row + x] == (GridCell {
                x: x as u32,
                z: z as u32,
            }),
{
    let mut cells: Vec<GridCell> = Vec::new();
    let mut z: u32 = 0;
    while z < per_row
        invariant
            z <= per_row,
            per_row * per_row <= usize::MAX,
            cells@.len() == z * per_row,
            forall|zz: int, x: int|
                0 <= zz < z && 0 <= x < per_row ==> #[trigger] cells@[zz * per_row + x] == (
                GridCell { x: x as u32, z: zz as u32 }),
        decreases per_row - z,
    {
        let mut x: u32 = 0;
        while x < per_row
            invariant
                z < per_row,
                x <= per_row,
                per_row * per_row <= usize::MAX,
                cells@.len() == z * per_row + x,
                forall|zz: int, xx: int|
                    0 <= zz < z && 0 <= xx < per_row ==> #[trigger] cells@[zz * per_row + xx] == (
                    GridCell { x: xx as u32, z: zz as u32 }),
                forall|xx: int| 0 <= xx < x ==> #[trigger] cells@[z * per_row + xx] == (GridCell {
                    x: xx as u32,
                    z,
                }),
            decreases per_row - x,
        {
            proof {
                assert((z + 1) * per_row <= per_row * per_row) by (nonlinear_arith)
                    requires
                        z < per_row,
                ;
            }
            let ghost before = cells@;
            cells.push(GridCell { x, z });
            proof {
                assert forall|zz: int, xx: int|
                    0 <= zz < z && 0 <= xx < per_row implies #[trigger] cells@[zz * per_row + xx]
                    == (GridCell { x: xx as u32, z: zz as u32 }) by {
                    assert(zz * per_row + xx < z * per_row) by (nonlinear_arith)
                        requires
                            0 <= zz < z,
                            0 <= xx < per_row,
                    ;
                    assert(cells@[zz * per_row + xx] == before[zz * per_row + xx]);
                }
            }
            x = x + 1;
        }
        proof {
            assert forall|zz: int, xx: int|
                0 <= zz < z + 1 && 0 <= xx < per_row implies #[trigger] cells@[zz * per_row + xx]
                == (GridCell { x: xx as u32, z: zz as u32 }) by {
                if zz == z {
                } else {
                    assert(zz * per_row + xx < z * per_row) by (nonlinear_arith)
                        requires
                            zz < z,
                            xx < per_row,
                    ;
                }
            }
            assert((z + 1) * per_row == z * per_row + per_row) by (nonlinear_arith);
        }
        z = z + 1;
    }
    cells
}

} // verus!
