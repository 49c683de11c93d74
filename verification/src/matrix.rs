//! The module matrix: a square grid of dark/light cells produced by the
//! symbol construction engine and consumed read-only by the renderer.

use vstd::prelude::*;

verus! {

/// One cell of the QR symbol grid.
#[derive(Clone, Copy, Debug, PartialEq, Eq, Structural)]
pub enum Module {
    Dark,
    Light,
}

impl Module {
    pub open spec fn spec_is_dark(self) -> bool {
        self is Dark
    }

    #[verifier::when_used_as_spec(spec_is_dark)]
    pub fn is_dark(self) -> (r: bool)
        ensures
            r == self.spec_is_dark(),
    {
        match self {
            Module::Dark => true,
            Module::Light => false,
        }
    }
}

/// A square grid of modules, stored row-major.
#[derive(Debug)]
pub struct ModuleMatrix {
    pub side: usize,
    pub cells: Vec<Module>,
}

impl ModuleMatrix {
    /// Well-formedness: the cell vector holds exactly side * side entries.
    pub open spec fn wf(self) -> bool {
        self.cells@.len() == self.side as int * self.side as int
    }

    pub open spec fn spec_side(self) -> int {
        self.side as int
    }

    /// The grid as a row-major sequence of darkness flags.
    pub open spec fn grid(self) -> Seq<bool> {
        self.cells@.map_values(|m: Module| m.spec_is_dark())
    }

    /// Whether the cell at row `r`, column `c` is dark.
    pub open spec fn cell(self, r: int, c: int) -> bool {
        self.grid()[r * self.spec_side() + c]
    }

    /// Builds a matrix from a row-major cell vector; rejects a vector whose
    /// length is not exactly side * side.
    pub fn new(side: usize, cells: Vec<Module>) -> (r: Option<ModuleMatrix>)
        ensures
            r is Some <==> cells@.len() == side as int * side as int,
            r matches Some(m) ==> m.wf() && m.spec_side() == side as int && m.grid()
                == cells@.map_values(|mm: Module| mm.spec_is_dark()),
    {
        match side.checked_mul(side) {
            Some(n) => {
                let len = cells.len();
                if len == n {
                    Some(ModuleMatrix { side, cells })
                } else {
                    None
                }
            },
            None => {
                let len = cells.len();
                proof {
                    assert(len as int <= usize::MAX as int);
                }
                None
            },
        }
    }

    pub fn side(&self) -> (r: usize)
        ensures
            r as int == self.spec_side(),
    {
        self.side
    }

    /// Number of cells in the grid.
    pub fn len(&self) -> (r: usize)
        ensures
            r as int == self.grid().len(),
    {
        self.cells.len()
    }

    /// The cell at row `r`, column `c`.
    pub fn get(&self, r: usize, c: usize) -> (b: bool)
        requires
            self.wf(),
            r < self.spec_side(),
            c < self.spec_side(),
        ensures
            b == self.cell(r as int, c as int),
    {
        let n = self.cells.len();
        proof {
            vstd::arithmetic::mul::lemma_mul_inequality(
                r as int + 1,
                self.side as int,
                self.side as int,
            );
            vstd::arithmetic::mul::lemma_mul_is_distributive_add_other_way(
                self.side as int,
                r as int,
                1,
            );
            assert((r as int + 1) * self.side as int == r as int * self.side as int
                + self.side as int);
            assert(self.cells@.len() == n as int);
            assert((r as int * self.side as int + c as int) < (self.side as int
                * self.side as int));
        }
        let idx = r * self.side + c;
        self.cells[idx].is_dark()
    }

    /// The cells, row-major.
    pub fn to_cells(self) -> (r: Vec<Module>)
        ensures
            r@.map_values(|m: Module| m.spec_is_dark()) == self.grid(),
            r@.len() == self.grid().len(),
    {
        self.cells
    }
}

} // verus!
