//! The grid of stones.

use vstd::prelude::*;
use crate::color::Rgb;
use crate::draw::Draw;
use crate::params::Parameters;
use crate::stone::{follows, lemma_tick_keeps_valid, Stone, StoneModel};

verus! {

/// The number of rows of the grid as it is shown.
pub const ROWS: u32 = 22;

/// The number of columns of the grid as it is shown.
pub const COLS: u32 = 12;

/// The side of one cell on the canvas.
pub const SIZE: u32 = 30;

/// The margin round the grid on the canvas.
pub const MARGIN: u32 = 30;

/// The width of the canvas.
pub const WIDTH: u32 = COLS * SIZE + 2 * MARGIN;

/// The height of the canvas.
pub const HEIGHT: u32 = ROWS * SIZE + 2 * MARGIN;

/// The mathematical value of a [`Gravel`]: the stones row by row, each row
/// from left to right.
pub struct GravelModel {
    pub cols: nat,
    pub rows: nat,
    pub stones: Seq<StoneModel>,
}

impl GravelModel {
    /// The stone at index `i` is the valid stone of the cell that row-major
    /// order gives that index.
    pub open spec fn in_place(self, i: int) -> bool {
        &&& self.stones[i].valid()
        &&& self.stones[i].rows == self.rows
        &&& self.stones[i].x == i % (self.cols as int)
        &&& self.stones[i].y == i / (self.cols as int)
    }

    /// There is one stone for each cell, and each is in place.
    pub open spec fn valid(self) -> bool {
        &&& self.stones.len() == self.cols * self.rows
        &&& forall|i: int| 0 <= i < self.stones.len() ==> #[trigger] self.in_place(i)
    }

    /// The stone at index `i` is as it was made, with a base colour as
    /// [`Rgb::sample`] draws it.
    pub open spec fn untouched(self, i: int) -> bool {
        &&& self.stones[i] == StoneModel::fresh(
            self.stones[i].x,
            self.stones[i].y,
            self.stones[i].rows,
            self.stones[i].base,
        )
        &&& self.stones[i].base.bright()
    }
}

/// The grid of stones.
pub struct Gravel {
    cols: u32,
    rows: u32,
    stones: Vec<Stone>,
}

impl View for Gravel {
    type V = GravelModel;

    closed spec fn view(&self) -> GravelModel {
        GravelModel {
            cols: self.cols as nat,
            rows: self.rows as nat,
            stones: models(self.stones@),
        }
    }
}

/// The mathematical values of a sequence of stones.
pub open spec fn models(stones: Seq<Stone>) -> Seq<StoneModel> {
    Seq::new(stones.len(), |i: int| stones[i]@)
}

/// The grid of `cols` by `rows` cells that holds `stones`.
pub open spec fn grid_of(cols: u32, rows: u32, stones: Seq<Stone>) -> GravelModel {
    GravelModel { cols: cols as nat, rows: rows as nat, stones: models(stones) }
}

/// The index `row * cols + col` of a cell gives back its column and its row.
pub proof fn lemma_cell_of_index(col: int, row: int, cols: int)
    requires
        0 <= col < cols,
        0 <= row,
    ensures
        (row * cols + col) % cols == col,
        (row * cols + col) / cols == row,
{
    vstd::arithmetic::div_mod::lemma_fundamental_div_mod_converse(
        row * cols + col,
        cols,
        row,
        col,
    );
}

/// Adding the freshly made stone of the next cell keeps a partly built grid
/// in place and untouched.
proof fn lemma_push_keeps_laid(
    cols: u32,
    rows: u32,
    before: Seq<Stone>,
    stone: Stone,
    x: u32,
    y: u32,
)
    requires
        x < cols,
        y < rows,
        before.len() == y * cols + x,
        forall|i: int|
            0 <= i < before.len() ==> #[trigger] grid_of(cols, rows, before).in_place(i)
                && grid_of(cols, rows, before).untouched(i),
        stone@ == StoneModel::fresh(x as nat, y as nat, rows as nat, stone@.base),
        stone@.valid(),
        stone@.base.bright(),
    ensures
        forall|i: int|
            0 <= i < before.len() + 1 ==> #[trigger] grid_of(
                cols,
                rows,
                before.push(stone),
            ).in_place(i) && grid_of(cols, rows, before.push(stone)).untouched(i),
{
    let old_grid = grid_of(cols, rows, before);
    let new_grid = grid_of(cols, rows, before.push(stone));
    lemma_cell_of_index(x as int, y as int, cols as int);
    assert forall|i: int| 0 <= i < before.len() + 1 implies #[trigger] new_grid.in_place(i)
        && new_grid.untouched(i) by {
        if i < before.len() {
            assert(old_grid.in_place(i));
            assert(old_grid.untouched(i));
            assert(new_grid.stones[i] == old_grid.stones[i]);
        } else {
            assert(new_grid.stones[i] == stone@);
        }
    }
}

/// A tick leaves a stone in its cell, and a valid stone valid.
pub proof fn lemma_follows_in_place(before: StoneModel, after: StoneModel, p: Parameters)
    requires
        follows(before, after, p),
        p.valid(),
    ensures
        after.x == before.x,
        after.y == before.y,
        after.rows == before.rows,
        after.base == before.base,
        before.valid() ==> after.valid(),
{
    let d = choose|d: Draw| d.valid() && after == #[trigger] before.tick(p, d);
    if before.valid() {
        lemma_tick_keeps_valid(before, p, d);
    }
}

impl Gravel {
    #[verifier::type_invariant]
    closed spec fn well_formed(self) -> bool {
        self.stones@.len() == self.cols * self.rows
    }

    /// Makes a grid of `cols` by `rows` stones, each as [`Stone::new`] makes
    /// it, with a base colour of its own that [`Rgb::sample`] draws.
    pub fn new(cols: u32, rows: u32) -> (g: Gravel)
        ensures
            g@.cols == cols,
            g@.rows == rows,
            g@.valid(),
            forall|i: int| 0 <= i < g@.stones.len() ==> #[trigger] g@.untouched(i),
    {
        let mut stones: Vec<Stone> = Vec::new();
        let mut y: u32 = 0;
        while y < rows
            invariant
                y <= rows,
                stones@.len() == y * cols,
                forall|i: int|
                    0 <= i < stones@.len() ==> #[trigger] grid_of(
                        cols,
                        rows,
                        stones@,
                    ).in_place(i) && grid_of(cols, rows, stones@).untouched(i),
            decreases rows - y,
        {
            let mut x: u32 = 0;
            while x < cols
                invariant
                    y < rows,
                    x <= cols,
                    stones@.len() == y * cols + x,
                    forall|i: int|
                        0 <= i < stones@.len() ==> #[trigger] grid_of(
                            cols,
                            rows,
                            stones@,
                        ).in_place(i) && grid_of(cols, rows, stones@).untouched(i),
                decreases cols - x,
            {
                let base = Rgb::sample();
                let stone = Stone::new(x, y, rows, base);
                proof {
                    lemma_push_keeps_laid(cols, rows, stones@, stone, x, y);
                }
                stones.push(stone);
                x += 1;
            }
            proof {
                assert((y + 1) * cols == y * cols + cols) by (nonlinear_arith);
            }
            y += 1;
        }
        proof {
            assert(rows * cols == cols * rows) by (nonlinear_arith);
        }
        let g = Gravel { cols, rows, stones };
        proof {
            assert(g@ == grid_of(cols, rows, g.stones@));
            assert forall|i: int| 0 <= i < g@.stones.len() implies #[trigger] g@.in_place(i) by {
                assert(grid_of(cols, rows, g.stones@).in_place(i));
            }
            assert forall|i: int| 0 <= i < g@.stones.len() implies #[trigger] g@.untouched(i) by {
                assert(grid_of(cols, rows, g.stones@).in_place(i));
            }
        }
        g
    }

    /// The number of columns.
    pub fn cols(&self) -> (n: u32)
        ensures
            n == self@.cols,
    {
        self.cols
    }

    /// The number of rows.
    pub fn rows(&self) -> (n: u32)
        ensures
            n == self@.rows,
    {
        self.rows
    }

    /// The stones, row by row, each row from left to right.
    pub fn stones(&self) -> (all: &Vec<Stone>)
        ensures
            all@.len() == self@.stones.len(),
            all@.len() == self@.cols * self@.rows,
            forall|i: int| 0 <= i < all@.len() ==> (#[trigger] all@[i])@ == self@.stones[i],
    {
        proof {
            use_type_invariant(self);
        }
        &self.stones
    }

    /// Advances every stone by one tick, sampling for each what its tick
    /// leaves to chance.
    ///
    /// Each stone's new state is that of [`Stone::tick`] for some valid draw
    /// of its own, so every stone stays in its cell.
    pub fn update(&mut self, params: &Parameters)
        requires
            params.valid(),
        ensures
            final(self)@.cols == old(self)@.cols,
            final(self)@.rows == old(self)@.rows,
            final(self)@.stones.len() == old(self)@.stones.len(),
            forall|i: int|
                0 <= i < old(self)@.stones.len() ==> follows(
                    old(self)@.stones[i],
                    #[trigger] final(self)@.stones[i],
                    *params,
                ),
            old(self)@.valid() ==> final(self)@.valid(),
    {
        proof {
            use_type_invariant(&*self);
        }
        let count = self.stones.len();
        let mut i: usize = 0;
        while i < count
            invariant
                params.valid(),
                i <= count,
                count == self.stones@.len(),
                count == self.cols * self.rows,
                count == old(self).stones@.len(),
                self.cols == old(self).cols,
                self.rows == old(self).rows,
                forall|j: int|
                    0 <= j < i ==> follows(
                        old(self)@.stones[j],
                        #[trigger] self@.stones[j],
                        *params,
                    ),
                forall|j: int|
                    i <= j < count ==> #[trigger] self@.stones[j] == old(self)@.stones[j],
            decreases count - i,
        {
            let ghost before = self@;
            self.stones[i].update(params);
            proof {
                assert forall|j: int| 0 <= j < i + 1 implies follows(
                    old(self)@.stones[j],
                    #[trigger] self@.stones[j],
                    *params,
                ) by {
                    if j < i {
                        assert(self@.stones[j] == before.stones[j]);
                    } else {
                        assert(before.stones[j] == old(self)@.stones[j]);
                    }
                }
                assert forall|j: int| i + 1 <= j < count implies #[trigger] self@.stones[j] == old(
                    self,
                )@.stones[j] by {
                    assert(self@.stones[j] == before.stones[j]);
                }
            }
            i += 1;
        }
        proof {
            if old(self)@.valid() {
                assert forall|j: int| 0 <= j < self@.stones.len() implies #[trigger] self@.in_place(
                    j,
                ) by {
                    assert(old(self)@.in_place(j));
                    lemma_follows_in_place(old(self)@.stones[j], self@.stones[j], *params);
                }
            }
        }
    }
}

} // verus!
