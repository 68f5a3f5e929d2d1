//! The board: a fixed `width` by `height` array of live and dead cells,
//! with a count of the live cells that every mutation keeps current.
use vstd::prelude::*;

verus! {

/// The number of `true` entries of `s`.
pub open spec fn count_true(s: Seq<bool>) -> nat
    decreases s.len(),
{
    if s.len() == 0 {
        0
    } else {
        count_true(s.drop_last()) + if s.last() { 1nat } else { 0nat }
    }
}

/// One for a live cell, zero for a dead one.
pub open spec fn live_as_nat(b: bool) -> nat {
    if b { 1 } else { 0 }
}

/// Position of `v` saturated into `[0, n)`: below zero gives zero, past the
/// end gives the last index.
pub open spec fn clamp_index(v: int, n: int) -> int {
    if v < 0 {
        0
    } else if v >= n {
        n - 1
    } else {
        v
    }
}

/// The rule of the game: a live cell survives with two or three live
/// neighbours, a dead one comes alive with exactly three.
pub open spec fn next_state(alive: bool, neighbours: nat) -> bool {
    if alive {
        neighbours == 2 || neighbours == 3
    } else {
        neighbours == 3
    }
}

/// One for a live cell, zero for a dead one.
fn live_as_count(b: bool) -> (r: u8)
    ensures
        r as nat == live_as_nat(b),
        r <= 1,
{
    if b { 1 } else { 0 }
}

/// Where cell `(x, y)` is stored in a row-major board of the given width.
pub open spec fn cell_index(width: int, x: int, y: int) -> int {
    y * width + x
}

/// Appending an entry adds it to the count.
pub proof fn lemma_count_push(s: Seq<bool>, b: bool)
    ensures
        count_true(s.push(b)) == count_true(s) + live_as_nat(b),
{
    assert(s.push(b).drop_last() =~= s);
}

/// A sequence holds no more `true` entries than entries.
pub proof fn lemma_count_bounded(s: Seq<bool>)
    ensures
        count_true(s) <= s.len(),
    decreases s.len(),
{
    if s.len() > 0 {
        lemma_count_bounded(s.drop_last());
    }
}

/// Overwriting entry `i` moves the count by the change of that entry.
pub proof fn lemma_count_update(s: Seq<bool>, i: int, b: bool)
    requires
        0 <= i < s.len(),
    ensures
        count_true(s.update(i, b)) + live_as_nat(s[i]) == count_true(s) + live_as_nat(b),
    decreases s.len(),
{
    let t = s.update(i, b);
    if i == s.len() - 1 {
        assert(t.drop_last() =~= s.drop_last());
    } else {
        assert(t.drop_last() =~= s.drop_last().update(i, b));
        lemma_count_update(s.drop_last(), i, b);
    }
}

proof fn lemma_index_in_bounds(width: int, height: int, x: int, y: int)
    requires
        0 <= x < width,
        0 <= y < height,
    ensures
        0 <= cell_index(width, x, y) < width * height,
{
    assert(0 <= y * width + x < width * height) by (nonlinear_arith)
        requires
            0 <= x < width,
            0 <= y < height,
    ;
}

/// A `width` by `height` board of cells, each alive or dead, stored row by
/// row, together with the number of live cells.
pub struct Grid {
    width: usize,
    height: usize,
    cells: Vec<bool>,
    live: usize,
}

impl View for Grid {
    type V = Seq<bool>;

    /// The cells row by row: cell `(x, y)` is entry `y * width + x`.
    closed spec fn view(&self) -> Seq<bool> {
        self.cells@
    }
}

impl Grid {
    pub closed spec fn width_spec(&self) -> nat {
        self.width as nat
    }

    pub closed spec fn height_spec(&self) -> nat {
        self.height as nat
    }

    /// The live-cell count that the board maintains.
    pub closed spec fn live_spec(&self) -> nat {
        self.live as nat
    }

    /// The board holds one entry per cell, the cell count fits a machine
    /// word, and the maintained count is the number of live cells.
    pub open spec fn wf(&self) -> bool {
        &&& self.width_spec() * self.height_spec() <= usize::MAX
        &&& self@.len() == self.width_spec() * self.height_spec()
        &&& self.live_spec() == count_true(self@)
    }

    pub open spec fn in_bounds(&self, x: int, y: int) -> bool {
        0 <= x < self.width_spec() && 0 <= y < self.height_spec()
    }

    /// Whether cell `(x, y)` is alive.
    pub open spec fn cell(&self, x: int, y: int) -> bool {
        self@[cell_index(self.width_spec() as int, x, y)]
    }

    /// Whether no cell of the board is alive.
    pub open spec fn all_dead(&self) -> bool {
        forall|i: int| 0 <= i < self@.len() ==> !#[trigger] self@[i]
    }

    /// Cell `(x, y)` shifted by `(dx, dy)`, each coordinate clamped onto
    /// the board, as a count of one or zero.
    pub open spec fn clamped_neighbour(&self, x: int, y: int, dx: int, dy: int) -> nat {
        live_as_nat(
            self.cell(
                clamp_index(x + dx, self.width_spec() as int),
                clamp_index(y + dy, self.height_spec() as int),
            ),
        )
    }

    /// The live cells among the eight clamped neighbour positions of
    /// `(x, y)`, counting a position once per offset that lands on it.
    pub open spec fn neighbour_count(&self, x: int, y: int) -> nat {
        self.clamped_neighbour(x, y, -1, -1) + self.clamped_neighbour(x, y, 0, -1)
            + self.clamped_neighbour(x, y, 1, -1) + self.clamped_neighbour(x, y, -1, 0)
            + self.clamped_neighbour(x, y, 1, 0) + self.clamped_neighbour(x, y, -1, 1)
            + self.clamped_neighbour(x, y, 0, 1) + self.clamped_neighbour(x, y, 1, 1)
    }

    /// `after` is this board with cell `(x, y)` set to `alive` and nothing
    /// else changed, its count moved by the change of that one cell.
    pub open spec fn sets_cell(&self, after: &Grid, x: int, y: int, alive: bool) -> bool {
        &&& after.width_spec() == self.width_spec()
        &&& after.height_spec() == self.height_spec()
        &&& after@ == self@.update(cell_index(self.width_spec() as int, x, y), alive)
        &&& after.live_spec() + live_as_nat(self.cell(x, y)) == self.live_spec() + live_as_nat(
            alive,
        )
    }

    /// `next` is the generation that follows this board: same size, and
    /// each cell obeys the rule on this board's clamped neighbour counts.
    pub open spec fn is_successor(&self, next: &Grid) -> bool {
        &&& next.width_spec() == self.width_spec()
        &&& next.height_spec() == self.height_spec()
        &&& forall|x: int, y: int|
            self.in_bounds(x, y) ==> #[trigger] next.cell(x, y) == next_state(
                self.cell(x, y),
                self.neighbour_count(x, y),
            )
    }

    /// A board of `width` by `height` dead cells.
    pub fn new(width: usize, height: usize) -> (r: Grid)
        requires
            width * height <= usize::MAX,
        ensures
            r.wf(),
            r.width_spec() == width,
            r.height_spec() == height,
            r@.len() == width * height,
            r.all_dead(),
            r.live_spec() == 0,
    {
        let n: usize = width * height;
        let mut cells: Vec<bool> = Vec::new();
        let mut i: usize = 0;
        while i < n
            invariant
                i <= n,
                cells@.len() == i,
                forall|j: int| 0 <= j < i ==> !#[trigger] cells@[j],
                count_true(cells@) == 0,
            decreases n - i,
        {
            proof {
                lemma_count_push(cells@, false);
            }
            cells.push(false);
            i = i + 1;
        }
        Grid { width, height, cells, live: 0 }
    }

    pub fn width(&self) -> (r: usize)
        ensures
            r == self.width_spec(),
    {
        self.width
    }

    pub fn height(&self) -> (r: usize)
        ensures
            r == self.height_spec(),
    {
        self.height
    }

    /// The number of live cells, as maintained.
    pub fn live_count(&self) -> (r: usize)
        ensures
            r == self.live_spec(),
    {
        self.live
    }

    /// Whether cell `(x, y)` is alive.
    pub fn is_alive(&self, x: usize, y: usize) -> (r: bool)
        requires
            self.wf(),
            x < self.width_spec(),
            y < self.height_spec(),
        ensures
            r == self.cell(x as int, y as int),
    {
        proof {
            lemma_index_in_bounds(self.width as int, self.height as int, x as int, y as int);
        }
        self.cells[y * self.width + x]
    }

    /// The live cells among the eight neighbour positions of `(x, y)`, each
    /// coordinate of a position clamped onto the board, so that an edge or
    /// corner cell may count one cell more than once.
    #[verifier::rlimit(30)]
    pub fn live_neighbor_count(&self, x: usize, y: usize) -> (r: u8)
        requires
            self.wf(),
            x < self.width_spec(),
            y < self.height_spec(),
        ensures
            r as nat == self.neighbour_count(x as int, y as int),
            r <= 8,
    {
        let left: usize = if x == 0 { x } else { x - 1 };
        let right: usize = if x == self.width - 1 { x } else { x + 1 };
        let above: usize = if y == 0 { y } else { y - 1 };
        let below: usize = if y == self.height - 1 { y } else { y + 1 };
        let ghost x_int = x as int;
        let ghost y_int = y as int;
        let ghost w = self.width_spec() as int;
        let ghost h = self.height_spec() as int;
        assert(left == clamp_index(x_int - 1, w) && right == clamp_index(x_int + 1, w));
        assert(above == clamp_index(y_int - 1, h) && below == clamp_index(y_int + 1, h));
        assert(x_int == clamp_index(x_int + 0, w) && y_int == clamp_index(y_int + 0, h));
        let a: u8 = live_as_count(self.is_alive(left, above));
        assert(a as nat == self.clamped_neighbour(x_int, y_int, -1, -1));
        let b: u8 = live_as_count(self.is_alive(x, above));
        assert(b as nat == self.clamped_neighbour(x_int, y_int, 0, -1));
        let c: u8 = live_as_count(self.is_alive(right, above));
        assert(c as nat == self.clamped_neighbour(x_int, y_int, 1, -1));
        let d: u8 = live_as_count(self.is_alive(left, y));
        assert(d as nat == self.clamped_neighbour(x_int, y_int, -1, 0));
        let e: u8 = live_as_count(self.is_alive(right, y));
        assert(e as nat == self.clamped_neighbour(x_int, y_int, 1, 0));
        let f: u8 = live_as_count(self.is_alive(left, below));
        assert(f as nat == self.clamped_neighbour(x_int, y_int, -1, 1));
        let g: u8 = live_as_count(self.is_alive(x, below));
        assert(g as nat == self.clamped_neighbour(x_int, y_int, 0, 1));
        let h: u8 = live_as_count(self.is_alive(right, below));
        assert(h as nat == self.clamped_neighbour(x_int, y_int, 1, 1));
        a + b + c + d + e + f + g + h
    }

    /// The next generation: a new board of the same size on which every
    /// cell follows the rule, given its clamped neighbour count here.
    pub fn next_generation(&self) -> (r: Grid)
        requires
            self.wf(),
        ensures
            r.wf(),
            self.is_successor(&r),
    {
        let n: usize = self.width * self.height;
        let mut cells: Vec<bool> = Vec::new();
        let mut live: usize = 0;
        let mut i: usize = 0;
        while i < n
            invariant
                n == self.width * self.height,
                self.wf(),
                i <= n,
                cells@.len() == i,
                live as nat == count_true(cells@),
                forall|j: int|
                    0 <= j < i ==> #[trigger] cells@[j] == next_state(
                        self.cell(j % self.width as int, j / self.width as int),
                        self.neighbour_count(j % self.width as int, j / self.width as int),
                    ),
            decreases n - i,
        {
            let x: usize = i % self.width;
            let y: usize = i / self.width;
            proof {
                let w = self.width as int;
                let h = self.height as int;
                assert(i as int == w * (i as int / w) + i as int % w) by (nonlinear_arith)
                    requires
                        w > 0,
                ;
                let q = i as int / w;
                let m = i as int % w;
                assert(q < h) by (nonlinear_arith)
                    requires
                        i as int == w * q + m,
                        0 <= m,
                        i < w * h,
                        w > 0,
                ;
            }
            let count: u8 = self.live_neighbor_count(x, y);
            let alive: bool = self.is_alive(x, y);
            let next: bool = if alive {
                count == 2 || count == 3
            } else {
                count == 3
            };
            proof {
                lemma_count_push(cells@, next);
                lemma_count_bounded(cells@.push(next));
            }
            cells.push(next);
            if next {
                live = live + 1;
            }
            i = i + 1;
        }
        let r = Grid { width: self.width, height: self.height, cells, live };
        assert forall|x: int, y: int| self.in_bounds(x, y) implies #[trigger] r.cell(x, y)
            == next_state(self.cell(x, y), self.neighbour_count(x, y)) by {
            let w = self.width as int;
            lemma_index_in_bounds(w, self.height as int, x, y);
            vstd::arithmetic::div_mod::lemma_fundamental_div_mod_converse(
                cell_index(w, x, y),
                w,
                y,
                x,
            );
        }
        r
    }

    /// Makes cell `(x, y)` alive; the count rises only if it was dead.
    pub fn set_alive(&mut self, x: usize, y: usize)
        requires
            old(self).wf(),
            x < old(self).width_spec(),
            y < old(self).height_spec(),
        ensures
            final(self).wf(),
            old(self).sets_cell(final(self), x as int, y as int, true),
    {
        proof {
            lemma_index_in_bounds(self.width as int, self.height as int, x as int, y as int);
        }
        let i: usize = y * self.width + x;
        if !self.cells[i] {
            proof {
                lemma_count_update(self.cells@, i as int, true);
                lemma_count_bounded(self.cells@.update(i as int, true));
            }
            self.cells.set(i, true);
            self.live = self.live + 1;
        } else {
            assert(self.cells@.update(i as int, true) =~= self.cells@);
        }
    }

    /// Makes cell `(x, y)` dead; the count falls only if it was alive.
    pub fn set_dead(&mut self, x: usize, y: usize)
        requires
            old(self).wf(),
            x < old(self).width_spec(),
            y < old(self).height_spec(),
        ensures
            final(self).wf(),
            old(self).sets_cell(final(self), x as int, y as int, false),
    {
        proof {
            lemma_index_in_bounds(self.width as int, self.height as int, x as int, y as int);
        }
        let i: usize = y * self.width + x;
        if self.cells[i] {
            proof {
                lemma_count_update(self.cells@, i as int, false);
            }
            self.cells.set(i, false);
            self.live = self.live - 1;
        } else {
            assert(self.cells@.update(i as int, false) =~= self.cells@);
        }
    }
}

/// The number of `true` entries of a sequence that holds none is zero.
pub proof fn lemma_count_none(s: Seq<bool>)
    requires
        forall|i: int| 0 <= i < s.len() ==> !#[trigger] s[i],
    ensures
        count_true(s) == 0,
    decreases s.len(),
{
    if s.len() > 0 {
        lemma_count_none(s.drop_last());
    }
}

/// Setting a cell to the state it was just set to changes neither the board
/// nor its live count: `set_alive` and `set_dead` are idempotent.
pub proof fn lemma_set_twice(g: &Grid, once: &Grid, twice: &Grid, x: int, y: int, alive: bool)
    requires
        g.wf(),
        g.in_bounds(x, y),
        g.sets_cell(once, x, y, alive),
        once.sets_cell(twice, x, y, alive),
    ensures
        twice@ == once@,
        twice.live_spec() == once.live_spec(),
{
    lemma_index_in_bounds(g.width_spec() as int, g.height_spec() as int, x, y);
    assert(once.cell(x, y) == alive);
    assert(twice@ =~= once@);
}

/// On a well-formed board, which every constructor and mutation of `Grid`
/// yields, the maintained live count is the number of live cells.
pub proof fn lemma_live_count_is_scan(g: &Grid)
    requires
        g.wf(),
    ensures
        g.live_spec() == count_true(g@),
{
}

/// The generation after a board with no live cell has no live cell either,
/// and a live count of zero.
pub proof fn lemma_empty_stays_empty(g: &Grid, next: &Grid)
    requires
        g.wf(),
        next.wf(),
        g.all_dead(),
        g.is_successor(next),
    ensures
        next.all_dead(),
        next.live_spec() == 0,
{
    let w = g.width_spec() as int;
    let h = g.height_spec() as int;
    assert forall|i: int| 0 <= i < next@.len() implies !#[trigger] next@[i] by {
        let x = i % w;
        let y = i / w;
        assert(w > 0) by (nonlinear_arith)
            requires
                0 <= i < w * h,
                h >= 0,
        ;
        assert(i == w * y + x && 0 <= x < w) by {
            vstd::arithmetic::div_mod::lemma_fundamental_div_mod(i, w);
        }
        assert(0 <= y < h) by (nonlinear_arith)
            requires
                i == w * y + x,
                0 <= x < w,
                0 <= i < w * h,
        ;
        assert forall|dx: int, dy: int| -1 <= dx <= 1 && -1 <= dy <= 1 implies #[trigger]
            g.clamped_neighbour(x, y, dx, dy) == 0 by {
            lemma_index_in_bounds(w, h, clamp_index(x + dx, w), clamp_index(y + dy, h));
        }
        assert(g.neighbour_count(x, y) == 0);
        assert(cell_index(w, x, y) == i) by (nonlinear_arith)
            requires
                i == w * y + x,
        ;
        assert(g.in_bounds(x, y));
        assert(!g.cell(x, y));
        assert(next.cell(x, y) == next_state(false, 0));
        assert(next@[i] == next.cell(x, y));
    }
    lemma_count_none(next@);
}

} // verus!
