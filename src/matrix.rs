use vstd::prelude::*;

verus! {

/// A dense `row × col` matrix, stored row by row. The element type is left
/// open: the shape bookkeeping lives here, the arithmetic with the caller.
pub struct Matrix<T> {
    data: Vec<Vec<T>>,
    row: usize,
    col: usize,
}

/// The entries of a list of rows.
pub open spec fn rows_of<T>(data: Seq<Vec<T>>) -> Seq<Seq<T>> {
    data.map_values(|r: Vec<T>| r@)
}

/// Every row has `col` entries.
pub open spec fn rectangular<T>(m: Seq<Seq<T>>, col: nat) -> bool {
    forall|i: int| 0 <= i < m.len() ==> #[trigger] m[i].len() == col
}

impl<T> View for Matrix<T> {
    type V = Seq<Seq<T>>;

    closed spec fn view(&self) -> Seq<Seq<T>> {
        rows_of(self.data@)
    }
}

impl<T: Copy> Matrix<T> {
    /// The number of rows.
    pub closed spec fn nrows(&self) -> nat {
        self.row as nat
    }

    /// The number of columns.
    pub closed spec fn ncols(&self) -> nat {
        self.col as nat
    }

    /// The entries have the recorded shape.
    pub open spec fn wf(&self) -> bool {
        &&& self@.len() == self.nrows()
        &&& rectangular(self@, self.ncols())
    }

    /// A `row × col` matrix with every entry `zero`, the zero of the
    /// caller's arithmetic.
    pub fn zeroes(row: usize, col: usize, zero: T) -> (r: Self)
        ensures
            r.wf(),
            r.nrows() == row,
            r.ncols() == col,
            forall|i: int, j: int| 0 <= i < row && 0 <= j < col ==> #[trigger] r@[i][j] == zero,
    {
        let mut data: Vec<Vec<T>> = Vec::new();
        let mut x: usize = 0;
        while x < row
            invariant
                x <= row,
                data@.len() == x,
                forall|i: int| 0 <= i < x ==> #[trigger] data@[i]@.len() == col,
                forall|i: int, j: int|
                    0 <= i < x && 0 <= j < col ==> #[trigger] data@[i]@[j] == zero,
            decreases row - x,
        {
            let mut line: Vec<T> = Vec::new();
            let mut y: usize = 0;
            while y < col
                invariant
                    y <= col,
                    line@.len() == y,
                    forall|j: int| 0 <= j < y ==> #[trigger] line@[j] == zero,
                decreases col - y,
            {
                line.push(zero);
                y = y + 1;
            }
            data.push(line);
            x = x + 1;
        }
        Matrix { data, row, col }
    }

    /// The `size × size` identity, with `zero` off and `one` on the diagonal.
    pub fn id(size: usize, zero: T, one: T) -> (r: Self)
        ensures
            r.wf(),
            r.nrows() == size,
            r.ncols() == size,
            forall|i: int, j: int|
                0 <= i < size && 0 <= j < size ==> #[trigger] r@[i][j] == if i == j {
                    one
                } else {
                    zero
                },
    {
        let mut res = Matrix::zeroes(size, size, zero);
        let mut i: usize = 0;
        while i < size
            invariant
                i <= size,
                res.wf(),
                res.nrows() == size,
                res.ncols() == size,
                forall|x: int, y: int|
                    0 <= x < size && 0 <= y < size ==> #[trigger] res@[x][y] == if x == y && x
                        < i {
                        one
                    } else {
                        zero
                    },
            decreases size - i,
        {
            res.set(i, i, one);
            i = i + 1;
        }
        res
    }

    /// The matrix whose rows are `data`, which must have at least one row,
    /// all of the same length.
    pub fn from(data: Vec<Vec<T>>) -> (r: Self)
        requires
            data@.len() > 0,
            rectangular(rows_of(data@), data@[0]@.len()),
        ensures
            r.wf(),
            r@ == rows_of(data@),
            r.nrows() == data@.len(),
            r.ncols() == data@[0]@.len(),
    {
        let row = data.len();
        let col = data[0].len();
        Matrix { data, row, col }
    }

    pub fn rows(&self) -> (r: usize)
        ensures
            r == self.nrows(),
    {
        self.row
    }

    pub fn cols(&self) -> (r: usize)
        ensures
            r == self.ncols(),
    {
        self.col
    }

    /// The entry in row `x`, column `y`.
    pub fn get(&self, x: usize, y: usize) -> (r: T)
        requires
            self.wf(),
            x < self.nrows(),
            y < self.ncols(),
        ensures
            r == self@[x as int][y as int],
    {
        proof {
            assert(self@[x as int] == self.data@[x as int]@);
        }
        self.data[x][y]
    }

    /// Replaces the entry in row `x`, column `y`.
    pub fn set(&mut self, x: usize, y: usize, value: T)
        requires
            old(self).wf(),
            x < old(self).nrows(),
            y < old(self).ncols(),
        ensures
            final(self).wf(),
            final(self).nrows() == old(self).nrows(),
            final(self).ncols() == old(self).ncols(),
            final(self)@ == old(self)@.update(x as int, old(self)@[x as int].update(y as int, value)),
    {
        proof {
            assert(self@[x as int] == self.data@[x as int]@);
        }
        self.data[x].set(y, value);
        assert(self@ =~= old(self)@.update(x as int, old(self)@[x as int].update(y as int, value)));
    }

    /// Exchanges rows `i` and `k`.
    pub fn swap_rows(&mut self, i: usize, k: usize)
        requires
            old(self).wf(),
            i < old(self).nrows(),
            k < old(self).nrows(),
        ensures
            final(self).wf(),
            final(self).nrows() == old(self).nrows(),
            final(self).ncols() == old(self).ncols(),
            final(self)@ == old(self)@.update(i as int, old(self)@[k as int]).update(
                k as int,
                old(self)@[i as int],
            ),
    {
        if i != k {
            let mut line: Vec<T> = Vec::new();
            std::mem::swap(&mut line, &mut self.data[i]);
            std::mem::swap(&mut line, &mut self.data[k]);
            std::mem::swap(&mut line, &mut self.data[i]);
        }
        assert(self@ =~= old(self)@.update(i as int, old(self)@[k as int]).update(
            k as int,
            old(self)@[i as int],
        ));
    }

    /// The transpose: a `col × row` matrix with entry `(y, x)` equal to
    /// entry `(x, y)` of this one.
    pub fn transpose(&self) -> (r: Self)
        requires
            self.wf(),
        ensures
            r.wf(),
            r.nrows() == self.ncols(),
            r.ncols() == self.nrows(),
            forall|x: int, y: int|
                0 <= x < self.nrows() && 0 <= y < self.ncols() ==> #[trigger] r@[y][x]
                    == self@[x][y],
    {
        let mut data: Vec<Vec<T>> = Vec::new();
        let mut y: usize = 0;
        while y < self.col
            invariant
                self.wf(),
                y <= self.ncols(),
                data@.len() == y,
                forall|j: int| 0 <= j < y ==> #[trigger] data@[j]@.len() == self.nrows(),
                forall|j: int, x: int|
                    0 <= j < y && 0 <= x < self.nrows() ==> #[trigger] data@[j]@[x]
                        == self@[x][j],
            decreases self.ncols() - y,
        {
            let mut line: Vec<T> = Vec::new();
            let mut x: usize = 0;
            while x < self.row
                invariant
                    self.wf(),
                    y < self.ncols(),
                    x <= self.nrows(),
                    line@.len() == x,
                    forall|i: int| 0 <= i < x ==> #[trigger] line@[i] == self@[i][y as int],
                decreases self.nrows() - x,
            {
                line.push(self.get(x, y));
                x = x + 1;
            }
            data.push(line);
            y = y + 1;
        }
        let r = Matrix { data, row: self.col, col: self.row };
        assert(r@.len() == r.nrows());
        r
    }
}

} // verus!
