//! Cutting the rows of one file into statements that respect the store's
//! ceiling on bound parameters.

use vstd::prelude::*;

verus! {

/// The most parameters that one statement may bind.
pub const BIND_LIMIT: usize = 32766;

/// The rows `start .. end` of a file, bound by one insert statement.
#[derive(Clone, Copy, Debug, PartialEq, Eq, Structural)]
pub struct Batch {
    pub start: usize,
    pub end: usize,
}

/// The most rows of `columns` values each that one statement may hold.
pub open spec fn rows_per_statement(columns: int) -> int {
    BIND_LIMIT as int / columns
}

/// How many statements `rows` rows of `columns` values each take.
pub open spec fn batch_count(rows: int, columns: int) -> int {
    (rows + rows_per_statement(columns) - 1) / rows_per_statement(columns)
}

/// The statement of index `i` among those that `rows` rows of `columns`
/// values each take: full statements first, the remainder last.
pub open spec fn batch_at(i: int, rows: int, columns: int) -> Batch {
    let chunk = rows_per_statement(columns);
    Batch {
        start: (i * chunk) as usize,
        end: (if i * chunk + chunk <= rows {
            i * chunk + chunk
        } else {
            rows
        }) as usize,
    }
}

/// The statements that `rows` rows of `columns` values each take, in order.
pub open spec fn batches_of(rows: int, columns: int) -> Seq<Batch> {
    Seq::new(batch_count(rows, columns) as nat, |i: int| batch_at(i, rows, columns))
}

impl Batch {
    /// How many rows the statement holds.
    pub open spec fn rows(self) -> int {
        self.end - self.start
    }

    /// How many rows the statement holds.
    pub fn len(&self) -> (n: usize)
        requires
            self.start <= self.end,
        ensures
            n == self.rows(),
    {
        self.end - self.start
    }
}

/// The most rows of `columns` values each that one statement may hold.
pub fn chunk_size(columns: usize) -> (chunk: usize)
    requires
        0 < columns <= BIND_LIMIT,
    ensures
        chunk == rows_per_statement(columns as int),
        1 <= chunk,
        chunk * columns <= BIND_LIMIT,
        (chunk + 1) * columns > BIND_LIMIT,
{
    let chunk = BIND_LIMIT / columns;
    proof {
        lemma_chunk_bounds(columns as int);
    }
    chunk
}

/// A full statement is within the ceiling, and one row more would pass it.
pub proof fn lemma_chunk_bounds(columns: int)
    requires
        0 < columns <= BIND_LIMIT,
    ensures
        1 <= rows_per_statement(columns),
        rows_per_statement(columns) * columns <= BIND_LIMIT,
        (rows_per_statement(columns) + 1) * columns > BIND_LIMIT,
{
    let limit = BIND_LIMIT as int;
    let q = limit / columns;
    assert(limit == columns * q + limit % columns) by {
        vstd::arithmetic::div_mod::lemma_fundamental_div_mod(limit, columns);
    }
    assert(0 <= limit % columns < columns) by {
        vstd::arithmetic::div_mod::lemma_mod_bound(limit, columns);
    }
    assert(q * columns == columns * q) by (nonlinear_arith);
    assert((q + 1) * columns == columns * q + columns) by (nonlinear_arith);
    assert(q >= 1) by (nonlinear_arith)
        requires
            limit == columns * q + limit % columns,
            limit % columns < columns,
            columns <= limit,
            columns > 0,
    ;
}

/// Cuts `rows` rows of `columns` values each into statements: as many full
/// ones as fit, then one for the remainder.
pub fn split_batches(rows: usize, columns: usize) -> (batches: Vec<Batch>)
    requires
        0 < columns <= BIND_LIMIT,
    ensures
        batches@ == batches_of(rows as int, columns as int),
        (batches.len() - 1) * rows_per_statement(columns as int) < rows <= batches.len()
            * rows_per_statement(columns as int),
        forall|i: int|
            0 <= i < batches.len() ==> (#[trigger] batches[i]).start == i * rows_per_statement(
                columns as int,
            ) && batches[i].end == if i + 1 < batches.len() {
                batches[i].start + rows_per_statement(columns as int)
            } else {
                rows as int
            },
        forall|i: int|
            0 <= i < batches.len() ==> 0 < (#[trigger] batches[i]).rows() <= rows_per_statement(
                columns as int,
            ) && batches[i].rows() * columns <= BIND_LIMIT,
{
    let chunk = chunk_size(columns);
    let mut batches: Vec<Batch> = Vec::new();
    let mut start: usize = 0;
    proof {
        lemma_batch_count(rows as int, columns as int, 0);
    }
    while start < rows
        invariant
            0 < columns <= BIND_LIMIT,
            chunk == rows_per_statement(columns as int),
            1 <= chunk,
            start <= rows,
            start < rows ==> start == batches.len() * chunk,
            start < rows ==> batches.len() < batch_count(rows as int, columns as int),
            start == rows ==> batches.len() == batch_count(rows as int, columns as int),
            forall|i: int|
                0 <= i < batches.len() ==> batches[i] == batch_at(i, rows as int, columns as int),
        decreases rows - start,
    {
        let ghost index = batches.len() as int;
        let end: usize = if rows - start > chunk {
            start + chunk
        } else {
            rows
        };
        proof {
            assert((index + 1) * chunk == index * chunk + chunk) by (nonlinear_arith);
            lemma_batch_count(rows as int, columns as int, index + 1);
        }
        batches.push(Batch { start, end });
        start = end;
    }
    proof {
        lemma_batch_count(rows as int, columns as int, batches.len() as int);
        if batches.len() > 0 {
            lemma_batch_count(rows as int, columns as int, batches.len() - 1);
        }
        assert(batches@ =~= batches_of(rows as int, columns as int));
        assert forall|i: int| 0 <= i < batches.len() implies 0 < (#[trigger] batches[i]).rows()
            <= rows_per_statement(columns as int) && batches[i].rows() * columns <= BIND_LIMIT
            && batches[i].start == i * rows_per_statement(columns as int) && batches[i].end == if i
            + 1 < batches.len() {
            batches[i].start + rows_per_statement(columns as int)
        } else {
            rows as int
        } by {
            lemma_batch_shape(i, rows as int, columns as int);
        }
    }
    batches
}

/// Whether `done` full statements leave rows over decides whether more
/// statements follow.
pub proof fn lemma_batch_count(rows: int, columns: int, done: int)
    requires
        0 < columns <= BIND_LIMIT,
        0 <= rows,
        0 <= done,
    ensures
        0 <= batch_count(rows, columns),
        done * rows_per_statement(columns) < rows ==> done < batch_count(rows, columns),
        done * rows_per_statement(columns) >= rows ==> done >= batch_count(rows, columns),
{
    lemma_chunk_bounds(columns);
    let chunk = rows_per_statement(columns);
    let n = batch_count(rows, columns);
    let top = rows + chunk - 1;
    assert(top == chunk * n + top % chunk) by {
        vstd::arithmetic::div_mod::lemma_fundamental_div_mod(top, chunk);
    }
    assert(0 <= top % chunk < chunk) by {
        vstd::arithmetic::div_mod::lemma_mod_bound(top, chunk);
    }
    assert(n >= 0) by (nonlinear_arith)
        requires
            rows + chunk - 1 == chunk * n + top % chunk,
            top % chunk < chunk,
            rows >= 0,
            chunk >= 1,
    ;
    if done * chunk < rows {
        assert(done < n) by (nonlinear_arith)
            requires
                done * chunk < rows,
                rows + chunk - 1 == chunk * n + top % chunk,
                top % chunk < chunk,
                chunk >= 1,
        ;
    } else {
        assert(done >= n) by (nonlinear_arith)
            requires
                done * chunk >= rows,
                rows + chunk - 1 == chunk * n + top % chunk,
                0 <= top % chunk,
                chunk >= 1,
        ;
    }
}

/// Every statement holds at least one row and at most a full statement's
/// rows, so it binds no more than the ceiling; each starts where the one
/// before it ends, the first at row 0 and the last ending at the last row.
pub proof fn lemma_batch_shape(i: int, rows: int, columns: int)
    requires
        0 < columns <= BIND_LIMIT,
        0 <= rows <= usize::MAX,
        0 <= i < batch_count(rows, columns),
    ensures
        batch_at(i, rows, columns).start == i * rows_per_statement(columns),
        0 < batch_at(i, rows, columns).rows() <= rows_per_statement(columns),
        batch_at(i, rows, columns).rows() * columns <= BIND_LIMIT,
        batch_at(i, rows, columns).end <= rows,
        i + 1 < batch_count(rows, columns) ==> batch_at(i, rows, columns).end == batch_at(
            i + 1,
            rows,
            columns,
        ).start && batch_at(i, rows, columns).rows() == rows_per_statement(columns),
        i + 1 == batch_count(rows, columns) ==> batch_at(i, rows, columns).end == rows,
{
    lemma_chunk_bounds(columns);
    let chunk = rows_per_statement(columns);
    lemma_batch_count(rows, columns, i);
    lemma_batch_count(rows, columns, i + 1);
    assert((i + 1) * chunk == i * chunk + chunk) by (nonlinear_arith);
    assert(i * chunk >= 0) by (nonlinear_arith)
        requires
            i >= 0,
            chunk >= 1,
    ;
    if i + 1 < batch_count(rows, columns) {
        lemma_batch_count(rows, columns, i + 2);
        assert((i + 2) * chunk == (i + 1) * chunk + chunk) by (nonlinear_arith);
    }
    let b = batch_at(i, rows, columns);
    assert(b.rows() * columns <= chunk * columns) by (nonlinear_arith)
        requires
            b.rows() <= chunk,
            columns > 0,
    ;
}

} // verus!
