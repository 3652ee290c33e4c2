//! The flat-file batch loader: from the bytes of one flat file to the
//! statements that one transaction runs against one table.
//!
//! A load is planned whole before the store is touched. A file with one
//! malformed line gives no plan, so nothing of it reaches the table; a file
//! without one gives every row exactly once, cut into statements that
//! respect the ceiling on bound parameters.

use crate::batch::{
    batches_of, lemma_batch_count, lemma_batch_shape, split_batches, Batch, BIND_LIMIT,
};
use crate::record::{
    cells_of, code_cells, text_value, texts_of, RecordKind, RowError, SqlCell, SqlValue,
};
use crate::types::{
    Amateur, Comment, Entity, Header, History, LicenseAttachment, SpecialCondition,
    SpecialConditionFreeForm,
};
use vstd::prelude::*;
use vstd::string::StringExecFns;

verus! {

/// The byte that parts the fields of a line.
pub const DELIMITER: u8 = 0x7c;

/// Why a file gives no plan.
#[derive(Clone, Copy, Debug, PartialEq, Eq, Structural)]
pub enum LoadError {
    /// The bytes are not a table of delimited lines: the reader of
    /// delimited text refused them.
    Unreadable,
    /// The line of index `row` is the first malformed one, for the reason
    /// `error`.
    Row { row: usize, error: RowError },
}

/// The statements of one load, to be run in one transaction: the emptying
/// of the table where `clear_first`, then one insert for each batch, which
/// binds the rows `start .. end` of `rows`.
#[derive(Debug, PartialEq, Eq)]
pub struct LoadPlan {
    kind: RecordKind,
    clear_first: bool,
    rows: Vec<Vec<SqlValue>>,
    batches: Vec<Batch>,
}

/// What a plan is: the model of `LoadPlan`.
pub struct PlanModel {
    pub kind: RecordKind,
    pub clear_first: bool,
    pub rows: Seq<Seq<SqlCell>>,
    pub batches: Seq<Batch>,
}

/// The rows of a table or of a plan, each as the values that it binds.
pub open spec fn rows_cells(rows: Seq<Vec<SqlValue>>) -> Seq<Seq<SqlCell>> {
    Seq::new(rows.len(), |i: int| cells_of(rows[i]@))
}

/// The lines of a file, each as the texts of its fields.
pub open spec fn lines_texts(lines: Seq<Vec<String>>) -> Seq<Seq<Seq<char>>> {
    Seq::new(lines.len(), |i: int| texts_of(lines[i]@))
}

impl View for LoadPlan {
    type V = PlanModel;

    closed spec fn view(&self) -> PlanModel {
        PlanModel {
            kind: self.kind,
            clear_first: self.clear_first,
            rows: rows_cells(self.rows@),
            batches: self.batches@,
        }
    }
}

impl LoadPlan {
    #[verifier::type_invariant]
    spec fn inv(self) -> bool {
        self@.wf()
    }

    /// The record type whose table the plan fills.
    pub fn kind(&self) -> (kind: RecordKind)
        ensures
            kind == self@.kind,
    {
        self.kind
    }

    /// Whether the table is emptied before the rows are inserted.
    pub fn clear_first(&self) -> (clear: bool)
        ensures
            clear == self@.clear_first,
    {
        self.clear_first
    }

    /// The rows of the file, in the order of its lines. Every row has a
    /// value for each column of the table.
    pub fn rows(&self) -> (rows: &Vec<Vec<SqlValue>>)
        ensures
            rows_cells(rows@) == self@.rows,
            self@.wf(),
    {
        proof {
            use_type_invariant(self);
        }
        &self.rows
    }

    /// The batches of the plan, one for each insert, in order. They cut the
    /// rows into consecutive runs, and none binds more parameters than the
    /// ceiling allows.
    pub fn batches(&self) -> (batches: &Vec<Batch>)
        ensures
            batches@ == self@.batches,
            self@.wf(),
            self@.within_limit(),
    {
        proof {
            use_type_invariant(self);
            assert(self@.rows.len() == self.rows.len());
            lemma_wf_within_limit(self@);
        }
        &self.batches
    }

    /// How many rows the first `done` inserts of the plan have written; it
    /// never falls as `done` grows, and ends at the number of rows.
    pub fn rows_done(&self, done: usize) -> (n: usize)
        requires
            done <= self@.batches.len(),
        ensures
            n == self@.progress(done as int),
            n <= self@.rows.len(),
    {
        proof {
            use_type_invariant(self);
            if done > 0 {
                lemma_batch_count(self.rows.len() as int, self.kind.columns(), 0);
                lemma_batch_shape(done - 1, self.rows.len() as int, self.kind.columns());
            }
        }
        if done == 0 {
            0
        } else {
            self.batches[done - 1].end
        }
    }
}

/// `csv::Error`, the reason why the reader of delimited text refuses a
/// file. It is carried through unopened.
#[verifier::external_type_specification]
#[verifier::external_body]
pub struct ExCsvError(csv::Error);

/// The lines that `csv::Reader::records` yields from `data`, each as the
/// texts of its fields, for a reader built by `csv::ReaderBuilder` with the
/// given settings for `has_headers`, `delimiter` and `quoting` and no other;
/// `None` where a line makes the reader fail.
pub uninterp spec fn delimited_lines(
    data: Seq<u8>,
    has_headers: bool,
    delimiter: u8,
    quoting: bool,
) -> Option<Seq<Seq<Seq<char>>>>;

/// Reads all lines of `data` with `csv::Reader::records`. The reader yields
/// the lines in order and stops at the first that it refuses; what it yields
/// depends on the bytes and the three settings alone.
#[verifier::external_body]
fn read_lines(data: &[u8], has_headers: bool, delimiter: u8, quoting: bool) -> (r: Result<
    Vec<Vec<String>>,
    csv::Error,
>)
    ensures
        r is Ok <==> delimited_lines(data@, has_headers, delimiter, quoting) is Some,
        r is Ok ==> delimited_lines(data@, has_headers, delimiter, quoting) == Some(
            lines_texts(r->Ok_0@),
        ),
{
    let mut builder = csv::ReaderBuilder::new();
    builder.has_headers(has_headers).delimiter(delimiter).quoting(quoting);
    let mut reader = builder.from_reader(data);
    let mut lines: Vec<Vec<String>> = Vec::new();
    for record in reader.records() {
        lines.push(record?.iter().map(String::from).collect());
    }
    Ok(lines)
}

impl RecordKind {
    /// The line of index `i` is the first malformed one.
    pub open spec fn first_malformed(self, lines: Seq<Seq<Seq<char>>>, i: int) -> bool {
        &&& 0 <= i < lines.len()
        &&& self.row(lines[i]) is Err
        &&& forall|j: int| 0 <= j < i ==> self.row(lines[j]) is Ok
    }

    /// The rows that the lines of a file map to, or the first malformed
    /// line with the reason.
    pub open spec fn rows(self, lines: Seq<Seq<Seq<char>>>) -> Result<Seq<Seq<SqlCell>>, LoadError> {
        if exists|i: int| self.first_malformed(lines, i) {
            let i = choose|i: int| self.first_malformed(lines, i);
            Err(LoadError::Row { row: i as usize, error: self.row(lines[i])->Err_0 })
        } else {
            Ok(Seq::new(lines.len(), |i: int| self.row(lines[i])->Ok_0))
        }
    }

    /// The plan for the lines of a file.
    pub open spec fn plan(self, lines: Seq<Seq<Seq<char>>>, clear_first: bool) -> Result<
        PlanModel,
        LoadError,
    > {
        match self.rows(lines) {
            Ok(rows) => Ok(
                PlanModel {
                    kind: self,
                    clear_first,
                    rows,
                    batches: batches_of(rows.len() as int, self.columns()),
                },
            ),
            Err(e) => Err(e),
        }
    }

    /// The plan for the bytes of a file, over what the reader of delimited
    /// text makes of them.
    pub open spec fn plan_of_file(self, lines: Option<Seq<Seq<Seq<char>>>>, clear_first: bool) -> Result<
        PlanModel,
        LoadError,
    > {
        match lines {
            Some(l) => self.plan(l, clear_first),
            None => Err(LoadError::Unreadable),
        }
    }
}

impl PlanModel {
    /// The plan has a row for each line, each with a value for each
    /// column, and its batches are those that the ceiling allows.
    pub open spec fn wf(self) -> bool {
        &&& self.batches == batches_of(self.rows.len() as int, self.kind.columns())
        &&& forall|i: int| 0 <= i < self.rows.len() ==> (#[trigger] self.rows[i]).len() == self.kind.columns()
    }

    /// How many parameters the insert of index `i` binds.
    pub open spec fn bound(self, i: int) -> int {
        self.batches[i].rows() * self.kind.columns()
    }

    /// Every insert binds at least one row and no more parameters than the
    /// ceiling allows.
    pub open spec fn within_limit(self) -> bool {
        forall|i: int| 0 <= i < self.batches.len() ==> 0 < #[trigger] self.bound(i) <= BIND_LIMIT
    }

    /// The table after the first `done` inserts of the plan have run on it.
    pub open spec fn inserted(self, table: Seq<Seq<SqlCell>>, done: int) -> Seq<Seq<SqlCell>>
        decreases done,
    {
        if done <= 0 {
            table
        } else {
            self.inserted(table, done - 1) + self.rows.subrange(
                self.batches[done - 1].start as int,
                self.batches[done - 1].end as int,
            )
        }
    }

    /// The table after the whole plan has run on it and was committed.
    pub open spec fn apply(self, table: Seq<Seq<SqlCell>>) -> Seq<Seq<SqlCell>> {
        self.inserted(
            if self.clear_first {
                Seq::empty()
            } else {
                table
            },
            self.batches.len() as int,
        )
    }

    /// How many rows the first `done` inserts of the plan have written.
    pub open spec fn progress(self, done: int) -> int {
        if done <= 0 {
            0
        } else {
            self.batches[done - 1].end as int
        }
    }
}

/// The table after a load: what the plan makes of it, or the table as it
/// was where the file gave no plan.
pub open spec fn table_after(table: Seq<Seq<SqlCell>>, outcome: Result<PlanModel, LoadError>) -> Seq<
    Seq<SqlCell>,
> {
    match outcome {
        Ok(plan) => plan.apply(table),
        Err(_) => table,
    }
}

/// The values that a line of the reference table of special condition codes
/// binds.
pub fn code_values(fields: &Vec<String>) -> (r: Result<Vec<SqlValue>, RowError>)
    ensures
        match r {
            Ok(v) => RecordKind::SpecialConditionCode.row(texts_of(fields@)) == Ok::<
                Seq<SqlCell>,
                RowError,
            >(cells_of(v@)),
            Err(e) => RecordKind::SpecialConditionCode.row(texts_of(fields@)) == Err::<
                Seq<SqlCell>,
                RowError,
            >(e),
        },
{
    if fields.len() != 8 {
        return Err(RowError::ColumnCount { found: fields.len() });
    }
    proof {
        reveal_strlit(" ");
        assert(" "@ =~= seq![' ']);
    }
    let mut description = fields[2].clone();
    description.append(" ");
    description.append(fields[3].as_str());
    description.append(" ");
    description.append(fields[4].as_str());
    description.append(" ");
    description.append(fields[5].as_str());
    description.append(" ");
    description.append(fields[6].as_str());
    let mut v: Vec<SqlValue> = Vec::new();
    v.push(text_value(&fields[0]));
    v.push(text_value(&fields[1]));
    v.push(SqlValue::Text(description));
    v.push(text_value(&fields[7]));
    proof {
        let texts = texts_of(fields@);
        assert(cells_of(v@) =~= code_cells(texts));
        assert forall|j: int| !RecordKind::SpecialConditionCode.first_unreadable(texts, j) by {}
    }
    Ok(v)
}

/// The values that one line binds: the line is read as a record of its
/// kind, field by field.
pub fn row_values(kind: RecordKind, fields: &Vec<String>) -> (r: Result<Vec<SqlValue>, RowError>)
    ensures
        match r {
            Ok(v) => kind.row(texts_of(fields@)) == Ok::<Seq<SqlCell>, RowError>(cells_of(v@)),
            Err(e) => kind.row(texts_of(fields@)) == Err::<Seq<SqlCell>, RowError>(e),
        },
{
    match kind {
        RecordKind::Amateur => match Amateur::from_fields(fields) {
            Ok(rec) => Ok(rec.values()),
            Err(e) => Err(e),
        },
        RecordKind::Comment => match Comment::from_fields(fields) {
            Ok(rec) => Ok(rec.values()),
            Err(e) => Err(e),
        },
        RecordKind::Entity => match Entity::from_fields(fields) {
            Ok(rec) => Ok(rec.values()),
            Err(e) => Err(e),
        },
        RecordKind::Header => match Header::from_fields(fields) {
            Ok(rec) => Ok(rec.values()),
            Err(e) => Err(e),
        },
        RecordKind::History => match History::from_fields(fields) {
            Ok(rec) => Ok(rec.values()),
            Err(e) => Err(e),
        },
        RecordKind::LicenseAttachment => match LicenseAttachment::from_fields(fields) {
            Ok(rec) => Ok(rec.values()),
            Err(e) => Err(e),
        },
        RecordKind::SpecialCondition => match SpecialCondition::from_fields(fields) {
            Ok(rec) => Ok(rec.values()),
            Err(e) => Err(e),
        },
        RecordKind::SpecialConditionFreeForm => match SpecialConditionFreeForm::from_fields(fields) {
            Ok(rec) => Ok(rec.values()),
            Err(e) => Err(e),
        },
        RecordKind::SpecialConditionCode => code_values(fields),
    }
}

/// A row that a line maps to has a value for each column of its kind.
pub proof fn lemma_row_width(kind: RecordKind, texts: Seq<Seq<char>>)
    requires
        kind.row(texts) is Ok,
    ensures
        kind.row(texts)->Ok_0.len() == kind.columns(),
{
}

/// Plans the load of the lines of one file into the table of `kind`.
///
/// Every line must map to a row; the first that does not is reported, and
/// then there is no plan. Otherwise the plan holds the rows in the order of
/// the lines, cut into batches of `floor(32766 / k)` rows for the `k`
/// columns of the kind, the remainder last, so that no insert binds more
/// than 32766 parameters.
pub fn plan_load(kind: RecordKind, lines: &Vec<Vec<String>>, clear_first: bool) -> (r: Result<
    LoadPlan,
    LoadError,
>)
    ensures
        planned(r) == kind.plan(lines_texts(lines@), clear_first),
        r is Ok ==> r->Ok_0@.wf() && r->Ok_0@.within_limit(),
{
    let ghost texts = lines_texts(lines@);
    let mut rows: Vec<Vec<SqlValue>> = Vec::new();
    let mut i: usize = 0;
    while i < lines.len()
        invariant
            i <= lines.len(),
            rows.len() == i,
            texts == lines_texts(lines@),
            forall|j: int|
                0 <= j < i ==> kind.row(texts[j]) == Ok::<Seq<SqlCell>, RowError>(
                    cells_of((#[trigger] rows[j])@),
                ),
        decreases lines.len() - i,
    {
        match row_values(kind, &lines[i]) {
            Ok(v) => {
                rows.push(v);
            },
            Err(e) => {
                proof {
                    assert(texts[i as int] == texts_of(lines[i as int]@));
                    assert forall|j: int| 0 <= j < i implies kind.row(texts[j]) is Ok by {
                        assert(kind.row(texts[j]) == Ok::<Seq<SqlCell>, RowError>(cells_of(rows[j]@)));
                    }
                    lemma_first_malformed(kind, texts, i as int);
                }
                return Err(LoadError::Row { row: i, error: e });
            },
        }
        i += 1;
    }
    let columns = kind.column_count();
    let batches = split_batches(rows.len(), columns);
    proof {
        assert forall|j: int| 0 <= j < texts.len() implies #[trigger] kind.row(texts[j]) == Ok::<
            Seq<SqlCell>,
            RowError,
        >(rows_cells(rows@)[j]) by {
            assert(kind.row(texts[j]) == Ok::<Seq<SqlCell>, RowError>(cells_of(rows[j]@)));
        }
        assert forall|j: int| !kind.first_malformed(texts, j) by {}
        assert(kind.rows(texts)->Ok_0 =~= rows_cells(rows@));
        lemma_plan_wf(kind, texts, clear_first);
    }
    Ok(LoadPlan { kind, clear_first, rows, batches })
}

/// The plan for the lines of a file is well formed and within the ceiling.
pub proof fn lemma_plan_wf(kind: RecordKind, lines: Seq<Seq<Seq<char>>>, clear_first: bool)
    requires
        kind.plan(lines, clear_first) is Ok,
        lines.len() <= usize::MAX,
    ensures
        kind.plan(lines, clear_first)->Ok_0.wf(),
        kind.plan(lines, clear_first)->Ok_0.within_limit(),
{
    let plan = kind.plan(lines, clear_first)->Ok_0;
    assert forall|j: int| 0 <= j < plan.rows.len() implies (#[trigger] plan.rows[j]).len()
        == kind.columns() by {
        assert forall|k: int| !kind.first_malformed(lines, k) by {}
        lemma_some_malformed(kind, lines, j);
        lemma_row_width(kind, lines[j]);
    }
    lemma_wf_within_limit(plan);
}

/// The inserts of a well-formed plan bind at least one row each and no
/// more parameters than the ceiling allows.
pub proof fn lemma_wf_within_limit(plan: PlanModel)
    requires
        plan.wf(),
        plan.rows.len() <= usize::MAX,
    ensures
        plan.within_limit(),
{
    assert forall|j: int| 0 <= j < plan.batches.len() implies 0 < #[trigger] plan.bound(j)
        <= BIND_LIMIT by {
        lemma_batch_count(plan.rows.len() as int, plan.kind.columns(), 0);
        lemma_batch_shape(j, plan.rows.len() as int, plan.kind.columns());
        assert(plan.bound(j) > 0) by (nonlinear_arith)
            requires
                plan.bound(j) == plan.batches[j].rows() * plan.kind.columns(),
                plan.batches[j].rows() > 0,
                plan.kind.columns() > 0,
        ;
    }
}

/// Where a line is malformed, some line is the first malformed one.
pub proof fn lemma_some_malformed(kind: RecordKind, lines: Seq<Seq<Seq<char>>>, i: int)
    requires
        0 <= i < lines.len(),
    ensures
        kind.row(lines[i]) is Err ==> exists|k: int| kind.first_malformed(lines, k),
    decreases i,
{
    if kind.row(lines[i]) is Err {
        if exists|j: int| 0 <= j < i && kind.row(lines[j]) is Err {
            let j = choose|j: int| 0 <= j < i && kind.row(lines[j]) is Err;
            lemma_some_malformed(kind, lines, j);
        } else {
            assert(kind.first_malformed(lines, i));
        }
    }
}

/// The first malformed line is the one that the result names.
pub proof fn lemma_first_malformed(kind: RecordKind, lines: Seq<Seq<Seq<char>>>, i: int)
    requires
        kind.first_malformed(lines, i),
    ensures
        kind.rows(lines) == Err::<Seq<Seq<SqlCell>>, LoadError>(
            LoadError::Row { row: i as usize, error: kind.row(lines[i])->Err_0 },
        ),
{
    let k = choose|k: int| kind.first_malformed(lines, k);
    assert(kind.first_malformed(lines, k));
    if k < i {
        assert(kind.row(lines[k]) is Ok);
    } else if i < k {
        assert(kind.row(lines[i]) is Ok);
    }
}

/// The plan for the bytes of a flat file of `kind`, read without a header
/// line, with `|` between the fields and quotes taken literally unless
/// `quoting`.
pub open spec fn file_plan(kind: RecordKind, data: Seq<u8>, quoting: bool, clear_first: bool) -> Result<
    PlanModel,
    LoadError,
> {
    kind.plan_of_file(delimited_lines(data, false, DELIMITER, quoting), clear_first)
}

/// The outcome of a load, with the plan as its model.
pub open spec fn planned(r: Result<LoadPlan, LoadError>) -> Result<PlanModel, LoadError> {
    match r {
        Ok(plan) => Ok(plan@),
        Err(e) => Err(e),
    }
}

/// Plans the load of one flat file: reads its lines, then plans them.
fn load_file(kind: RecordKind, data: &[u8], quoting: bool, clear_first: bool) -> (r: Result<
    LoadPlan,
    LoadError,
>)
    ensures
        planned(r) == file_plan(kind, data@, quoting, clear_first),
        r is Ok ==> r->Ok_0@.wf() && r->Ok_0@.within_limit(),
{
    match read_lines(data, false, DELIMITER, quoting) {
        Ok(lines) => plan_load(kind, &lines, clear_first),
        Err(_) => Err(LoadError::Unreadable),
    }
}

/// Plans the load of `AM.dat` into `amateurs`.
pub fn load_amateurs(data: &[u8], clear_first: bool) -> (r: Result<LoadPlan, LoadError>)
    ensures
        planned(r) == file_plan(RecordKind::Amateur, data@, false, clear_first),
        r is Ok ==> r->Ok_0@.wf() && r->Ok_0@.within_limit(),
{
    load_file(RecordKind::Amateur, data, false, clear_first)
}

/// Plans the load of `CO.dat` into `comments`. The file carries line breaks
/// inside its description field: it must have been freed of them before.
pub fn load_comments(data: &[u8], clear_first: bool) -> (r: Result<LoadPlan, LoadError>)
    ensures
        planned(r) == file_plan(RecordKind::Comment, data@, false, clear_first),
        r is Ok ==> r->Ok_0@.wf() && r->Ok_0@.within_limit(),
{
    load_file(RecordKind::Comment, data, false, clear_first)
}

/// Plans the load of `EN.dat` into `entities`.
pub fn load_entities(data: &[u8], clear_first: bool) -> (r: Result<LoadPlan, LoadError>)
    ensures
        planned(r) == file_plan(RecordKind::Entity, data@, false, clear_first),
        r is Ok ==> r->Ok_0@.wf() && r->Ok_0@.within_limit(),
{
    load_file(RecordKind::Entity, data, false, clear_first)
}

/// Plans the load of `HD.dat` into `headers`.
pub fn load_headers(data: &[u8], clear_first: bool) -> (r: Result<LoadPlan, LoadError>)
    ensures
        planned(r) == file_plan(RecordKind::Header, data@, false, clear_first),
        r is Ok ==> r->Ok_0@.wf() && r->Ok_0@.within_limit(),
{
    load_file(RecordKind::Header, data, false, clear_first)
}

/// Plans the load of `HS.dat` into `history`.
pub fn load_history(data: &[u8], clear_first: bool) -> (r: Result<LoadPlan, LoadError>)
    ensures
        planned(r) == file_plan(RecordKind::History, data@, false, clear_first),
        r is Ok ==> r->Ok_0@.wf() && r->Ok_0@.within_limit(),
{
    load_file(RecordKind::History, data, false, clear_first)
}

/// Plans the load of `LA.dat` into `license_attachments`.
pub fn load_license_attachments(data: &[u8], clear_first: bool) -> (r: Result<LoadPlan, LoadError>)
    ensures
        planned(r) == file_plan(RecordKind::LicenseAttachment, data@, false, clear_first),
        r is Ok ==> r->Ok_0@.wf() && r->Ok_0@.within_limit(),
{
    load_file(RecordKind::LicenseAttachment, data, false, clear_first)
}

/// Plans the load of `SC.dat` into `special_conditions`.
pub fn load_special_conditions(data: &[u8], clear_first: bool) -> (r: Result<LoadPlan, LoadError>)
    ensures
        planned(r) == file_plan(RecordKind::SpecialCondition, data@, false, clear_first),
        r is Ok ==> r->Ok_0@.wf() && r->Ok_0@.within_limit(),
{
    load_file(RecordKind::SpecialCondition, data, false, clear_first)
}

/// Plans the load of `SF.dat` into `special_conditions_free_form`.
pub fn load_special_conditions_free_form(data: &[u8], clear_first: bool) -> (r: Result<
    LoadPlan,
    LoadError,
>)
    ensures
        planned(r) == file_plan(RecordKind::SpecialConditionFreeForm, data@, false, clear_first),
        r is Ok ==> r->Ok_0@.wf() && r->Ok_0@.within_limit(),
{
    load_file(RecordKind::SpecialConditionFreeForm, data, false, clear_first)
}

/// Plans the load of `special_condition_codes.txt` into
/// `special_condition_codes`. This file alone quotes its fields; it must
/// have been freed of its embedded line breaks before.
pub fn load_special_condition_codes(data: &[u8], clear_first: bool) -> (r: Result<
    LoadPlan,
    LoadError,
>)
    ensures
        planned(r) == file_plan(RecordKind::SpecialConditionCode, data@, true, clear_first),
        r is Ok ==> r->Ok_0@.wf() && r->Ok_0@.within_limit(),
{
    load_file(RecordKind::SpecialConditionCode, data, true, clear_first)
}

/// The first `done` inserts of a plan write the rows of the file up to
/// where the last of them ends, in the order of the lines, each row once.
pub proof fn lemma_inserted(plan: PlanModel, table: Seq<Seq<SqlCell>>, done: int)
    requires
        plan.wf(),
        plan.rows.len() <= usize::MAX,
        0 <= done <= plan.batches.len(),
    ensures
        0 <= plan.progress(done) <= plan.rows.len(),
        plan.inserted(table, done) == table + plan.rows.subrange(0, plan.progress(done)),
        done == plan.batches.len() ==> plan.progress(done) == plan.rows.len(),
    decreases done,
{
    let rows = plan.rows.len() as int;
    let columns = plan.kind.columns();
    lemma_batch_count(rows, columns, 0);
    if done == 0 {
        assert(plan.inserted(table, done) =~= table + plan.rows.subrange(0, 0));
    } else {
        lemma_inserted(plan, table, done - 1);
        lemma_batch_shape(done - 1, rows, columns);
        if done > 1 {
            lemma_batch_shape(done - 2, rows, columns);
        }
        let batch = plan.batches[done - 1];
        assert(batch.start == plan.progress(done - 1));
        assert(plan.inserted(table, done) =~= table + plan.rows.subrange(0, plan.progress(done)));
    }
}

/// The counter of rows rises with every insert and ends at the number of
/// rows.
pub proof fn lemma_progress_rises(plan: PlanModel, done: int)
    requires
        plan.wf(),
        plan.rows.len() <= usize::MAX,
        0 <= done < plan.batches.len(),
    ensures
        0 <= plan.progress(done) < plan.progress(done + 1) <= plan.rows.len(),
        plan.progress(plan.batches.len() as int) == plan.rows.len(),
{
    lemma_inserted(plan, Seq::empty(), plan.batches.len() as int);
    lemma_inserted(plan, Seq::empty(), done);
    lemma_inserted(plan, Seq::empty(), done + 1);
    lemma_batch_count(plan.rows.len() as int, plan.kind.columns(), 0);
    lemma_batch_shape(done, plan.rows.len() as int, plan.kind.columns());
    if done > 0 {
        lemma_batch_shape(done - 1, plan.rows.len() as int, plan.kind.columns());
    }
}

/// A committed load leaves the rows of the file in the table, after what
/// was there before, or alone where the table was emptied first.
pub proof fn lemma_apply(plan: PlanModel, table: Seq<Seq<SqlCell>>)
    requires
        plan.wf(),
        plan.rows.len() <= usize::MAX,
    ensures
        plan.apply(table) == if plan.clear_first {
            plan.rows
        } else {
            table + plan.rows
        },
{
    let base = if plan.clear_first {
        Seq::<Seq<SqlCell>>::empty()
    } else {
        table
    };
    lemma_inserted(plan, base, plan.batches.len() as int);
    assert(plan.rows.subrange(0, plan.rows.len() as int) =~= plan.rows);
    assert(Seq::<Seq<SqlCell>>::empty() + plan.rows =~= plan.rows);
}

/// A full reload is idempotent: loading the same lines twice, the table
/// emptied first each time, leaves the table as loading them once does.
pub proof fn lemma_full_reload_idempotent(
    kind: RecordKind,
    lines: Seq<Seq<Seq<char>>>,
    table: Seq<Seq<SqlCell>>,
)
    requires
        lines.len() <= usize::MAX,
    ensures
        table_after(table_after(table, kind.plan(lines, true)), kind.plan(lines, true))
            == table_after(table, kind.plan(lines, true)),
{
    let outcome = kind.plan(lines, true);
    if outcome is Ok {
        lemma_plan_wf(kind, lines, true);
        lemma_apply(outcome->Ok_0, table);
        lemma_apply(outcome->Ok_0, outcome->Ok_0.apply(table));
    }
}

/// A load is atomic: a file with a malformed line, wherever in the file it
/// stands, leaves the table as it was.
pub proof fn lemma_malformed_file_changes_nothing(
    kind: RecordKind,
    lines: Seq<Seq<Seq<char>>>,
    clear_first: bool,
    table: Seq<Seq<SqlCell>>,
    i: int,
)
    requires
        0 <= i < lines.len(),
        kind.row(lines[i]) is Err,
    ensures
        kind.plan(lines, clear_first) is Err,
        table_after(table, kind.plan(lines, clear_first)) == table,
{
    lemma_some_malformed(kind, lines, i);
}

/// One table's share of a payload: the record type to load, and whether
/// its table is emptied first.
#[derive(Clone, Copy, Debug, PartialEq, Eq, Structural)]
pub struct TableLoad {
    pub kind: RecordKind,
    pub clear_first: bool,
}

/// The record types of a dump, in the order in which they are loaded.
pub open spec fn dump_kinds() -> Seq<RecordKind> {
    seq![
        RecordKind::Amateur,
        RecordKind::Comment,
        RecordKind::Entity,
        RecordKind::Header,
        RecordKind::History,
        RecordKind::LicenseAttachment,
        RecordKind::SpecialCondition,
        RecordKind::SpecialConditionFreeForm,
    ]
}

/// The loads of a weekly payload: every record type of the dump and then
/// the reference table, each table emptied first.
pub open spec fn weekly_loads() -> Seq<TableLoad> {
    Seq::new(
        9,
        |i: int|
            TableLoad {
                kind: if i < 8 {
                    dump_kinds()[i]
                } else {
                    RecordKind::SpecialConditionCode
                },
                clear_first: true,
            },
    )
}

/// The loads of a daily payload: every record type of the dump, appended
/// to its table.
pub open spec fn daily_loads() -> Seq<TableLoad> {
    Seq::new(8, |i: int| TableLoad { kind: dump_kinds()[i], clear_first: false })
}

/// The record types of a dump, in the order in which they are loaded.
fn kinds_of_dump() -> (kinds: Vec<RecordKind>)
    ensures
        kinds@ == dump_kinds(),
{
    let mut kinds: Vec<RecordKind> = Vec::new();
    kinds.push(RecordKind::Amateur);
    kinds.push(RecordKind::Comment);
    kinds.push(RecordKind::Entity);
    kinds.push(RecordKind::Header);
    kinds.push(RecordKind::History);
    kinds.push(RecordKind::LicenseAttachment);
    kinds.push(RecordKind::SpecialCondition);
    kinds.push(RecordKind::SpecialConditionFreeForm);
    assert(kinds@ =~= dump_kinds());
    kinds
}

/// The loads of a weekly payload, in order: a full reload of every table.
pub fn load_weekly() -> (loads: Vec<TableLoad>)
    ensures
        loads@ == weekly_loads(),
{
    let kinds = kinds_of_dump();
    let mut loads: Vec<TableLoad> = Vec::new();
    let mut i: usize = 0;
    while i < kinds.len()
        invariant
            i <= kinds.len(),
            kinds@ == dump_kinds(),
            loads.len() == i,
            forall|j: int| 0 <= j < i ==> loads[j] == weekly_loads()[j],
        decreases kinds.len() - i,
    {
        loads.push(TableLoad { kind: kinds[i], clear_first: true });
        i += 1;
    }
    loads.push(TableLoad { kind: RecordKind::SpecialConditionCode, clear_first: true });
    assert(loads@ =~= weekly_loads());
    loads
}

/// The loads of a daily payload, in order: an append to every table of the
/// dump.
pub fn load_daily() -> (loads: Vec<TableLoad>)
    ensures
        loads@ == daily_loads(),
{
    let kinds = kinds_of_dump();
    let mut loads: Vec<TableLoad> = Vec::new();
    let mut i: usize = 0;
    while i < kinds.len()
        invariant
            i <= kinds.len(),
            kinds@ == dump_kinds(),
            loads.len() == i,
            forall|j: int| 0 <= j < i ==> loads[j] == daily_loads()[j],
        decreases kinds.len() - i,
    {
        loads.push(TableLoad { kind: kinds[i], clear_first: false });
        i += 1;
    }
    assert(loads@ =~= daily_loads());
    loads
}

} // verus!
