//! The population table: its column storage, a borrowed read-only view of
//! that storage, the owned table that writes to it, and row iteration.
use vstd::prelude::*;

use crate::error::{MetadataError, PopulationId, SizeType, TskitError, TABLE_OVERFLOW};
use crate::flags::TableClearOptions;
use crate::metadata::MetadataRoundtrip;

verus! {

/// What a table holds: for each row, in id order, its metadata bytes if any
/// were stored.
pub type RowsModel = Seq<Option<Seq<u8>>>;

/// A row seen as its id and its metadata bytes.
pub type RowModel = (int, Option<Seq<u8>>);

/// The largest number of rows: ids are `i32`.
pub const MAX_ROWS: u64 = 2147483647;

pub open spec fn bytes_view(m: Option<Vec<u8>>) -> Option<Seq<u8>> {
    match m {
        Some(v) => Some(v@),
        None => None,
    }
}

/// Row `id` of `rows`, present exactly when `0 <= id < rows.len()`.
pub open spec fn spec_row(rows: RowsModel, id: int) -> Option<RowModel> {
    if 0 <= id < rows.len() {
        Some((id, rows[id]))
    } else {
        None
    }
}

/// What `metadata` finds at row `id`: nothing where the row is absent or
/// holds no metadata, else what the codec makes of the bytes.
pub open spec fn spec_metadata<T: MetadataRoundtrip>(rows: RowsModel, id: int) -> Option<
    Option<T>,
> {
    if 0 <= id < rows.len() {
        match rows[id] {
            Some(bytes) => Some(T::decoded(bytes)),
            None => None,
        }
    } else {
        None
    }
}

/// Row of a population table.
#[derive(Debug)]
pub struct PopulationTableRow {
    pub id: PopulationId,
    pub metadata: Option<Vec<u8>>,
}

impl View for PopulationTableRow {
    type V = RowModel;

    open spec fn view(&self) -> RowModel {
        (self.id.0 as int, bytes_view(self.metadata))
    }
}

pub open spec fn opt_row_view(r: Option<PopulationTableRow>) -> Option<RowModel> {
    match r {
        Some(row) => Some(row@),
        None => None,
    }
}

fn bytes_equal(a: &Vec<u8>, b: &Vec<u8>) -> (r: bool)
    ensures
        r == (a@ == b@),
{
    if a.len() != b.len() {
        return false;
    }
    let mut i: usize = 0;
    while i < a.len()
        invariant
            a.len() == b.len(),
            0 <= i <= a.len(),
            a@.subrange(0, i as int) == b@.subrange(0, i as int),
        decreases a.len() - i,
    {
        if a[i] != b[i] {
            return false;
        }
        assert(a@.subrange(0, i + 1) == a@.subrange(0, i as int).push(a[i as int]));
        assert(b@.subrange(0, i + 1) == b@.subrange(0, i as int).push(b[i as int]));
        i = i + 1;
    }
    assert(a@ == a@.subrange(0, a.len() as int));
    assert(b@ == b@.subrange(0, b.len() as int));
    true
}

impl PartialEq for PopulationTableRow {
    fn eq(&self, other: &Self) -> (r: bool) {
        if self.id != other.id {
            return false;
        }
        match (&self.metadata, &other.metadata) {
            (Some(a), Some(b)) => bytes_equal(a, b),
            (None, None) => true,
            _ => false,
        }
    }
}

impl vstd::std_specs::cmp::PartialEqSpecImpl for PopulationTableRow {
    open spec fn obeys_eq_spec() -> bool {
        true
    }

    open spec fn eq_spec(&self, other: &PopulationTableRow) -> bool {
        self@ == other@
    }
}

impl Eq for PopulationTableRow {}

fn copy_bytes(m: &Option<Vec<u8>>) -> (r: Option<Vec<u8>>)
    ensures
        bytes_view(r) == bytes_view(*m),
{
    match m {
        Some(v) => {
            let c = v.clone();
            assert(c@ =~= v@);
            Some(c)
        },
        None => None,
    }
}

/// Column storage of a population table.
pub struct PopulationColumns {
    metadata: Vec<Option<Vec<u8>>>,
    metadata_schema: Vec<u8>,
}

impl View for PopulationColumns {
    type V = RowsModel;

    closed spec fn view(&self) -> RowsModel {
        self.metadata@.map_values(|m: Option<Vec<u8>>| bytes_view(m))
    }
}

impl PopulationColumns {
    #[verifier::type_invariant]
    spec fn inv(&self) -> bool {
        self.metadata.len() <= MAX_ROWS
    }

    /// Storage with no row.
    pub(crate) fn new() -> (r: Self)
        ensures
            r@ == Seq::<Option<Seq<u8>>>::empty(),
            r.schema() == Seq::<u8>::empty(),
    {
        let r = PopulationColumns { metadata: Vec::new(), metadata_schema: Vec::new() };
        assert(r@ =~= Seq::<Option<Seq<u8>>>::empty());
        r
    }

    pub fn num_rows(&self) -> (r: u64)
        ensures
            r == self@.len(),
            r <= MAX_ROWS,
    {
        proof {
            use_type_invariant(self);
        }
        self.metadata.len() as u64
    }

    /// The metadata schema, as bytes.
    pub closed spec fn schema(&self) -> Seq<u8> {
        self.metadata_schema@
    }

    /// The metadata bytes of row `i`, borrowed.
    fn metadata_of(&self, i: usize) -> (r: &Option<Vec<u8>>)
        requires
            i < self@.len(),
        ensures
            bytes_view(*r) == self@[i as int],
    {
        &self.metadata[i]
    }

    /// The metadata bytes of row `i`.
    fn row_metadata(&self, i: usize) -> (r: Option<Vec<u8>>)
        requires
            i < self@.len(),
        ensures
            bytes_view(r) == self@[i as int],
    {
        copy_bytes(&self.metadata[i])
    }

    /// Append a row with `metadata`, unless the storage is full.
    fn push(&mut self, metadata: Option<Vec<u8>>) -> (r: Result<u64, i32>)
        ensures
            final(self).schema() == old(self).schema(),
            old(self)@.len() < MAX_ROWS ==> r == Ok::<u64, i32>(old(self)@.len() as u64)
                && final(self)@ == old(self)@.push(bytes_view(metadata)),
            old(self)@.len() >= MAX_ROWS ==> r == Err::<u64, i32>(TABLE_OVERFLOW)
                && final(self)@ == old(self)@,
    {
        proof {
            use_type_invariant(&*self);
        }
        let n = self.metadata.len();
        if n as u64 >= MAX_ROWS {
            return Err(TABLE_OVERFLOW);
        }
        let mut rows: Vec<Option<Vec<u8>>> = Vec::new();
        std::mem::swap(&mut self.metadata, &mut rows);
        rows.push(metadata);
        std::mem::swap(&mut self.metadata, &mut rows);
        assert(self@ =~= old(self)@.push(bytes_view(metadata)));
        Ok(n as u64)
    }

    /// Remove every row; the schema stays.
    fn clear_rows(&mut self)
        ensures
            final(self)@ == Seq::<Option<Seq<u8>>>::empty(),
            final(self).schema() == old(self).schema(),
    {
        let mut rows: Vec<Option<Vec<u8>>> = Vec::new();
        std::mem::swap(&mut self.metadata, &mut rows);
        assert(self@ =~= Seq::<Option<Seq<u8>>>::empty());
    }

    fn set_schema(&mut self, schema: Vec<u8>)
        ensures
            final(self)@ == old(self)@,
            final(self).schema() == schema@,
    {
        proof {
            use_type_invariant(&*self);
        }
        self.metadata_schema = schema;
    }

    fn copy_schema(&self) -> (r: Vec<u8>)
        ensures
            r@ == self.schema(),
    {
        let r = self.metadata_schema.clone();
        assert(r@ =~= self.metadata_schema@);
        r
    }
}

/// Row `pos` of `table`, or nothing where `pos` is not a row id.
fn make_population_table_row(table: &PopulationTable, pos: i32) -> (r: Option<PopulationTableRow>)
    ensures
        opt_row_view(r) == spec_row(table@, pos as int),
{
    if pos < 0 {
        return None;
    }
    if (pos as u64) < table.num_rows().0 {
        let metadata = table.table_.row_metadata(pos as usize);
        Some(PopulationTableRow { id: PopulationId(pos), metadata })
    } else {
        None
    }
}

/// A read-only view of population columns that something else owns.
#[derive(Clone, Copy)]
pub struct PopulationTable<'a> {
    table_: &'a PopulationColumns,
}

impl<'a> View for PopulationTable<'a> {
    type V = RowsModel;

    closed spec fn view(&self) -> RowsModel {
        self.table_@
    }
}

impl<'a> PopulationTable<'a> {
    pub closed spec fn columns(&self) -> &'a PopulationColumns {
        self.table_
    }

    pub(crate) fn new_from_table(columns: &'a PopulationColumns) -> (r: Self)
        ensures
            r.columns() == columns,
    {
        PopulationTable { table_: columns }
    }

    /// The number of rows.
    pub fn num_rows(&self) -> (r: SizeType)
        ensures
            r.0 == self@.len(),
            r.0 <= MAX_ROWS,
    {
        SizeType(self.table_.num_rows())
    }

    /// The metadata of row `row`, decoded as a `T`: nothing where the row is
    /// absent or holds no metadata, an error where the bytes do not decode.
    pub fn metadata<T: MetadataRoundtrip>(&self, row: PopulationId) -> (r: Option<
        Result<T, TskitError>,
    >)
        ensures
            match spec_metadata::<T>(self@, row.0 as int) {
                None => r is None,
                Some(Some(v)) => r matches Some(Ok(w)) && w == v,
                Some(None) => r matches Some(Err(TskitError::MetadataError { .. })),
            },
    {
        if row.0 < 0 || row.0 as u64 >= self.table_.num_rows() {
            return None;
        }
        match self.table_.metadata_of(row.0 as usize) {
            None => None,
            Some(bytes) => match T::decode(bytes.as_slice()) {
                Ok(v) => Some(Ok(v)),
                Err(e) => Some(Err(TskitError::MetadataError { value: e })),
            },
        }
    }

    /// A cursor over the rows, from the first.
    pub fn iter(&self) -> (r: PopulationTableIterator<'a>)
        ensures
            r@ == (self@, 0int),
    {
        PopulationTableIterator { table: *self, pos: 0 }
    }

    /// Row `r`, or nothing where `r` is not a row id.
    pub fn row(&self, r: PopulationId) -> (res: Option<PopulationTableRow>)
        ensures
            opt_row_view(res) == spec_row(self@, r.0 as int),
    {
        make_population_table_row(self, r.0)
    }
}

/// Where a cursor at `pos` stands after one step.
pub open spec fn next_pos(pos: int) -> int {
    if pos < i32::MAX {
        pos + 1
    } else {
        pos
    }
}

/// A cursor over the rows of a population table, in id order.
pub struct PopulationTableIterator<'a> {
    table: PopulationTable<'a>,
    pos: i32,
}

impl<'a> View for PopulationTableIterator<'a> {
    /// The rows, and the id that the next step reads.
    type V = (RowsModel, int);

    closed spec fn view(&self) -> (RowsModel, int) {
        (self.table@, self.pos as int)
    }
}

impl<'a> PopulationTableIterator<'a> {
    /// The row at the cursor, if any; the cursor moves on by one either way.
    pub fn next(&mut self) -> (r: Option<PopulationTableRow>)
        ensures
            opt_row_view(r) == spec_row(old(self)@.0, old(self)@.1),
            final(self)@ == (old(self)@.0, next_pos(old(self)@.1)),
    {
        let rv = make_population_table_row(&self.table, self.pos);
        if self.pos < i32::MAX {
            self.pos = self.pos + 1;
        }
        rv
    }
}

/// A population table that owns its columns.
pub struct OwnedPopulationTable {
    table: PopulationColumns,
}

impl View for OwnedPopulationTable {
    type V = RowsModel;

    closed spec fn view(&self) -> RowsModel {
        self.table@
    }
}

impl Default for OwnedPopulationTable {
    fn default() -> (r: Self)
        ensures
            r@ == Seq::<Option<Seq<u8>>>::empty(),
            r.schema() == Seq::<u8>::empty(),
    {
        OwnedPopulationTable { table: PopulationColumns::new() }
    }
}

impl OwnedPopulationTable {
    /// The metadata schema, as bytes.
    pub closed spec fn schema(&self) -> Seq<u8> {
        self.table.schema()
    }

    /// A read-only view of the table.
    pub fn as_table(&self) -> (r: PopulationTable<'_>)
        ensures
            r@ == self@,
    {
        PopulationTable::new_from_table(&self.table)
    }

    /// The number of rows.
    pub fn num_rows(&self) -> (r: SizeType)
        ensures
            r.0 == self@.len(),
            r.0 <= MAX_ROWS,
    {
        self.as_table().num_rows()
    }

    /// Row `r`, or nothing where `r` is not a row id.
    pub fn row(&self, r: PopulationId) -> (res: Option<PopulationTableRow>)
        ensures
            opt_row_view(res) == spec_row(self@, r.0 as int),
    {
        self.as_table().row(r)
    }

    /// The metadata of row `row`, decoded as a `T`: nothing where the row is
    /// absent or holds no metadata, an error where the bytes do not decode.
    pub fn metadata<T: MetadataRoundtrip>(&self, row: PopulationId) -> (r: Option<
        Result<T, TskitError>,
    >)
        ensures
            match spec_metadata::<T>(self@, row.0 as int) {
                None => r is None,
                Some(Some(v)) => r matches Some(Ok(w)) && w == v,
                Some(None) => r matches Some(Err(TskitError::MetadataError { .. })),
            },
    {
        self.as_table().metadata(row)
    }

    /// A cursor over the rows, from the first.
    pub fn iter(&self) -> (r: PopulationTableIterator<'_>)
        ensures
            r@ == (self@, 0int),
    {
        self.as_table().iter()
    }

    fn push_row(&mut self, metadata: Option<Vec<u8>>) -> (r: Result<PopulationId, TskitError>)
        ensures
            final(self).schema() == old(self).schema(),
            old(self)@.len() < MAX_ROWS ==> (r matches Ok(id) && id.0 == old(self)@.len()
                && final(self)@ == old(self)@.push(bytes_view(metadata))),
            old(self)@.len() >= MAX_ROWS ==> (r matches Err(TskitError::ErrorCode { code })
                && code == TABLE_OVERFLOW && final(self)@ == old(self)@),
    {
        match self.table.push(metadata) {
            Ok(n) => Ok(PopulationId(n as i32)),
            Err(code) => Err(TskitError::ErrorCode { code }),
        }
    }

    /// Append a row without metadata; its id is the old number of rows.
    pub fn add_row(&mut self) -> (r: Result<PopulationId, TskitError>)
        ensures
            final(self).schema() == old(self).schema(),
            old(self)@.len() < MAX_ROWS ==> (r matches Ok(id) && id.0 == old(self)@.len()
                && final(self)@ == old(self)@.push(None)),
            old(self)@.len() >= MAX_ROWS ==> (r matches Err(TskitError::ErrorCode { code })
                && code == TABLE_OVERFLOW && final(self)@ == old(self)@),
    {
        self.push_row(None)
    }

    /// Append a row whose metadata is `bytes`, already encoded.
    pub fn add_row_with_raw_metadata(&mut self, bytes: Vec<u8>) -> (r: Result<
        PopulationId,
        TskitError,
    >)
        ensures
            final(self).schema() == old(self).schema(),
            old(self)@.len() < MAX_ROWS ==> (r matches Ok(id) && id.0 == old(self)@.len()
                && final(self)@ == old(self)@.push(Some(bytes@))),
            old(self)@.len() >= MAX_ROWS ==> (r matches Err(TskitError::ErrorCode { code })
                && code == TABLE_OVERFLOW && final(self)@ == old(self)@),
    {
        self.push_row(Some(bytes))
    }

    /// Append a row whose metadata is `metadata`, encoded by its codec. Where
    /// encoding fails, no row is added.
    pub fn add_row_with_metadata<M: MetadataRoundtrip>(&mut self, metadata: &M) -> (r: Result<
        PopulationId,
        TskitError,
    >)
        ensures
            final(self).schema() == old(self).schema(),
            r matches Ok(id) ==> id.0 == old(self)@.len() && exists|bytes: Seq<u8>|
                M::decoded(bytes) == Some(*metadata) && final(self)@ == old(self)@.push(
                    Some(bytes),
                ),
            r is Err ==> final(self)@ == old(self)@,
            old(self)@.len() >= MAX_ROWS ==> r is Err,
    {
        match metadata.encode() {
            Ok(bytes) => self.add_row_with_raw_metadata(bytes),
            Err(e) => Err(TskitError::MetadataError { value: e }),
        }
    }

    /// Remove every row. The metadata schema goes too where `options` holds
    /// `CLEAR_METADATA_SCHEMAS`; the other options concern what a table does
    /// not hold. Clearing always succeeds.
    pub fn clear(&mut self, options: TableClearOptions) -> (r: Result<i32, TskitError>)
        ensures
            r matches Ok(code) && code == 0,
            final(self)@ == Seq::<Option<Seq<u8>>>::empty(),
            options.bits & TableClearOptions::CLEAR_METADATA_SCHEMAS != 0 ==> final(self).schema()
                == Seq::<u8>::empty(),
            options.bits & TableClearOptions::CLEAR_METADATA_SCHEMAS == 0 ==> final(self).schema()
                == old(self).schema(),
    {
        self.table.clear_rows();
        if options.bits & TableClearOptions::CLEAR_METADATA_SCHEMAS != 0 {
            self.table.set_schema(Vec::new());
        }
        Ok(0)
    }

    /// Set the metadata schema.
    pub fn set_metadata_schema(&mut self, schema: Vec<u8>)
        ensures
            final(self)@ == old(self)@,
            final(self).schema() == schema@,
    {
        self.table.set_schema(schema);
    }

    /// The metadata schema, as bytes; empty where none was set.
    pub fn metadata_schema(&self) -> (r: Vec<u8>)
        ensures
            r@ == self.schema(),
    {
        self.table.copy_schema()
    }
}

/// The rows after `n` calls of `add_row` on an empty table, as `add_row`
/// states each step.
pub open spec fn rows_after_add_row(n: nat) -> RowsModel
    decreases n,
{
    if n == 0 {
        Seq::empty()
    } else {
        rows_after_add_row((n - 1) as nat).push(None)
    }
}

/// What `k` calls of `next` return, on a cursor at `pos` over `rows`.
pub open spec fn steps(rows: RowsModel, pos: int, k: nat) -> Seq<Option<RowModel>>
    decreases k,
{
    if k == 0 {
        Seq::empty()
    } else {
        seq![spec_row(rows, pos)] + steps(rows, next_pos(pos), (k - 1) as nat)
    }
}

/// A cleared table has no row: no id finds one, and the first step of a
/// cursor over it finds nothing.
pub proof fn lemma_cleared_table_has_no_rows(id: int)
    ensures
        Seq::<Option<Seq<u8>>>::empty().len() == 0,
        spec_row(Seq::<Option<Seq<u8>>>::empty(), id) is None,
        steps(Seq::<Option<Seq<u8>>>::empty(), 0, 1) == seq![None::<RowModel>],
{
    reveal_with_fuel(steps, 2);
}

/// After `n` calls of `add_row` on an empty table, the calls have returned
/// the ids `0, 1, ..., n - 1` in order, and the table has `n` rows.
pub proof fn lemma_add_row_ids_are_dense(n: nat)
    requires
        n <= MAX_ROWS,
    ensures
        rows_after_add_row(n).len() == n,
        forall|k: nat| k < n ==> (#[trigger] rows_after_add_row(k)).len() == k,
        rows_after_add_row(n) == Seq::new(n, |i: int| None::<Seq<u8>>),
    decreases n,
{
    if n > 0 {
        lemma_add_row_ids_are_dense((n - 1) as nat);
        assert(rows_after_add_row(n) =~= Seq::new(n, |i: int| None::<Seq<u8>>));
    }
    assert forall|k: nat| k < n implies (#[trigger] rows_after_add_row(k)).len() == k by {
        lemma_add_row_ids_are_dense(k);
    }
}

/// Metadata stored by a codec reads back as the value that was stored: a row
/// appended with bytes that decode to `m` yields `m` at its id.
pub proof fn lemma_metadata_round_trip<T: MetadataRoundtrip>(
    rows: RowsModel,
    bytes: Seq<u8>,
    m: T,
)
    requires
        T::decoded(bytes) == Some(m),
    ensures
        spec_metadata::<T>(rows.push(Some(bytes)), rows.len() as int) == Some(Some(m)),
{
}

/// A row is found exactly at the ids `0 <= id < len`, and carries that id.
pub proof fn lemma_row_present_iff_in_range(rows: RowsModel, id: int)
    ensures
        spec_row(rows, id) is Some <==> 0 <= id < rows.len(),
        spec_row(rows, id) matches Some(r) ==> r.0 == id,
{
}

/// A cursor at `pos` yields rows `pos, pos + 1, ...` one per step.
proof fn lemma_steps_from(rows: RowsModel, pos: int, k: nat)
    requires
        0 <= pos,
        pos + k <= rows.len() + 1,
        rows.len() <= MAX_ROWS,
    ensures
        steps(rows, pos, k) == Seq::new(k, |i: int| spec_row(rows, pos + i)),
    decreases k,
{
    if k > 0 {
        let rest = (k - 1) as nat;
        if rest > 0 {
            assert(next_pos(pos) == pos + 1);
        }
        lemma_steps_from(rows, next_pos(pos), rest);
        assert(steps(rows, pos, k) =~= Seq::new(k, |i: int| spec_row(rows, pos + i)));
    }
}

/// A fresh cursor yields every row once, in ascending id order, each the row
/// that `row` gives for its id, and then nothing.
pub proof fn lemma_iteration_yields_rows_in_order(rows: RowsModel)
    requires
        rows.len() <= MAX_ROWS,
    ensures
        steps(rows, 0, (rows.len() + 1) as nat) == Seq::new(
            rows.len(),
            |i: int| spec_row(rows, i),
        ).push(None),
        forall|i: int| 0 <= i < rows.len() ==> #[trigger] spec_row(rows, i) == Some((i, rows[i])),
{
    lemma_steps_from(rows, 0, (rows.len() + 1) as nat);
    assert(steps(rows, 0, (rows.len() + 1) as nat) =~= Seq::new(
        rows.len(),
        |i: int| spec_row(rows, i),
    ).push(None));
}

} // verus!
