use super::decode::{decode, decoded, DecodeError};
use super::wire::{ColumnMeta, WireCell, WireEvent};
use crate::dataset::data_cell::DataCell;
use crate::dataset::data_column::{ColumnView, DataColumn};
use crate::dataset::data_row::{DataRow, RowView};
use crate::dataset::data_set::{scalar_of, DataSet, DataSetView};
use crate::dataset::data_table::{
    law_table_names_distinct, name_of_table, table_name, DataTable, TableView,
};
use crate::dataset::data_value::ValueView;
use vstd::prelude::*;

verus! {

/// The column that the metadata announces. Its size is not known.
pub open spec fn column_of(meta: ColumnMeta) -> ColumnView {
    ColumnView { name: meta.name@, sql_type: meta.sql_type@, size: None, nullable: meta.nullable }
}

/// The table that a metadata event opens: named by the ordinal, with the
/// announced columns in their order, and no rows yet.
pub open spec fn opened_table(result_index: nat, columns: Seq<ColumnMeta>) -> TableView {
    TableView {
        name: table_name(result_index),
        columns: columns.map_values(|meta: ColumnMeta| column_of(meta)),
        rows: Seq::<RowView>::empty(),
    }
}

/// How many cells of a row are decoded: cells and columns are paired by
/// position, and what is left over on either side is dropped.
pub open spec fn paired(columns: Seq<ColumnView>, cells: Seq<WireCell>) -> nat {
    if columns.len() <= cells.len() {
        columns.len()
    } else {
        cells.len()
    }
}

/// The row made of the first `count` cells, each decoded and stored under
/// the name of the column at its position; or the error of the first cell
/// among them that cannot be decoded.
pub open spec fn decoded_row(columns: Seq<ColumnView>, cells: Seq<WireCell>, count: nat) -> Result<
    RowView,
    DecodeError,
>
    decreases count,
{
    if count == 0 {
        Ok(Map::<Seq<char>, ValueView>::empty())
    } else {
        match decoded_row(columns, cells, (count - 1) as nat) {
            Err(error) => Err(error),
            Ok(row) => match decoded(cells[count - 1]) {
                Err(error) => Err(error),
                Ok(value) => Ok(row.insert(columns[count - 1].name, value)),
            },
        }
    }
}

/// What a materializer holds between two events: the tables that are
/// sealed, and the table that is open, if any.
pub struct MaterializerView {
    pub sealed: DataSetView,
    pub open: Option<TableView>,
}

impl MaterializerView {
    /// The state before the first event.
    pub open spec fn start() -> MaterializerView {
        MaterializerView { sealed: Map::<Seq<char>, TableView>::empty(), open: None }
    }

    /// The tables once the open table, if any, is sealed under its name.
    pub open spec fn seal(self) -> DataSetView {
        match self.open {
            Some(table) => self.sealed.insert(table.name, table),
            None => self.sealed,
        }
    }

    /// The table that a row goes to: the open one, or, where a row arrives
    /// before any metadata, a table for ordinal 0 without columns.
    pub open spec fn row_target(self) -> TableView {
        match self.open {
            Some(table) => table,
            None => opened_table(0, Seq::<ColumnMeta>::empty()),
        }
    }

    /// The state after one more event, or the error that ends the pass.
    pub open spec fn step(self, event: WireEvent) -> Result<MaterializerView, DecodeError> {
        match event {
            WireEvent::Metadata { result_index, columns } => Ok(
                MaterializerView {
                    sealed: self.seal(),
                    open: Some(opened_table(result_index as nat, columns@)),
                },
            ),
            WireEvent::Row { cells } => {
                let table = self.row_target();
                match decoded_row(table.columns, cells@, paired(table.columns, cells@)) {
                    Err(error) => Err(error),
                    Ok(row) => Ok(
                        MaterializerView {
                            sealed: self.sealed,
                            open: Some(
                                TableView {
                                    name: table.name,
                                    columns: table.columns,
                                    rows: table.rows.push(row),
                                },
                            ),
                        },
                    ),
                }
            },
        }
    }

    /// The state after all of `events`, in their order.
    pub open spec fn run(self, events: Seq<WireEvent>) -> Result<MaterializerView, DecodeError>
        decreases events.len(),
    {
        if events.len() == 0 {
            Ok(self)
        } else {
            match self.step(events[0]) {
                Err(error) => Err(error),
                Ok(next) => next.run(events.drop_first()),
            }
        }
    }
}

/// The row that a row event gives in a table with `columns`.
pub open spec fn row_of(columns: Seq<ColumnView>, event: WireEvent) -> Result<RowView, DecodeError> {
    decoded_row(columns, event->cells@, paired(columns, event->cells@))
}

/// Whether every event is a row that can be decoded against `columns`.
pub open spec fn rows_decodable(columns: Seq<ColumnView>, events: Seq<WireEvent>) -> bool {
    forall|i: int|
        0 <= i < events.len() ==> (#[trigger] events[i]) is Row && row_of(columns, events[i]) is Ok
}

/// The rows that row events give, in the order of the events.
pub open spec fn rows_of(columns: Seq<ColumnView>, events: Seq<WireEvent>) -> Seq<RowView> {
    events.map_values(|event: WireEvent| row_of(columns, event)->Ok_0)
}

/// Running one sequence of events and then another is running the two as
/// one.
pub proof fn lemma_run_in_two_parts(
    state: MaterializerView,
    first: Seq<WireEvent>,
    second: Seq<WireEvent>,
)
    ensures
        state.run(first + second) == match state.run(first) {
            Err(error) => Err(error),
            Ok(between) => between.run(second),
        },
    decreases first.len(),
{
    if first.len() == 0 {
        assert(first + second =~= second);
    } else {
        assert((first + second)[0] == first[0]);
        assert((first + second).drop_first() =~= first.drop_first() + second);
        match state.step(first[0]) {
            Err(_) => {},
            Ok(next) => {
                lemma_run_in_two_parts(next, first.drop_first(), second);
            },
        }
    }
}

/// Rows go to the table that is open, behind the rows that it has, in the
/// order in which they arrive; the sealed tables stay as they are.
pub proof fn law_rows_go_to_open_table(state: MaterializerView, rows: Seq<WireEvent>)
    requires
        state.open is Some,
        rows_decodable(state.open->0.columns, rows),
    ensures
        state.run(rows) == Ok::<MaterializerView, DecodeError>(
            MaterializerView {
                sealed: state.sealed,
                open: Some(
                    TableView {
                        name: state.open->0.name,
                        columns: state.open->0.columns,
                        rows: state.open->0.rows + rows_of(state.open->0.columns, rows),
                    },
                ),
            },
        ),
    decreases rows.len(),
{
    let table = state.open->0;
    if rows.len() == 0 {
        assert(table.rows + rows_of(table.columns, rows) =~= table.rows);
    } else {
        assert(rows[0] is Row && row_of(table.columns, rows[0]) is Ok);
        let next = state.step(rows[0])->Ok_0;
        let rest = rows.drop_first();
        assert(rows_decodable(table.columns, rest)) by {
            assert forall|i: int| 0 <= i < rest.len() implies (#[trigger] rest[i]) is Row && row_of(
                table.columns,
                rest[i],
            ) is Ok by {
                assert(rest[i] == rows[i + 1]);
            }
        }
        law_rows_go_to_open_table(next, rest);
        assert(next.open->0.rows + rows_of(table.columns, rest) =~= table.rows + rows_of(
            table.columns,
            rows,
        ));
    }
}

/// The table of one result set: named by the ordinal of its metadata, with
/// the announced columns, and with the rows that its row events give.
pub open spec fn result_table(metadata: WireEvent, rows: Seq<WireEvent>) -> TableView {
    let opened = opened_table(metadata->result_index as nat, metadata->columns@);
    TableView { name: opened.name, columns: opened.columns, rows: rows_of(opened.columns, rows) }
}

/// Whether `metadata` and `rows` are one result set: a metadata event, and
/// then row events that can be decoded against its columns.
pub open spec fn is_result_set(metadata: WireEvent, rows: Seq<WireEvent>) -> bool {
    &&& metadata is Metadata
    &&& rows_decodable(
        opened_table(metadata->result_index as nat, metadata->columns@).columns,
        rows,
    )
}

/// One result set: its metadata and then its rows. Whatever went before,
/// the table that was open is sealed, and the new table carries the name of
/// the ordinal, the announced columns, and exactly the rows that came with
/// it, in their order.
pub proof fn law_result_set(state: MaterializerView, metadata: WireEvent, rows: Seq<WireEvent>)
    requires
        is_result_set(metadata, rows),
    ensures
        state.run(seq![metadata] + rows) == Ok::<MaterializerView, DecodeError>(
            MaterializerView { sealed: state.seal(), open: Some(result_table(metadata, rows)) },
        ),
{
    let opened = state.step(metadata)->Ok_0;
    lemma_run_in_two_parts(state, seq![metadata], rows);
    assert(seq![metadata].drop_first() =~= Seq::<WireEvent>::empty());
    assert(state.run(seq![metadata]) == Ok::<MaterializerView, DecodeError>(opened)) by {
        assert(opened.run(Seq::<WireEvent>::empty()) == Ok::<MaterializerView, DecodeError>(opened));
    }
    law_rows_go_to_open_table(opened, rows);
    assert(opened.open->0.rows + rows_of(opened.open->0.columns, rows) =~= rows_of(
        opened.open->0.columns,
        rows,
    ));
}

/// The data set that a whole response gives, or the error of its first cell
/// that cannot be decoded.
pub open spec fn materialized(events: Seq<WireEvent>) -> Result<DataSetView, DecodeError> {
    match MaterializerView::start().run(events) {
        Err(error) => Err(error),
        Ok(state) => Ok(state.seal()),
    }
}

/// A response of one result set gives a data set of exactly one table, under
/// the name of the ordinal.
pub proof fn law_one_result_set(metadata: WireEvent, rows: Seq<WireEvent>)
    requires
        is_result_set(metadata, rows),
    ensures
        materialized(seq![metadata] + rows) == Ok::<DataSetView, DecodeError>(
            Map::<Seq<char>, TableView>::empty().insert(
                table_name(metadata->result_index as nat),
                result_table(metadata, rows),
            ),
        ),
{
    law_result_set(MaterializerView::start(), metadata, rows);
}

/// A response of two result sets gives two tables, each under the name of
/// its ordinal, and each with the rows that arrived between its metadata
/// and the next metadata or the end.
pub proof fn law_two_result_sets(
    first: WireEvent,
    first_rows: Seq<WireEvent>,
    second: WireEvent,
    second_rows: Seq<WireEvent>,
)
    requires
        is_result_set(first, first_rows),
        is_result_set(second, second_rows),
        first->result_index != second->result_index,
    ensures
        table_name(first->result_index as nat) != table_name(second->result_index as nat),
        materialized(seq![first] + first_rows + (seq![second] + second_rows)) == Ok::<
            DataSetView,
            DecodeError,
        >(
            Map::<Seq<char>, TableView>::empty().insert(
                table_name(first->result_index as nat),
                result_table(first, first_rows),
            ).insert(
                table_name(second->result_index as nat),
                result_table(second, second_rows),
            ),
        ),
{
    let start = MaterializerView::start();
    law_table_names_distinct(first->result_index as nat, second->result_index as nat);
    law_result_set(start, first, first_rows);
    let between = start.run(seq![first] + first_rows)->Ok_0;
    law_result_set(between, second, second_rows);
    lemma_run_in_two_parts(start, seq![first] + first_rows, seq![second] + second_rows);
}

/// In a row whose columns have different names, the value under the name of
/// the first column is the value of the first cell.
pub proof fn law_first_cell_of_row(columns: Seq<ColumnView>, cells: Seq<WireCell>, count: nat)
    requires
        1 <= count <= paired(columns, cells),
        forall|i: int, j: int|
            0 <= i < j < count ==> (#[trigger] columns[i]).name != (#[trigger] columns[j]).name,
        decoded_row(columns, cells, count) is Ok,
    ensures
        decoded(cells[0]) is Ok,
        decoded_row(columns, cells, count)->Ok_0.contains_key(columns[0].name),
        decoded_row(columns, cells, count)->Ok_0[columns[0].name] == decoded(cells[0])->Ok_0,
    decreases count,
{
    if count > 1 {
        law_first_cell_of_row(columns, cells, (count - 1) as nat);
        assert(columns[0].name != columns[count - 1].name);
    }
}

/// The scalar of a response whose first result set has ordinal 0: absent
/// when that result set has no rows, and otherwise the value of the first
/// cell of its first row, where the columns have different names.
pub proof fn law_scalar_of_response(metadata: WireEvent, rows: Seq<WireEvent>)
    requires
        is_result_set(metadata, rows),
        metadata->result_index == 0,
    ensures
        rows.len() == 0 ==> scalar_of(materialized(seq![metadata] + rows)->Ok_0) is None,
        ({
            let columns = result_table(metadata, rows).columns;
            &&& rows.len() > 0
            &&& paired(columns, rows[0]->cells@) >= 1
            &&& forall|i: int, j: int|
                0 <= i < j < columns.len() ==> (#[trigger] columns[i]).name != (
                #[trigger] columns[j]).name
        }) ==> decoded(rows[0]->cells@[0]) is Ok && scalar_of(
            materialized(seq![metadata] + rows)->Ok_0,
        ) == Some(decoded(rows[0]->cells@[0])->Ok_0),
{
    law_one_result_set(metadata, rows);
    let columns = result_table(metadata, rows).columns;
    if rows.len() > 0 && paired(columns, rows[0]->cells@) >= 1 && (forall|i: int, j: int|
        0 <= i < j < columns.len() ==> (#[trigger] columns[i]).name != (
        #[trigger] columns[j]).name) {
        let cells = rows[0]->cells@;
        assert(rows[0] is Row && row_of(columns, rows[0]) is Ok);
        law_first_cell_of_row(columns, cells, paired(columns, cells));
    }
}

/// Folds the events of one response into a data set.
#[derive(Debug)]
pub struct Materializer {
    data_set: DataSet,
    current: Option<DataTable>,
}

impl View for Materializer {
    type V = MaterializerView;

    closed spec fn view(&self) -> MaterializerView {
        MaterializerView {
            sealed: self.data_set@,
            open: match self.current {
                Some(table) => Some(table@),
                None => None,
            },
        }
    }
}

/// Whether `result` is the outcome of `state.step(event)`.
pub open spec fn steps_to(
    state: MaterializerView,
    event: WireEvent,
    result: Result<Materializer, DecodeError>,
) -> bool {
    match result {
        Ok(next) => state.step(event) == Ok::<MaterializerView, DecodeError>(next@),
        Err(error) => state.step(event) == Err::<MaterializerView, DecodeError>(error),
    }
}

fn columns_of(columns: Vec<ColumnMeta>) -> (made: Vec<DataColumn>)
    ensures
        made@.map_values(|column: DataColumn| column@) == columns@.map_values(
            |meta: ColumnMeta| column_of(meta),
        ),
{
    broadcast use vstd::std_specs::vec::axiom_spec_into_iter;

    let mut made: Vec<DataColumn> = Vec::new();
    for meta in it: columns.into_iter()
        invariant
            it.seq() == columns@,
            made.len() == it.index(),
            forall|i: int| 0 <= i < made.len() ==> (#[trigger] made[i])@ == column_of(columns@[i]),
    {
        made.push(
            DataColumn { name: meta.name, sql_type: meta.sql_type, size: None, nullable: meta.nullable },
        );
    }
    assert(made@.map_values(|column: DataColumn| column@) =~= columns@.map_values(
        |meta: ColumnMeta| column_of(meta),
    ));
    made
}

/// Whether `result` is the decoding of the paired cells of a row.
pub open spec fn row_decodes_to(
    columns: Seq<ColumnView>,
    cells: Seq<WireCell>,
    result: Result<DataRow, DecodeError>,
) -> bool {
    match result {
        Ok(row) => decoded_row(columns, cells, paired(columns, cells)) == Ok::<RowView, DecodeError>(
            row@,
        ),
        Err(error) => decoded_row(columns, cells, paired(columns, cells)) == Err::<
            RowView,
            DecodeError,
        >(error),
    }
}

/// Decodes the cells of one row against the columns of its table.
pub fn decode_row(columns: &Vec<DataColumn>, cells: Vec<WireCell>) -> (result: Result<
    DataRow,
    DecodeError,
>)
    ensures
        row_decodes_to(columns@.map_values(|column: DataColumn| column@), cells@, result),
{
    broadcast use vstd::std_specs::vec::axiom_spec_into_iter;

    let ghost views = columns@.map_values(|column: DataColumn| column@);
    let mut row = DataRow::default();
    let mut position: usize = 0;
    for cell in it: cells.into_iter()
        invariant
            it.seq() == cells@,
            views == columns@.map_values(|column: DataColumn| column@),
            position == paired(views, cells@.take(it.index())),
            decoded_row(views, cells@, position as nat) == Ok::<RowView, DecodeError>(row@),
    {
        if position < columns.len() {
            proof {
                assert(position == it.index());
            }
            match decode(cell) {
                Err(error) => {
                    proof {
                        lemma_row_error(views, cells@, (position + 1) as nat, paired(views, cells@));
                    }
                    return Err(error);
                },
                Ok(value) => {
                    let ghost before = row@;
                    row.cells.insert(columns[position].name.clone(), DataCell { value });
                    assert(row@ =~= before.insert(views[position as int].name, value@));
                    position += 1;
                },
            }
        }
    }
    assert(cells@.take(cells@.len() as int) =~= cells@);
    Ok(row)
}

/// Once the first `count` cells give an error, so does every longer prefix.
pub proof fn lemma_row_error(columns: Seq<ColumnView>, cells: Seq<WireCell>, count: nat, more: nat)
    requires
        count <= more,
        decoded_row(columns, cells, count) is Err,
    ensures
        decoded_row(columns, cells, more) == decoded_row(columns, cells, count),
    decreases more,
{
    if count < more {
        lemma_row_error(columns, cells, count, (more - 1) as nat);
    }
}

impl Materializer {
    /// A materializer that has seen no event.
    pub fn new() -> (start: Materializer)
        ensures
            start@ == MaterializerView::start(),
    {
        Materializer { data_set: DataSet::new(), current: None }
    }

    /// Takes the next event of the response. On an error the pass is over:
    /// what was gathered so far is dropped with the materializer.
    pub fn accept(self, event: WireEvent) -> (result: Result<Materializer, DecodeError>)
        ensures
            steps_to(self@, event, result),
    {
        let Materializer { data_set, current } = self;
        match event {
            WireEvent::Metadata { result_index, columns } => {
                let data_set = seal(data_set, current);
                let table = DataTable {
                    name: name_of_table(result_index),
                    columns: columns_of(columns),
                    rows: Vec::new(),
                };
                assert(table@.rows =~= Seq::<RowView>::empty());
                Ok(Materializer { data_set, current: Some(table) })
            },
            WireEvent::Row { cells } => {
                let mut table = match current {
                    Some(table) => table,
                    None => {
                        let table = DataTable {
                            name: name_of_table(0),
                            columns: Vec::new(),
                            rows: Vec::new(),
                        };
                        assert(table@.columns =~= opened_table(
                            0,
                            Seq::<ColumnMeta>::empty(),
                        ).columns);
                        assert(table@.rows =~= Seq::<RowView>::empty());
                        table
                    },
                };
                let ghost before = table@;
                match decode_row(&table.columns, cells) {
                    Err(error) => Err(error),
                    Ok(row) => {
                        table.rows.push(row);
                        assert(table@.rows =~= before.rows.push(row@));
                        Ok(Materializer { data_set, current: Some(table) })
                    },
                }
            },
        }
    }

    /// Ends the pass: seals the open table, if any, and hands out the data
    /// set.
    pub fn finish(self) -> (data_set: DataSet)
        ensures
            data_set@ == self@.seal(),
    {
        let Materializer { data_set, current } = self;
        seal(data_set, current)
    }
}

fn seal(data_set: DataSet, current: Option<DataTable>) -> (sealed: DataSet)
    ensures
        sealed@ == match current {
            Some(table) => data_set@.insert(table@.name, table@),
            None => data_set@,
        },
{
    match current {
        Some(table) => {
            let mut data_set = data_set;
            let ghost before = data_set@;
            data_set.tables.insert(table.name.clone(), table);
            assert(data_set@ =~= before.insert(table@.name, table@));
            data_set
        },
        None => data_set,
    }
}

/// Whether `result` is what `events` materialize to.
pub open spec fn materializes_to(events: Seq<WireEvent>, result: Result<DataSet, DecodeError>) -> bool {
    match result {
        Ok(data_set) => materialized(events) == Ok::<DataSetView, DecodeError>(data_set@),
        Err(error) => materialized(events) == Err::<DataSetView, DecodeError>(error),
    }
}

/// Folds a whole response into a data set. One cell that cannot be decoded
/// fails the whole response: no part of the data set is returned.
pub fn materialize(events: Vec<WireEvent>) -> (result: Result<DataSet, DecodeError>)
    ensures
        materializes_to(events@, result),
{
    broadcast use vstd::std_specs::vec::axiom_spec_into_iter;

    let mut state = Materializer::new();
    assert(events@.skip(0) =~= events@);
    for event in it: events.into_iter()
        invariant
            it.seq() == events@,
            MaterializerView::start().run(events@) == state@.run(events@.skip(it.index())),
    {
        let ghost rest = events@.skip(it.index());
        assert(rest.len() > 0 && rest[0] == event);
        assert(rest.drop_first() =~= events@.skip(it.index() + 1));
        match state.accept(event) {
            Err(error) => {
                return Err(error);
            },
            Ok(next) => {
                state = next;
            },
        }
    }
    assert(events@.skip(events@.len() as int) =~= Seq::<WireEvent>::empty());
    Ok(state.finish())
}

} // verus!
