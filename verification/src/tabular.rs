//! The tables of the bulk dump: comma-separated text with a header row that
//! names the columns, read into records by column name.

use vstd::prelude::*;
use vstd::string::StringExecFns;
use crate::error::CacheError;
use crate::numbers::{i32_of_text, parse_i32, parse_u64, u64_of_text};
use crate::records::{
    Crate, CrateOwner, CrateView, OwnerKind, Team, TeamView, User, UserView,
};

verus! {

/// The rows of cells that the `csv` crate reads from `data`, the header row
/// first; none where it rejects `data`.
pub uninterp spec fn csv_table(
    data: Seq<u8>,
    delimiter: u8,
    double_quote: bool,
    quoting: bool,
) -> Option<Seq<Seq<Seq<char>>>>;

/// Declares `csv::Error` as a type whose values are carried through
/// unseen: nothing is claimed of what an error holds.
#[verifier::external_type_specification]
#[verifier::external_body]
pub struct ExCsvError(csv::Error);

/// Reads `data` with a reader built by `csv::ReaderBuilder` with the given
/// delimiter, `double_quote` and `quoting` settings and its defaults
/// otherwise: `Reader::headers` gives the first row, `Reader::records` the
/// rest. The rows come back as the reader gives them, the header row first,
/// and the first error of the reader (a row that is no UTF-8, or that has
/// another number of cells than the first) ends the reading. What the reader
/// makes of given bytes is not written out here; it is named `csv_table`,
/// and depends on the bytes and the settings alone.
#[verifier::external_body]
fn read_csv(data: &[u8], delimiter: u8, double_quote: bool, quoting: bool) -> (r: Result<
    Vec<Vec<String>>,
    csv::Error,
>)
    ensures
        r is Ok <==> csv_table(data@, delimiter, double_quote, quoting) is Some,
        r matches Ok(rows) ==> csv_table(data@, delimiter, double_quote, quoting) == Some(
            rows.deep_view(),
        ),
{
    let mut builder = csv::ReaderBuilder::new();
    builder.delimiter(delimiter).double_quote(double_quote).quoting(quoting);
    let mut reader = builder.from_reader(data);
    let mut rows: Vec<Vec<String>> = Vec::new();
    rows.push(reader.headers()?.iter().map(String::from).collect());
    for record in reader.records() {
        rows.push(record?.iter().map(String::from).collect());
    }
    Ok(rows)
}

/// Where a header names a column.
#[derive(Clone, Copy, Debug, PartialEq, Eq, Structural)]
pub enum Column {
    /// Nowhere.
    Absent,
    /// Once, at this place.
    At(usize),
    /// More than once.
    Repeated,
}

/// Whether `header` names `name` at place `i` and nowhere else.
pub open spec fn named_once_at(header: Seq<Seq<char>>, name: Seq<char>, i: int) -> bool {
    &&& 0 <= i < header.len()
    &&& header[i] == name
    &&& forall|j: int| 0 <= j < header.len() && header[j] == name ==> j == i
}

/// Where `header` names the column `name`.
pub open spec fn column_of(header: Seq<Seq<char>>, name: Seq<char>) -> Column {
    if forall|i: int| 0 <= i < header.len() ==> header[i] != name {
        Column::Absent
    } else if exists|i: int| named_once_at(header, name, i) {
        Column::At((choose|i: int| named_once_at(header, name, i)) as usize)
    } else {
        Column::Repeated
    }
}

/// The cell of `row` in the column `name`, where the header names the
/// column just once and the row reaches it.
pub open spec fn required_cell(header: Seq<Seq<char>>, row: Seq<Seq<char>>, name: Seq<char>) -> Option<
    Seq<char>,
> {
    match column_of(header, name) {
        Column::At(i) => if i < row.len() {
            Some(row[i as int])
        } else {
            None
        },
        _ => None,
    }
}

/// The cell of `row` in the column `name`, which may be missing: an absent
/// column and an empty cell both give nothing. A column named twice, or a
/// row that does not reach the column, is an error, the outer `None`.
pub open spec fn optional_cell(header: Seq<Seq<char>>, row: Seq<Seq<char>>, name: Seq<char>) -> Option<
    Option<Seq<char>>,
> {
    match column_of(header, name) {
        Column::Absent => Some(None),
        Column::At(i) => if i < row.len() {
            if row[i as int].len() == 0 {
                Some(None)
            } else {
                Some(Some(row[i as int]))
            }
        } else {
            None
        },
        Column::Repeated => None,
    }
}

/// The number in the cell of `row` in the column `name`.
pub open spec fn number_cell(header: Seq<Seq<char>>, row: Seq<Seq<char>>, name: Seq<char>) -> Option<
    u64,
> {
    match required_cell(header, row, name) {
        Some(cell) => u64_of_text(cell),
        None => None,
    }
}

/// The owner kind in the cell of `row` in the column `name`.
pub open spec fn kind_cell(header: Seq<Seq<char>>, row: Seq<Seq<char>>, name: Seq<char>) -> Option<
    OwnerKind,
> {
    match required_cell(header, row, name) {
        Some(cell) => match i32_of_text(cell) {
            Some(code) => OwnerKind::of_code(code),
            None => None,
        },
        None => None,
    }
}

/// Finds the column `name` in `header`.
pub fn find_column(header: &Vec<String>, name: &str) -> (r: Column)
    ensures
        r == column_of(header.deep_view(), name@),
{
    let wanted = String::from_str(name);
    let ghost cells = header.deep_view();
    let mut found: Option<usize> = None;
    let mut repeated = false;
    let mut i: usize = 0;
    while i < header.len()
        invariant
            i <= header.len(),
            cells == header.deep_view(),
            wanted@ == name@,
            found matches Some(at) ==> at < i && cells[at as int] == name@,
            found is None ==> !repeated && forall|j: int| 0 <= j < i ==> cells[j] != name@,
            (found is Some && !repeated) ==> forall|j: int|
                0 <= j < i && cells[j] == name@ ==> j == found.unwrap(),
            repeated ==> exists|a: int, b: int|
                0 <= a < b < i && cells[a] == name@ && cells[b] == name@,
        decreases header.len() - i,
    {
        assert(cells[i as int] == header@[i as int]@);
        if header[i] == wanted {
            match found {
                Some(at) => {
                    repeated = true;
                },
                None => {
                    found = Some(i);
                },
            }
        }
        i += 1;
    }
    match found {
        None => Column::Absent,
        Some(at) => {
            if repeated {
                proof {
                    let (a, b) = choose|a: int, b: int|
                        0 <= a < b < cells.len() && cells[a] == name@ && cells[b] == name@;
                    assert forall|k: int| !named_once_at(cells, name@, k) by {
                        if named_once_at(cells, name@, k) {
                            assert(a == k && b == k);
                        }
                    }
                }
                Column::Repeated
            } else {
                proof {
                    assert(named_once_at(cells, name@, at as int));
                }
                Column::At(at)
            }
        },
    }
}

/// Reads the cell of `row` in the column `name`, which has to be there.
fn read_required(header: &Vec<String>, row: &Vec<String>, name: &str) -> (r: Option<String>)
    ensures
        r is Some <==> required_cell(header.deep_view(), row.deep_view(), name@) is Some,
        r matches Some(s) ==> required_cell(header.deep_view(), row.deep_view(), name@) == Some(
            s@,
        ),
{
    match find_column(header, name) {
        Column::At(i) => {
            if i < row.len() {
                Some(row[i].clone())
            } else {
                None
            }
        },
        _ => None,
    }
}

/// Reads the cell of `row` in the column `name`, which may be missing.
fn read_optional(header: &Vec<String>, row: &Vec<String>, name: &str) -> (r: Option<
    Option<String>,
>)
    ensures
        r is Some <==> optional_cell(header.deep_view(), row.deep_view(), name@) is Some,
        r matches Some(cell) ==> optional_cell(header.deep_view(), row.deep_view(), name@)
            == Some(crate::records::text_view(cell)),
{
    match find_column(header, name) {
        Column::Absent => Some(None),
        Column::At(i) => {
            if i < row.len() {
                if row[i].as_str().is_empty() {
                    Some(None)
                } else {
                    Some(Some(row[i].clone()))
                }
            } else {
                None
            }
        },
        Column::Repeated => None,
    }
}

/// Reads the number in the cell of `row` in the column `name`.
fn read_number(header: &Vec<String>, row: &Vec<String>, name: &str) -> (r: Option<u64>)
    ensures
        r == number_cell(header.deep_view(), row.deep_view(), name@),
{
    match read_required(header, row, name) {
        Some(cell) => parse_u64(cell.as_str()),
        None => None,
    }
}

/// Reads the owner kind in the cell of `row` in the column `name`.
fn read_kind(header: &Vec<String>, row: &Vec<String>, name: &str) -> (r: Option<OwnerKind>)
    ensures
        r == kind_cell(header.deep_view(), row.deep_view(), name@),
{
    match read_required(header, row, name) {
        Some(cell) => match parse_i32(cell.as_str()) {
            Some(code) => OwnerKind::from_code(code),
            None => None,
        },
        None => None,
    }
}

/// A record that one row of a table writes.
pub trait Record: Sized + View {
    /// The record that `row` writes under `header`; none where a column that
    /// the record needs is absent or named twice, or a cell cannot be read.
    spec fn of_row(header: Seq<Seq<char>>, row: Seq<Seq<char>>) -> Option<Self::V>;

    /// Reads the record that `row` writes under `header`.
    fn from_row(header: &Vec<String>, row: &Vec<String>) -> (r: Option<Self>)
        ensures
            r is Some <==> Self::of_row(header.deep_view(), row.deep_view()) is Some,
            r matches Some(record) ==> Self::of_row(header.deep_view(), row.deep_view()) == Some(
                record@,
            ),
    ;
}

impl Record for Crate {
    open spec fn of_row(header: Seq<Seq<char>>, row: Seq<Seq<char>>) -> Option<CrateView> {
        match (
            required_cell(header, row, "name"@),
            number_cell(header, row, "id"@),
            optional_cell(header, row, "repository"@),
        ) {
            (Some(name), Some(id), Some(repository)) => Some(CrateView { name, id, repository }),
            _ => None,
        }
    }

    fn from_row(header: &Vec<String>, row: &Vec<String>) -> (r: Option<Self>) {
        let name = read_required(header, row, "name")?;
        let id = read_number(header, row, "id")?;
        let repository = read_optional(header, row, "repository")?;
        Some(Crate { name, id, repository })
    }
}

impl Record for CrateOwner {
    open spec fn of_row(header: Seq<Seq<char>>, row: Seq<Seq<char>>) -> Option<CrateOwner> {
        match (
            number_cell(header, row, "crate_id"@),
            number_cell(header, row, "owner_id"@),
            kind_cell(header, row, "owner_kind"@),
        ) {
            (Some(crate_id), Some(owner_id), Some(owner_kind)) => Some(
                CrateOwner { crate_id, owner_id, owner_kind },
            ),
            _ => None,
        }
    }

    fn from_row(header: &Vec<String>, row: &Vec<String>) -> (r: Option<Self>) {
        let crate_id = read_number(header, row, "crate_id")?;
        let owner_id = read_number(header, row, "owner_id")?;
        let owner_kind = read_kind(header, row, "owner_kind")?;
        Some(CrateOwner { crate_id, owner_id, owner_kind })
    }
}

impl Record for User {
    open spec fn of_row(header: Seq<Seq<char>>, row: Seq<Seq<char>>) -> Option<UserView> {
        match (
            number_cell(header, row, "id"@),
            optional_cell(header, row, "gh_avatar"@),
            optional_cell(header, row, "gh_id"@),
            required_cell(header, row, "gh_login"@),
            optional_cell(header, row, "name"@),
        ) {
            (Some(id), Some(gh_avatar), Some(gh_id), Some(gh_login), Some(name)) => Some(
                UserView { id, gh_avatar, gh_id, gh_login, name },
            ),
            _ => None,
        }
    }

    fn from_row(header: &Vec<String>, row: &Vec<String>) -> (r: Option<Self>) {
        let id = read_number(header, row, "id")?;
        let gh_avatar = read_optional(header, row, "gh_avatar")?;
        let gh_id = read_optional(header, row, "gh_id")?;
        let gh_login = read_required(header, row, "gh_login")?;
        let name = read_optional(header, row, "name")?;
        Some(User { id, gh_avatar, gh_id, gh_login, name })
    }
}

impl Record for Team {
    open spec fn of_row(header: Seq<Seq<char>>, row: Seq<Seq<char>>) -> Option<TeamView> {
        match (
            number_cell(header, row, "id"@),
            optional_cell(header, row, "avatar"@),
            required_cell(header, row, "login"@),
            optional_cell(header, row, "name"@),
        ) {
            (Some(id), Some(avatar), Some(login), Some(name)) => Some(
                TeamView { id, avatar, login, name },
            ),
            _ => None,
        }
    }

    fn from_row(header: &Vec<String>, row: &Vec<String>) -> (r: Option<Self>) {
        let id = read_number(header, row, "id")?;
        let avatar = read_optional(header, row, "avatar")?;
        let login = read_required(header, row, "login")?;
        let name = read_optional(header, row, "name")?;
        Some(Team { id, avatar, login, name })
    }
}

/// The values of a list of records, in the same order.
pub open spec fn record_views<T: Record>(records: Seq<T>) -> Seq<T::V> {
    records.map_values(|r: T| r@)
}

/// The records that a table writes, one for each row below its header row;
/// none where the table has no header row or any of its rows writes none.
pub open spec fn records_of<T: Record>(table: Seq<Seq<Seq<char>>>) -> Option<Seq<T::V>> {
    if table.len() > 0 && forall|i: int| 1 <= i < table.len() ==> T::of_row(table[0], table[i]) is Some {
        Some(Seq::new((table.len() - 1) as nat, |i: int| T::of_row(table[0], table[i + 1]).unwrap()))
    } else {
        None
    }
}

/// The records that the bytes of a table write: comma-separated cells,
/// double quotes around a cell where it needs them, a header row first.
pub open spec fn parsed<T: Record>(data: Seq<u8>) -> Option<Seq<T::V>> {
    match csv_table(data, 44u8, true, true) {
        Some(table) => records_of::<T>(table),
        None => None,
    }
}

/// Reads the records that `table` writes, its first row being the header.
pub fn records_from<T: Record>(table: &Vec<Vec<String>>) -> (r: Option<Vec<T>>)
    ensures
        r is Some <==> records_of::<T>(table.deep_view()) is Some,
        r matches Some(records) ==> records_of::<T>(table.deep_view()) == Some(
            record_views(records@),
        ),
{
    if table.len() == 0 {
        return None;
    }
    let ghost cells = table.deep_view();
    let header = &table[0];
    let mut records: Vec<T> = Vec::new();
    let mut i: usize = 1;
    while i < table.len()
        invariant
            1 <= i <= table.len(),
            cells == table.deep_view(),
            cells[0] == header.deep_view(),
            records.len() == i - 1,
            forall|j: int| 1 <= j < i ==> T::of_row(cells[0], cells[j]) == Some(#[trigger] records@[j - 1]@),
        decreases table.len() - i,
    {
        assert(cells[i as int] == table@[i as int].deep_view());
        match T::from_row(header, &table[i]) {
            Some(record) => {
                records.push(record);
            },
            None => {
                return None;
            },
        }
        i += 1;
    }
    proof {
        assert forall|j: int| 1 <= j < cells.len() implies T::of_row(cells[0], cells[j]) is Some by {
            assert(T::of_row(cells[0], cells[j]) == Some(records@[j - 1]@));
        }
        let written = records_of::<T>(cells).unwrap();
        assert forall|k: int| 0 <= k < written.len() implies written[k] == record_views(
            records@,
        )[k] by {
            assert(T::of_row(cells[0], cells[k + 1]) == Some(records@[k + 1 - 1]@));
        }
    }
    Some(records)
}

/// Reads the records that the bytes of a table write. Bytes that are no
/// table, and a table of which a row writes no record, are malformed.
pub fn parse_table<T: Record>(data: &[u8]) -> (r: Result<Vec<T>, CacheError>)
    ensures
        r is Ok <==> parsed::<T>(data@) is Some,
        r matches Ok(records) ==> parsed::<T>(data@) == Some(record_views(records@)),
        r matches Err(e) ==> e == CacheError::Deserialize,
{
    match read_csv(data, 44u8, true, true) {
        Ok(table) => match records_from::<T>(&table) {
            Some(records) => Ok(records),
            None => Err(CacheError::Deserialize),
        },
        Err(_) => Err(CacheError::Deserialize),
    }
}

} // verus!
