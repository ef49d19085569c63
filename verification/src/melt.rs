use crate::array::{Array, ColumnView, Scalar};
use crate::array_data::{lemma_repeat_each, repeat_each, ArrayData};
use crate::coerce::{can_coerce, coerce, coercible, push_coerced};
use crate::dataframe::{
    inserted, lemma_lookup_inserted, lookup, names_distinct, DataFrame, TableView,
};
use crate::dtype::DType;
use crate::error::{fails_with, Error, ErrorView};
use crate::least::{least, lemma_least, lemma_least_is};
use vstd::arithmetic::div_mod::lemma_fundamental_div_mod_converse;
use vstd::prelude::*;

verus! {

/// The names in `ids`, each as its characters.
pub open spec fn names_of(ids: Seq<&str>) -> Seq<Seq<char>> {
    ids.map_values(|s: &str| s@)
}

/// The value columns in `vars`, each as the characters of its name and the
/// tag that the caller declared for it.
pub open spec fn declared(vars: Seq<(&str, DType)>) -> Seq<(Seq<char>, DType)> {
    vars.map_values(|p: (&str, DType)| (p.0@, p.1))
}

/// The names of the value columns.
pub open spec fn value_names(vals: Seq<(Seq<char>, DType)>) -> Seq<Seq<char>> {
    vals.map_values(|p: (Seq<char>, DType)| p.0)
}

/// Whether `t` lacks a column for the name at a position of `names`.
pub open spec fn lacks(t: TableView, names: Seq<Seq<char>>) -> spec_fn(int) -> bool {
    |j: int| lookup(t, names[j]) is None
}

/// The position of the first of `names` for which `t` has no column.
pub open spec fn first_missing(t: TableView, names: Seq<Seq<char>>) -> Option<int> {
    least(names.len() as int, lacks(t, names))
}

/// The number of rows of the wide table: the greatest length among the
/// columns of `t` named in `ids`, and 0 where `ids` is empty.
pub open spec fn row_count(t: TableView, ids: Seq<Seq<char>>) -> nat
    decreases ids.len(),
{
    if ids.len() == 0 {
        0
    } else {
        let before: nat = row_count(t, ids.drop_last());
        let len: nat = lookup(t, ids.last()).unwrap().cells.len();
        if len > before {
            len
        } else {
            before
        }
    }
}

/// The column `c` with each element `k` times in a row.
pub open spec fn expanded(c: ColumnView, k: nat) -> ColumnView {
    ColumnView { dtype: c.dtype, cells: repeat_each(c.cells, k) }
}

/// The identifier columns: those of `t` named in `ids`, each expanded `k`
/// times and put into an empty table under its name, in the order of `ids`.
pub open spec fn id_table(t: TableView, ids: Seq<Seq<char>>, k: nat) -> TableView
    decreases ids.len(),
{
    if ids.len() == 0 {
        Seq::empty()
    } else {
        inserted(
            id_table(t, ids.drop_last(), k),
            ids.last(),
            expanded(lookup(t, ids.last()).unwrap(), k),
        )
    }
}

/// The variable column for `rows` rows: the names of the value columns in
/// their order, once for every row.
pub open spec fn variable_column(vals: Seq<(Seq<char>, DType)>, rows: nat) -> ColumnView {
    ColumnView {
        dtype: DType::Str,
        cells: Seq::new(rows * vals.len(), |c: int| Scalar::Text(vals[c % (vals.len() as int)].0)),
    }
}

/// What stands at position `c` of the value column: with `k` value columns,
/// the element in row `c / k` of value column `c % k`, converted to the type
/// `to`; or why there is no such element.
pub open spec fn value_cell(t: TableView, vals: Seq<(Seq<char>, DType)>, to: DType, c: int) -> Result<
    Scalar,
    ErrorView,
> {
    let k: int = vals.len() as int;
    let row: int = c / k;
    let name = vals[c % k].0;
    let col = lookup(t, name).unwrap();
    if col.dtype != vals[c % k].1 {
        Err(ErrorView::ReshapeTypeMismatch { name, actual: col.dtype })
    } else if row >= col.cells.len() {
        Err(ErrorView::IndexOutOfRange { name, index: row as nat })
    } else if !coercible(col.dtype, to) {
        Err(ErrorView::UnsupportedCoercion { from: col.dtype, to })
    } else {
        Ok(coerce(col.cells[row], col.dtype, to))
    }
}

/// Whether there is no element for a position of the value column.
pub open spec fn fails_at(t: TableView, vals: Seq<(Seq<char>, DType)>, to: DType) -> spec_fn(
    int,
) -> bool {
    |c: int| value_cell(t, vals, to, c) is Err
}

/// The first position of the value column for which there is no element.
pub open spec fn first_failure(
    t: TableView,
    vals: Seq<(Seq<char>, DType)>,
    to: DType,
    rows: nat,
) -> Option<int> {
    least((rows * vals.len()) as int, fails_at(t, vals, to))
}

/// The value column for `rows` rows: row by row, the elements of the value
/// columns in their order, converted to the type `to`.
pub open spec fn value_column(
    t: TableView,
    vals: Seq<(Seq<char>, DType)>,
    to: DType,
    rows: nat,
) -> ColumnView {
    ColumnView {
        dtype: to,
        cells: Seq::new(rows * vals.len(), |c: int| value_cell(t, vals, to, c)->Ok_0),
    }
}

/// The long form of the wide table `t`, or why it has none.
pub open spec fn melted(
    t: TableView,
    ids: Seq<Seq<char>>,
    vals: Seq<(Seq<char>, DType)>,
    to: DType,
    var_name: Seq<char>,
    value_name: Seq<char>,
) -> Result<TableView, ErrorView> {
    let rows: nat = row_count(t, ids);
    if let Some(j) = first_missing(t, value_names(vals)) {
        Err(ErrorView::ColumnNotFound { name: vals[j].0 })
    } else if let Some(j) = first_missing(t, ids) {
        Err(ErrorView::ColumnNotFound { name: ids[j] })
    } else if let Some(c) = first_failure(t, vals, to, rows) {
        Err(value_cell(t, vals, to, c)->Err_0)
    } else {
        Ok(
            inserted(
                inserted(id_table(t, ids, vals.len()), var_name, variable_column(vals, rows)),
                value_name,
                value_column(t, vals, to, rows),
            ),
        )
    }
}

/// The number of rows is the length of one of the identifier columns, and no
/// identifier column is longer.
pub proof fn lemma_row_count(t: TableView, ids: Seq<Seq<char>>)
    ensures
        forall|j: int|
            0 <= j < ids.len() ==> lookup(t, #[trigger] ids[j]).unwrap().cells.len() <= row_count(
                t,
                ids,
            ),
        ids.len() > 0 ==> exists|j: int|
            0 <= j < ids.len() && lookup(t, #[trigger] ids[j]).unwrap().cells.len() == row_count(
                t,
                ids,
            ),
        ids.len() == 0 ==> row_count(t, ids) == 0,
    decreases ids.len(),
{
    if ids.len() > 0 {
        let front = ids.drop_last();
        lemma_row_count(t, front);
        assert forall|j: int| 0 <= j < ids.len() implies lookup(
            t,
            #[trigger] ids[j],
        ).unwrap().cells.len() <= row_count(t, ids) by {
            if j < front.len() {
                assert(front[j] == ids[j]);
            }
        }
        if lookup(t, ids.last()).unwrap().cells.len() > row_count(t, front) || front.len() == 0 {
            assert(ids[ids.len() - 1] == ids.last());
        } else {
            let j = choose|j: int|
                0 <= j < front.len() && lookup(t, #[trigger] front[j]).unwrap().cells.len()
                    == row_count(t, front);
            assert(front[j] == ids[j]);
        }
    }
}

/// Row `i` of the wide table and value column `j` meet at position
/// `i * k + j` of the long table, where `k` is the number of value columns:
/// there the variable column names value column `j`, the value column holds
/// what stands for row `i` of that column, and an expanded identifier column
/// holds its element of row `i`.
pub proof fn lemma_alignment(
    t: TableView,
    vals: Seq<(Seq<char>, DType)>,
    to: DType,
    rows: nat,
    id: ColumnView,
    i: int,
    j: int,
)
    requires
        0 <= i < rows,
        0 <= j < vals.len(),
    ensures
        0 <= i * vals.len() + j < rows * vals.len(),
        variable_column(vals, rows).cells.len() == rows * vals.len(),
        value_column(t, vals, to, rows).cells.len() == rows * vals.len(),
        expanded(id, vals.len()).cells.len() == id.cells.len() * vals.len(),
        variable_column(vals, rows).cells[i * vals.len() + j] == Scalar::Text(vals[j].0),
        first_failure(t, vals, to, rows) is None ==> value_column(t, vals, to, rows).cells[i
            * vals.len() + j] == coerce(
            lookup(t, vals[j].0).unwrap().cells[i],
            vals[j].1,
            to,
        ),
        i < id.cells.len() ==> expanded(id, vals.len()).cells[i * vals.len() + j] == id.cells[i],
{
    let k: int = vals.len() as int;
    let c: int = i * k + j;
    lemma_fundamental_div_mod_converse(c, k, i, j);
    assert(0 <= c < rows * k) by (nonlinear_arith)
        requires
            c == i * k + j,
            0 <= i < rows,
            0 <= j < k,
    ;
    if first_failure(t, vals, to, rows) is None {
        lemma_least((rows * vals.len()) as int, fails_at(t, vals, to));
        assert(!fails_at(t, vals, to)(c));
    }
    if i < id.cells.len() {
        lemma_repeat_each(id.cells, vals.len(), i, j);
    }
}

/// The identifier columns of the long table have names that differ from one
/// another.
pub proof fn lemma_id_table_distinct(t: TableView, ids: Seq<Seq<char>>, k: nat)
    ensures
        names_distinct(id_table(t, ids, k)),
    decreases ids.len(),
{
    if ids.len() > 0 {
        lemma_id_table_distinct(t, ids.drop_last(), k);
        lemma_lookup_inserted(
            id_table(t, ids.drop_last(), k),
            ids.last(),
            expanded(lookup(t, ids.last()).unwrap(), k),
            ids.last(),
        );
    }
}

/// The position of the first of `names` for which `df` has no column.
fn find_missing(df: &DataFrame, names: &[&str]) -> (res: Option<usize>)
    ensures
        match first_missing(df@, names_of(names@)) {
            Some(j) => 0 <= j < names@.len() && res == Some(j as usize),
            None => res is None,
        },
{
    let ghost p = lacks(df@, names_of(names@));
    let mut j: usize = 0;
    while j < names.len()
        invariant
            j <= names@.len(),
            p == lacks(df@, names_of(names@)),
            forall|i: int| 0 <= i < j ==> !#[trigger] p(i),
        decreases names@.len() - j,
    {
        if df.get_col(names[j]).is_none() {
            proof {
                assert(p(j as int));
                lemma_least_is(names@.len() as int, p, j as int);
            }
            return Some(j);
        }
        assert(!p(j as int));
        j += 1;
    }
    proof {
        lemma_least(names@.len() as int, p);
    }
    None
}

/// The position of the first value column for which `df` has no column.
fn find_missing_value(df: &DataFrame, value_vars: &[(&str, DType)]) -> (res: Option<usize>)
    ensures
        match first_missing(df@, value_names(declared(value_vars@))) {
            Some(j) => 0 <= j < value_vars@.len() && res == Some(j as usize),
            None => res is None,
        },
{
    let ghost names = value_names(declared(value_vars@));
    let ghost p = lacks(df@, names);
    let mut j: usize = 0;
    while j < value_vars.len()
        invariant
            j <= value_vars@.len(),
            names == value_names(declared(value_vars@)),
            p == lacks(df@, names),
            forall|i: int| 0 <= i < j ==> !#[trigger] p(i),
        decreases value_vars@.len() - j,
    {
        if df.get_col(value_vars[j].0).is_none() {
            proof {
                assert(p(j as int));
                lemma_least_is(names.len() as int, p, j as int);
            }
            return Some(j);
        }
        assert(!p(j as int));
        j += 1;
    }
    proof {
        lemma_least(names.len() as int, p);
    }
    None
}

/// The identifier columns, each element `k` times in a row, in a table of
/// their own, and the number of rows of the wide table.
fn expand_ids(df: &DataFrame, id_vars: &[&str], k: usize) -> (res: (DataFrame, usize))
    requires
        first_missing(df@, names_of(id_vars@)) is None,
    ensures
        res.0@ == id_table(df@, names_of(id_vars@), k as nat),
        res.1 == row_count(df@, names_of(id_vars@)),
{
    let ghost names = names_of(id_vars@);
    let mut out = DataFrame::new();
    let mut rows: usize = 0;
    let mut j: usize = 0;
    proof {
        lemma_least(names.len() as int, lacks(df@, names));
    }
    while j < id_vars.len()
        invariant
            j <= id_vars@.len(),
            names == names_of(id_vars@),
            forall|i: int| 0 <= i < names.len() ==> !#[trigger] lacks(df@, names)(i),
            out@ == id_table(df@, names.take(j as int), k as nat),
            rows == row_count(df@, names.take(j as int)),
        decreases id_vars@.len() - j,
    {
        proof {
            assert(!lacks(df@, names)(j as int));
            assert(names.take(j + 1).drop_last() =~= names.take(j as int));
            assert(names.take(j + 1).last() == names[j as int]);
        }
        match df.get_col(id_vars[j]) {
            Some(col) => {
                if col.len() > rows {
                    rows = col.len();
                }
                out.add_col(id_vars[j].to_owned(), col.multiply_row(k));
            },
            None => {},
        }
        j += 1;
    }
    assert(names.take(names.len() as int) =~= names);
    (out, rows)
}

/// The variable column for `rows` rows.
fn build_variable(value_vars: &[(&str, DType)], rows: usize) -> (res: Array)
    ensures
        res@ == variable_column(declared(value_vars@), rows as nat),
{
    let k: usize = value_vars.len();
    let ghost vals = declared(value_vars@);
    let mut names: Vec<String> = Vec::new();
    let mut i: usize = 0;
    while i < rows
        invariant
            i <= rows,
            k == value_vars@.len(),
            vals == declared(value_vars@),
            names@.len() == i * k,
            forall|c: int| 0 <= c < names@.len() ==> (#[trigger] names@[c])@ == vals[c % (k as int)].0,
        decreases rows - i,
    {
        let mut j: usize = 0;
        while j < k
            invariant
                i < rows,
                j <= k,
                k == value_vars@.len(),
                vals == declared(value_vars@),
                names@.len() == i * k + j,
                forall|c: int|
                    0 <= c < names@.len() ==> (#[trigger] names@[c])@ == vals[c % (k as int)].0,
            decreases k - j,
        {
            proof {
                lemma_fundamental_div_mod_converse(i * k + j, k as int, i as int, j as int);
            }
            names.push(value_vars[j].0.to_owned());
            j += 1;
        }
        assert((i + 1) * k == i * k + k) by (nonlinear_arith);
        i += 1;
    }
    let res = Array::Str(ArrayData::from_vec(names));
    assert(res@.cells =~= variable_column(vals, rows as nat).cells);
    res
}

/// The value column for `rows` rows, or the first reason why it has none.
fn build_values(df: &DataFrame, value_vars: &[(&str, DType)], to: DType, rows: usize) -> (res:
    Result<Array, Error>)
    requires
        first_missing(df@, value_names(declared(value_vars@))) is None,
    ensures
        match first_failure(df@, declared(value_vars@), to, rows as nat) {
            Some(c) => fails_with(res, value_cell(df@, declared(value_vars@), to, c)->Err_0),
            None => res matches Ok(col) && col@ == value_column(
                df@,
                declared(value_vars@),
                to,
                rows as nat,
            ),
        },
{
    let k: usize = value_vars.len();
    let ghost vals = declared(value_vars@);
    let ghost p = fails_at(df@, vals, to);
    let mut out = Array::empty(to);
    let mut i: usize = 0;
    proof {
        lemma_least(value_names(vals).len() as int, lacks(df@, value_names(vals)));
    }
    while i < rows
        invariant
            i <= rows,
            k == value_vars@.len(),
            vals == declared(value_vars@),
            p == fails_at(df@, vals, to),
            forall|j: int| 0 <= j < k ==> !#[trigger] lacks(df@, value_names(vals))(j),
            out@.dtype == to,
            out@.cells.len() == i * k,
            forall|c: int|
                0 <= c < out@.cells.len() ==> value_cell(df@, vals, to, c) == Ok::<Scalar, ErrorView>(
                    #[trigger] out@.cells[c],
                ),
        decreases rows - i,
    {
        let mut j: usize = 0;
        while j < k
            invariant
                i < rows,
                j <= k,
                k == value_vars@.len(),
                vals == declared(value_vars@),
                p == fails_at(df@, vals, to),
                forall|j: int| 0 <= j < k ==> !#[trigger] lacks(df@, value_names(vals))(j),
                out@.dtype == to,
                out@.cells.len() == i * k + j,
                forall|c: int|
                    0 <= c < out@.cells.len() ==> value_cell(df@, vals, to, c) == Ok::<
                        Scalar,
                        ErrorView,
                    >(#[trigger] out@.cells[c]),
            decreases k - j,
        {
            let ghost c: int = i * k + j;
            proof {
                lemma_fundamental_div_mod_converse(c, k as int, i as int, j as int);
                assert(!lacks(df@, value_names(vals))(j as int));
                assert(c < rows * k) by (nonlinear_arith)
                    requires
                        c == i * k + j,
                        i < rows,
                        j < k,
                ;
                assert forall|b: int| 0 <= b < c implies !#[trigger] p(b) by {
                    assert(value_cell(df@, vals, to, b) == Ok::<Scalar, ErrorView>(out@.cells[b]));
                }
            }
            let name = value_vars[j].0;
            match df.get_col(name) {
                Some(col) => {
                    let actual = col.dtype_tag();
                    if actual != value_vars[j].1 {
                        proof {
                            assert(p(c));
                            lemma_least_is((rows * k) as int, p, c);
                        }
                        return Err(Error::ReshapeTypeMismatch { name: name.to_owned(), actual });
                    }
                    if i >= col.len() {
                        proof {
                            assert(p(c));
                            lemma_least_is((rows * k) as int, p, c);
                        }
                        return Err(Error::IndexOutOfRange { name: name.to_owned(), index: i });
                    }
                    if !can_coerce(actual, to) {
                        proof {
                            assert(p(c));
                            lemma_least_is((rows * k) as int, p, c);
                        }
                        return Err(Error::UnsupportedCoercion { from: actual, to });
                    }
                    push_coerced(&mut out, col, i);
                },
                None => {},
            }
            j += 1;
        }
        assert((i + 1) * k == i * k + k) by (nonlinear_arith);
        i += 1;
    }
    proof {
        assert forall|b: int| 0 <= b < rows * k implies !#[trigger] p(b) by {
            assert(value_cell(df@, vals, to, b) == Ok::<Scalar, ErrorView>(out@.cells[b]));
        }
        lemma_least((rows * k) as int, p);
        assert(out@.cells =~= value_column(df@, vals, to, rows as nat).cells);
    }
    Ok(out)
}

/// Turns the wide table `df` into its long form. Each column named in
/// `id_vars` is kept, with every row once for each value column. The columns
/// named in `value_vars`, each with the type of its elements, are gathered row
/// by row into one column of type `value_type` under `value_name`; beside it
/// the column `var_name` says from which column each value came. `df` stays as
/// it is. The table has as many rows as the longest identifier column.
///
/// Fails, in this order, with
/// - `ColumnNotFound` for the first value column that `df` lacks, then for the
///   first identifier column that it lacks;
/// - for the first row, and in it the first value column, that has no value:
///   `ReshapeTypeMismatch` where the column is not of the declared type,
///   `IndexOutOfRange` where it has no such row, `UnsupportedCoercion` where
///   its type is neither `value_type` nor, like `value_type`, an integer type.
pub fn melt(
    df: &DataFrame,
    id_vars: &[&str],
    value_vars: &[(&str, DType)],
    value_type: DType,
    var_name: &str,
    value_name: &str,
) -> (res: Result<DataFrame, Error>)
    ensures
        match melted(
            df@,
            names_of(id_vars@),
            declared(value_vars@),
            value_type,
            var_name@,
            value_name@,
        ) {
            Ok(t) => res matches Ok(out) && out@ == t,
            Err(e) => fails_with(res, e),
        },
        (exists|j: int| 0 <= j < value_vars@.len() && lookup(df@, value_vars@[j].0@) is None)
            ==> res matches Err(Error::ColumnNotFound { .. }),
        res matches Ok(out) ==> names_distinct(out@),
{
    let ghost vals = declared(value_vars@);
    proof {
        lemma_least(value_names(vals).len() as int, lacks(df@, value_names(vals)));
        if exists|j: int| 0 <= j < value_vars@.len() && lookup(df@, value_vars@[j].0@) is None {
            let j = choose|j: int|
                0 <= j < value_vars@.len() && lookup(df@, value_vars@[j].0@) is None;
            assert(lacks(df@, value_names(vals))(j));
        }
    }
    if let Some(j) = find_missing_value(df, value_vars) {
        return Err(Error::ColumnNotFound { name: value_vars[j].0.to_owned() });
    }
    if let Some(j) = find_missing(df, id_vars) {
        return Err(Error::ColumnNotFound { name: id_vars[j].to_owned() });
    }
    let k: usize = value_vars.len();
    let (mut out, rows) = expand_ids(df, id_vars, k);
    proof {
        lemma_id_table_distinct(df@, names_of(id_vars@), k as nat);
    }
    let var_col = build_variable(value_vars, rows);
    let value_col = match build_values(df, value_vars, value_type, rows) {
        Ok(col) => col,
        Err(e) => {
            return Err(e);
        },
    };
    out.add_col(var_name.to_owned(), var_col);
    out.add_col(value_name.to_owned(), value_col);
    Ok(out)
}

} // verus!
