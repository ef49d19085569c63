use crate::array::{Array, ColumnView};
use crate::least::{least, lemma_least, lemma_least_is};
use indexmap::IndexMap;
use vstd::prelude::*;

verus! {

/// The `IndexMap` of the indexmap crate: a hash map that keeps its entries in
/// the order in which their keys came in. Nothing inside it is visible here;
/// what it holds is `map_columns`.
#[verifier::external_type_specification]
#[verifier::external_body]
#[verifier::reject_recursive_types(K)]
#[verifier::reject_recursive_types(V)]
#[verifier::reject_recursive_types(S)]
pub struct ExIndexMap<K, V, S>(IndexMap<K, V, S>);

/// `IndexMap`'s `clone`, which the derived `Clone` of a dataframe calls. Nothing
/// is stated of the copy.
pub assume_specification<K, V, S>[ <IndexMap<K, V, S> as Clone>::clone ](
    m: &IndexMap<K, V, S>,
) -> IndexMap<K, V, S> where K: Clone, V: Clone, S: Clone
;

/// A table as its columns in order, each with its name.
pub type TableView = Seq<(Seq<char>, ColumnView)>;

/// What a map of columns holds: its entries in the map's order, each key as
/// its characters and each column as its view.
pub uninterp spec fn map_columns(m: IndexMap<String, Array>) -> TableView;

/// Whether the column at a position of `t` is named `name`.
pub open spec fn named(t: TableView, name: Seq<char>) -> spec_fn(int) -> bool {
    |i: int| t[i].0 == name
}

/// The first position of `t` whose column is named `name`.
pub open spec fn index_of(t: TableView, name: Seq<char>) -> Option<int> {
    least(t.len() as int, named(t, name))
}

/// The column of `t` that is named `name`.
pub open spec fn lookup(t: TableView, name: Seq<char>) -> Option<ColumnView> {
    match index_of(t, name) {
        Some(i) => Some(t[i].1),
        None => None,
    }
}

/// `t` with `col` under `name`: in the place of the column that had the name,
/// or at the end where none had it.
pub open spec fn inserted(t: TableView, name: Seq<char>, col: ColumnView) -> TableView {
    match index_of(t, name) {
        Some(i) => t.update(i, (name, col)),
        None => t.push((name, col)),
    }
}

/// No two columns of `t` share a name.
pub open spec fn names_distinct(t: TableView) -> bool {
    forall|i: int, j: int| 0 <= i < j < t.len() ==> t[i].0 != t[j].0
}

/// Makes an empty map with `IndexMap::new`.
#[verifier::external_body]
fn map_new() -> (m: IndexMap<String, Array>)
    ensures
        map_columns(m) == Seq::<(Seq<char>, ColumnView)>::empty(),
{
    IndexMap::new()
}

/// Puts a column into the map with `IndexMap::insert`. Where the map has the
/// key, the entry keeps its place and gets the new column; where it has not,
/// the new entry goes last.
#[verifier::external_body]
fn map_insert(m: &mut IndexMap<String, Array>, key: String, value: Array)
    ensures
        map_columns(*final(m)) == inserted(map_columns(*old(m)), key@, value@),
{
    m.insert(key, value);
}

/// Looks a column up with `IndexMap::get`: the column stored under the key,
/// `None` where the map has no such key.
#[verifier::external_body]
fn map_get<'a>(m: &'a IndexMap<String, Array>, key: &str) -> (res: Option<&'a Array>)
    ensures
        match lookup(map_columns(*m), key@) {
            Some(c) => res matches Some(a) && a@ == c,
            None => res is None,
        },
{
    m.get(key)
}

/// Named columns in the order in which their names came in. No two columns
/// share a name: `new` and `add_col` keep `names_distinct`.
#[derive(Debug, Clone)]
pub struct DataFrame {
    pub columns: IndexMap<String, Array>,
}

impl View for DataFrame {
    type V = TableView;

    open spec fn view(&self) -> TableView {
        map_columns(self.columns)
    }
}

impl DataFrame {
    /// A dataframe without columns.
    pub fn new() -> (res: Self)
        ensures
            res@ == Seq::<(Seq<char>, ColumnView)>::empty(),
            names_distinct(res@),
    {
        DataFrame { columns: map_new() }
    }

    /// Puts `new_array` under `name`. A column that had the name is replaced
    /// where it stood; a new name goes last.
    pub fn add_col(&mut self, name: String, new_array: Array)
        ensures
            final(self)@ == inserted(old(self)@, name@, new_array@),
            lookup(final(self)@, name@) == Some(new_array@),
            names_distinct(old(self)@) ==> names_distinct(final(self)@),
    {
        proof {
            lemma_lookup_inserted(self@, name@, new_array@, name@);
        }
        map_insert(&mut self.columns, name, new_array);
    }

    /// The column named `col_name`, if there is one.
    pub fn get_col<'a>(&'a self, col_name: &str) -> (res: Option<&'a Array>)
        ensures
            match lookup(self@, col_name@) {
                Some(c) => res matches Some(a) && a@ == c,
                None => res is None,
            },
    {
        map_get(&self.columns, col_name)
    }
}

/// What `index_of` returns is a position of a column named `name`, with no
/// such column before it; `None` means that no column has the name.
pub proof fn lemma_index_of(t: TableView, name: Seq<char>)
    ensures
        match index_of(t, name) {
            Some(i) => 0 <= i < t.len() && t[i].0 == name && forall|j: int|
                0 <= j < i ==> (#[trigger] t[j]).0 != name,
            None => forall|j: int| 0 <= j < t.len() ==> (#[trigger] t[j]).0 != name,
        },
{
    let p = named(t, name);
    lemma_least(t.len() as int, p);
    match index_of(t, name) {
        Some(i) => {
            assert(p(i));
            assert forall|j: int| 0 <= j < i implies (#[trigger] t[j]).0 != name by {
                assert(!p(j));
            }
        },
        None => {
            assert forall|j: int| 0 <= j < t.len() implies (#[trigger] t[j]).0 != name by {
                assert(!p(j));
            }
        },
    }
}

/// The first position of a column named `name` is what `index_of` returns.
pub proof fn lemma_index_of_is(t: TableView, name: Seq<char>, i: int)
    requires
        0 <= i < t.len(),
        t[i].0 == name,
        forall|j: int| 0 <= j < i ==> (#[trigger] t[j]).0 != name,
    ensures
        index_of(t, name) == Some(i),
{
    let p = named(t, name);
    assert(p(i));
    assert forall|j: int| 0 <= j < i implies !#[trigger] p(j) by {
        assert(t[j].0 != name);
    }
    lemma_least_is(t.len() as int, p, i);
}

/// A column that was put under a name is the column found under that name,
/// the columns under other names are as they were, and the table has one
/// column more only where the name is new.
pub proof fn lemma_lookup_inserted(t: TableView, name: Seq<char>, col: ColumnView, other: Seq<char>)
    ensures
        lookup(inserted(t, name, col), name) == Some(col),
        other != name ==> lookup(inserted(t, name, col), other) == lookup(t, other),
        names_distinct(t) ==> names_distinct(inserted(t, name, col)),
        inserted(t, name, col).len() == if lookup(t, name) is Some {
            t.len()
        } else {
            t.len() + 1
        },
{
    let u = inserted(t, name, col);
    lemma_index_of(t, name);
    lemma_index_of(t, other);
    lemma_index_of(u, other);
    let at = match index_of(t, name) {
        Some(i) => i,
        None => t.len() as int,
    };
    assert(u[at] == (name, col));
    assert(forall|j: int| 0 <= j < u.len() && j != at ==> u[j] == t[j]);
    assert forall|j: int| 0 <= j < at implies (#[trigger] u[j]).0 != name by {
        assert(t[j].0 != name);
    }
    lemma_index_of_is(u, name, at);
    if other != name {
        match index_of(t, other) {
            Some(i) => {
                assert(u[i] == t[i]);
                assert forall|j: int| 0 <= j < i implies (#[trigger] u[j]).0 != other by {
                    assert(t[j].0 != other);
                }
                lemma_index_of_is(u, other, i);
            },
            None => {
                assert forall|j: int| 0 <= j < u.len() implies (#[trigger] u[j]).0 != other by {
                    if j != at {
                        assert(t[j].0 != other);
                    }
                }
            },
        }
    }
    if names_distinct(t) {
        assert forall|i: int, j: int| 0 <= i < j < u.len() implies u[i].0 != u[j].0 by {
            if i != at && j != at {
                assert(t[i].0 != t[j].0);
            } else if i == at && j < t.len() {
                assert(t[i].0 != t[j].0);
            } else if j == at && j < t.len() {
                assert(t[i].0 != t[j].0);
            } else {
                assert(t[i].0 != name);
            }
        }
    }
}

/// Putting a column under a name twice leaves what putting only the later
/// column leaves.
pub proof fn lemma_inserted_twice(
    t: TableView,
    name: Seq<char>,
    earlier: ColumnView,
    later: ColumnView,
)
    ensures
        inserted(inserted(t, name, earlier), name, later) == inserted(t, name, later),
        lookup(inserted(inserted(t, name, earlier), name, later), name) == Some(later),
{
    let u = inserted(t, name, earlier);
    lemma_index_of(t, name);
    lemma_lookup_inserted(u, name, later, name);
    let at = match index_of(t, name) {
        Some(i) => i,
        None => t.len() as int,
    };
    assert(u[at] == (name, earlier));
    assert forall|j: int| 0 <= j < at implies (#[trigger] u[j]).0 != name by {
        assert(t[j].0 != name);
    }
    lemma_index_of_is(u, name, at);
    assert(inserted(u, name, later) =~= inserted(t, name, later));
}

} // verus!
