//! Reading the result of `DESCRIBE <table>`: which column holds the field
//! name, its type, whether it is nullable, and whether it is a key.
use vstd::prelude::*;
use crate::text::{to_lowercase, to_uppercase, str_eq, lower_case, upper_case};

verus! {

/// First index, from `i` on, of a column whose lower-case form is that of `name`.
pub open spec fn column_index_from(columns: Seq<Seq<char>>, name: Seq<char>, i: int) -> Option<int>
    decreases columns.len() - i,
{
    if i < 0 || i >= columns.len() {
        None
    } else if lower_case(columns[i]) == lower_case(name) {
        Some(i)
    } else {
        column_index_from(columns, name, i + 1)
    }
}

/// Index of the first column named `name`, case ignored.
pub open spec fn column_index(columns: Seq<Seq<char>>, name: Seq<char>) -> Option<int> {
    column_index_from(columns, name, 0)
}

/// Position of the first of `lowered` equal to `wanted`.
pub fn first_equal(lowered: &Vec<String>, wanted: &str) -> (r: Option<usize>)
    ensures
        match r {
            Some(i) => i < lowered@.len() && lowered@[i as int]@ == wanted@ && forall|j: int|
                0 <= j < i ==> lowered@[j]@ != wanted@,
            None => forall|j: int| 0 <= j < lowered@.len() ==> lowered@[j]@ != wanted@,
        },
{
    let mut i: usize = 0;
    while i < lowered.len()
        invariant
            i <= lowered@.len(),
            forall|j: int| 0 <= j < i ==> lowered@[j]@ != wanted@,
        decreases lowered@.len() - i,
    {
        if str_eq(lowered[i].as_str(), wanted) {
            return Some(i);
        }
        i += 1;
    }
    None
}

proof fn lemma_column_index_from(columns: Seq<Seq<char>>, name: Seq<char>, i: int, k: Option<int>)
    requires
        0 <= i <= columns.len(),
        forall|j: int| i <= j < columns.len() && (k matches Some(kk) ==> j < kk) ==> lower_case(columns[j])
            != lower_case(name),
        k matches Some(kk) ==> i <= kk < columns.len() && lower_case(columns[kk]) == lower_case(name),
    ensures
        column_index_from(columns, name, i) == k,
    decreases columns.len() - i,
{
    if i < columns.len() && !(k == Some(i)) {
        lemma_column_index_from(columns, name, i + 1, k);
    }
}

/// Position of the first column called `name`, comparing lower-case forms.
pub fn col_idx(columns: &Vec<String>, name: &str) -> (r: Option<usize>)
    ensures
        r == (match column_index(columns.deep_view(), name@) {
            Some(i) => Some(i as usize),
            None => None::<usize>,
        }),
{
    let ghost cols = columns.deep_view();
    let mut lowered: Vec<String> = Vec::new();
    let mut i: usize = 0;
    while i < columns.len()
        invariant
            i <= columns@.len(),
            cols == columns.deep_view(),
            lowered@.len() == i,
            forall|j: int| 0 <= j < i ==> (#[trigger] lowered@[j])@ == lower_case(cols[j]),
        decreases columns@.len() - i,
    {
        assert(cols[i as int] == columns@[i as int]@);
        lowered.push(to_lowercase(columns[i].as_str()));
        i += 1;
    }
    let wanted = to_lowercase(name);
    let r = first_equal(&lowered, wanted.as_str());
    proof {
        assert forall|j: int| 0 <= j < cols.len() && (r matches Some(kk) ==> j < kk) implies lower_case(cols[j])
            != lower_case(name@) by {
            assert(lowered@[j]@ == lower_case(cols[j]));
        }
        match r {
            Some(k) => lemma_column_index_from(cols, name@, 0, Some(k as int)),
            None => lemma_column_index_from(cols, name@, 0, None),
        }
    }
    r
}

/// Where the parts of a column description are in a `DESCRIBE` row.
pub struct DescribeLayout {
    pub field: usize,
    pub ty: usize,
    pub null: Option<usize>,
    pub key: Option<usize>,
}

pub open spec fn index_or(i: Option<int>, default: int) -> int {
    match i {
        Some(k) => k,
        None => default,
    }
}

pub open spec fn opt_index(i: Option<int>) -> Option<usize> {
    match i {
        Some(k) => Some(k as usize),
        None => None,
    }
}

/// The layout of a `DESCRIBE` result with these columns: `Field` (else the
/// first column), `Type` (else the second), `Null` and `Key` when present.
pub open spec fn layout_of(columns: Seq<Seq<char>>) -> DescribeLayout {
    DescribeLayout {
        field: index_or(column_index(columns, "Field"@), 0) as usize,
        ty: index_or(column_index(columns, "Type"@), 1) as usize,
        null: opt_index(column_index(columns, "Null"@)),
        key: opt_index(column_index(columns, "Key"@)),
    }
}

pub fn describe_layout(columns: &Vec<String>) -> (l: DescribeLayout)
    ensures
        l == layout_of(columns.deep_view()),
{
    let field = match col_idx(columns, "Field") {
        Some(i) => i,
        None => 0,
    };
    let ty = match col_idx(columns, "Type") {
        Some(i) => i,
        None => 1,
    };
    DescribeLayout { field, ty, null: col_idx(columns, "Null"), key: col_idx(columns, "Key") }
}

/// Whether `row` has every cell that the layout points at (the key only
/// when `with_key`).
pub open spec fn row_fits(l: DescribeLayout, row: Seq<Seq<char>>, with_key: bool) -> bool {
    &&& l.field < row.len()
    &&& l.ty < row.len()
    &&& (l.null matches Some(k) ==> k < row.len())
    &&& (with_key ==> (l.key matches Some(k) ==> k < row.len()))
}

pub open spec fn rows_fit(l: DescribeLayout, rows: Seq<Seq<Seq<char>>>, with_key: bool) -> bool {
    forall|i: int| 0 <= i < rows.len() ==> row_fits(l, #[trigger] rows[i], with_key)
}

pub fn check_rows_fit(l: &DescribeLayout, rows: &Vec<Vec<String>>, with_key: bool) -> (b: bool)
    ensures
        b == rows_fit(*l, rows.deep_view(), with_key),
{
    let ghost rv = rows.deep_view();
    let mut i: usize = 0;
    while i < rows.len()
        invariant
            i <= rows@.len(),
            rv == rows.deep_view(),
            forall|k: int| 0 <= k < i ==> row_fits(*l, #[trigger] rv[k], with_key),
        decreases rows@.len() - i,
    {
        let n = rows[i].len();
        assert(rv[i as int].len() == n);
        let ok = l.field < n && l.ty < n && match l.null {
            Some(k) => k < n,
            None => true,
        } && (!with_key || match l.key {
            Some(k) => k < n,
            None => true,
        });
        if !ok {
            assert(!row_fits(*l, rv[i as int], with_key));
            return false;
        }
        i += 1;
    }
    true
}

/// Whether a `Null` cell says the column is nullable: its upper-case form is `YES`.
pub open spec fn says_yes(cell: Seq<char>) -> bool {
    upper_case(cell) == "YES"@
}

/// Nullability of a described column: `YES` in the `Null` column, and
/// nullable when there is no such column.
pub open spec fn nullable(l: DescribeLayout, row: Seq<Seq<char>>) -> bool {
    match l.null {
        Some(k) => says_yes(row[k as int]),
        None => true,
    }
}

/// Whether the upper-case form of `s` is `lit`.
pub fn upper_is(s: &str, lit: &str) -> (b: bool)
    ensures
        b == (upper_case(s@) == lit@),
{
    let u = to_uppercase(s);
    str_eq(u.as_str(), lit)
}

pub fn is_nullable(l: &DescribeLayout, row: &Vec<String>) -> (b: bool)
    requires
        row_fits(*l, row.deep_view(), false),
    ensures
        b == nullable(*l, row.deep_view()),
{
    match l.null {
        Some(k) => upper_is(row[k].as_str(), "YES"),
        None => true,
    }
}

} // verus!
