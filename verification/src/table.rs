use vstd::prelude::*;

verus! {

/// The values of one column, by the column's type. A column whose values
/// none of the feed's rows read keeps only its length.
#[derive(Debug)]
pub enum ColumnData {
    Str(Vec<Option<String>>),
    Int8(Vec<Option<i8>>),
    UInt8(Vec<Option<u8>>),
    UInt32(Vec<Option<u32>>),
    Int64(Vec<Option<i64>>),
    Other(usize),
}

impl ColumnData {
    pub open spec fn len(self) -> nat {
        match self {
            ColumnData::Str(v) => v.len() as nat,
            ColumnData::Int8(v) => v.len() as nat,
            ColumnData::UInt8(v) => v.len() as nat,
            ColumnData::UInt32(v) => v.len() as nat,
            ColumnData::Int64(v) => v.len() as nat,
            ColumnData::Other(n) => n as nat,
        }
    }

    /// The number of values in the column.
    pub fn length(&self) -> (n: usize)
        ensures
            n == self.len(),
    {
        match self {
            ColumnData::Str(v) => v.len(),
            ColumnData::Int8(v) => v.len(),
            ColumnData::UInt8(v) => v.len(),
            ColumnData::UInt32(v) => v.len(),
            ColumnData::Int64(v) => v.len(),
            ColumnData::Other(n) => *n,
        }
    }
}

/// The cell of row `i` of a column that may be missing.
pub open spec fn cell_at<T>(col: Option<&Vec<Option<T>>>, i: int) -> Option<T> {
    match col {
        Some(v) => v@[i],
        None => None,
    }
}

/// A copy of a text cell.
pub fn clone_text(cell: &Option<String>) -> (copy: Option<String>)
    ensures
        copy == *cell,
{
    match cell {
        Some(s) => Some(s.clone()),
        None => None,
    }
}

/// A copy of the text cell of row `i` of a column that may be missing.
pub fn str_at(col: Option<&Vec<Option<String>>>, i: usize) -> (cell: Option<String>)
    requires
        col matches Some(v) ==> i < v.len(),
    ensures
        cell == cell_at(col, i as int),
{
    match col {
        Some(v) => clone_text(&v[i]),
        None => None,
    }
}

/// The cell of row `i` of a column of plain values that may be missing.
pub fn value_at<T: Copy>(col: Option<&Vec<Option<T>>>, i: usize) -> (cell: Option<T>)
    requires
        col matches Some(v) ==> i < v.len(),
    ensures
        cell == cell_at(col, i as int),
{
    match col {
        Some(v) => v[i],
        None => None,
    }
}

/// A named column.
#[derive(Debug)]
pub struct Column {
    pub name: String,
    pub data: ColumnData,
}

/// Why a set of columns does not make a table.
#[derive(Debug, Clone, Copy, PartialEq, Eq, Structural)]
pub enum TableError {
    /// Two columns have this index pair and the same name.
    DuplicateName(usize, usize),
    /// The column at this index does not have the table's height.
    LengthMismatch(usize),
}

/// A table of named, typed columns of one common height, with distinct
/// column names: the data frame that a feed file is read into.
pub struct Table {
    height: usize,
    columns: Vec<Column>,
}

/// Every column has the given height.
pub open spec fn columns_have_height(columns: Seq<Column>, height: nat) -> bool {
    forall|i: int| 0 <= i < columns.len() ==> (#[trigger] columns[i]).data.len() == height
}

/// No two columns share a name.
pub open spec fn names_distinct(columns: Seq<Column>) -> bool {
    forall|i: int, j: int|
        0 <= i < columns.len() && 0 <= j < columns.len() && i != j ==> (#[trigger] columns[i]).name@
            != (#[trigger] columns[j]).name@
}

/// The index of the column with the given name, if there is one.
pub open spec fn column_index(columns: Seq<Column>, name: Seq<char>) -> Option<int> {
    if exists|i: int| 0 <= i < columns.len() && (#[trigger] columns[i]).name@ == name {
        Some(choose|i: int| 0 <= i < columns.len() && (#[trigger] columns[i]).name@ == name)
    } else {
        None
    }
}

impl Table {
    #[verifier::type_invariant]
    spec fn well_formed(self) -> bool {
        &&& columns_have_height(self.columns@, self.height as nat)
        &&& names_distinct(self.columns@)
    }

    pub closed spec fn spec_height(self) -> nat {
        self.height as nat
    }

    pub closed spec fn spec_columns(self) -> Seq<Column> {
        self.columns@
    }

    /// The column with the given name, if the table has one.
    pub open spec fn spec_column(self, name: Seq<char>) -> Option<Column> {
        match column_index(self.spec_columns(), name) {
            Some(i) => Some(self.spec_columns()[i]),
            None => None,
        }
    }

    /// The cell of row `i` of the text column `name`; `None` where the
    /// column is missing, is not a text column, or the cell is empty.
    pub open spec fn str_cell(self, name: Seq<char>, i: int) -> Option<String> {
        match self.spec_column(name) {
            Some(c) => match c.data {
                ColumnData::Str(v) => v@[i],
                _ => None,
            },
            None => None,
        }
    }

    /// The cell of row `i` of the `i8` column `name`, as `str_cell` does.
    pub open spec fn int8_cell(self, name: Seq<char>, i: int) -> Option<i8> {
        match self.spec_column(name) {
            Some(c) => match c.data {
                ColumnData::Int8(v) => v@[i],
                _ => None,
            },
            None => None,
        }
    }

    /// The cell of row `i` of the `u8` column `name`, as `str_cell` does.
    pub open spec fn uint8_cell(self, name: Seq<char>, i: int) -> Option<u8> {
        match self.spec_column(name) {
            Some(c) => match c.data {
                ColumnData::UInt8(v) => v@[i],
                _ => None,
            },
            None => None,
        }
    }

    /// The cell of row `i` of the `u32` column `name`, as `str_cell` does.
    pub open spec fn uint32_cell(self, name: Seq<char>, i: int) -> Option<u32> {
        match self.spec_column(name) {
            Some(c) => match c.data {
                ColumnData::UInt32(v) => v@[i],
                _ => None,
            },
            None => None,
        }
    }

    /// The cell of row `i` of the `i64` column `name`, as `str_cell` does.
    pub open spec fn int64_cell(self, name: Seq<char>, i: int) -> Option<i64> {
        match self.spec_column(name) {
            Some(c) => match c.data {
                ColumnData::Int64(v) => v@[i],
                _ => None,
            },
            None => None,
        }
    }

    /// The table has a text column `name` whose rows all hold a value.
    pub open spec fn has_full_str_column(self, name: Seq<char>) -> bool {
        &&& self.has_str_column(name)
        &&& forall|i: int| 0 <= i < self.spec_height() ==> (#[trigger] self.str_cell(name, i)) is Some
    }

    /// The table has a `u32` column `name` whose rows all hold a value.
    pub open spec fn has_full_uint32_column(self, name: Seq<char>) -> bool {
        &&& self.spec_column(name) matches Some(c) && c.data is UInt32
        &&& forall|i: int| 0 <= i < self.spec_height() ==> (#[trigger] self.uint32_cell(name, i)) is Some
    }

    /// The table has a column `name` of type text.
    pub open spec fn has_str_column(self, name: Seq<char>) -> bool {
        self.spec_column(name) matches Some(c) && c.data is Str
    }

    /// The table has a column `name` of type `i64`.
    pub open spec fn has_int64_column(self, name: Seq<char>) -> bool {
        self.spec_column(name) matches Some(c) && c.data is Int64
    }

    /// Builds a table of the given height from columns. Refused, as a data
    /// frame refuses them, where a column has another length or two columns
    /// share a name; the first offending column (by index) is reported.
    pub fn new(height: usize, columns: Vec<Column>) -> (res: Result<Table, TableError>)
        ensures
            res matches Ok(t) ==> t.spec_height() == height && t.spec_columns() == columns@,
            res is Ok <==> columns_have_height(columns@, height as nat) && names_distinct(
                columns@,
            ),
            res matches Err(TableError::LengthMismatch(k)) ==> {
                &&& k < columns.len()
                &&& columns@[k as int].data.len() != height
                &&& forall|i: int| 0 <= i < k ==> (#[trigger] columns@[i]).data.len() == height
            },
            res matches Err(TableError::DuplicateName(a, b)) ==> {
                &&& a < b < columns.len()
                &&& columns@[a as int].name@ == columns@[b as int].name@
                &&& columns_have_height(columns@, height as nat)
            },
    {
        let n = columns.len();
        let mut k: usize = 0;
        while k < n
            invariant
                k <= n == columns.len(),
                forall|i: int| 0 <= i < k ==> (#[trigger] columns@[i]).data.len() == height,
            decreases n - k,
        {
            if columns[k].data.length() != height {
                return Err(TableError::LengthMismatch(k));
            }
            k = k + 1;
        }
        let mut b: usize = 0;
        while b < n
            invariant
                b <= n == columns.len(),
                columns_have_height(columns@, height as nat),
                forall|i: int, j: int|
                    0 <= i < j < b ==> (#[trigger] columns@[i]).name@ != (#[trigger] columns@[j]).name@,
            decreases n - b,
        {
            let mut a: usize = 0;
            while a < b
                invariant
                    a <= b < n == columns.len(),
                    columns_have_height(columns@, height as nat),
                    forall|i: int| 0 <= i < a ==> (#[trigger] columns@[i]).name@ != columns@[b as int].name@,
                decreases b - a,
            {
                if columns[a].name == columns[b].name {
                    return Err(TableError::DuplicateName(a, b));
                }
                a = a + 1;
            }
            b = b + 1;
        }
        assert(names_distinct(columns@)) by {
            assert forall|i: int, j: int|
                0 <= i < columns@.len() && 0 <= j < columns@.len() && i != j implies (#[trigger] columns@[i]).name@
                != (#[trigger] columns@[j]).name@ by {
                if i < j {
                } else {
                }
            }
        }
        Ok(Table { height, columns })
    }

    /// The number of rows.
    pub fn height(&self) -> (h: usize)
        ensures
            h == self.spec_height(),
    {
        self.height
    }

    /// The columns, in order.
    pub fn columns(&self) -> (c: &Vec<Column>)
        ensures
            c@ == self.spec_columns(),
    {
        &self.columns
    }

    /// The column with the given name, if the table has one.
    pub fn column(&self, name: &str) -> (c: Option<&Column>)
        ensures
            c matches Some(col) ==> self.spec_column(name@) == Some(*col),
            c is None <==> self.spec_column(name@) is None,
    {
        proof {
            use_type_invariant(self);
        }
        let key = name.to_owned();
        let n = self.columns.len();
        let mut k: usize = 0;
        while k < n
            invariant
                k <= n == self.columns@.len(),
                key@ == name@,
                names_distinct(self.columns@),
                forall|i: int| 0 <= i < k ==> (#[trigger] self.columns@[i]).name@ != name@,
            decreases n - k,
        {
            if self.columns[k].name == key {
                proof {
                    assert(self.columns@[k as int].name@ == name@);
                    let j = choose|i: int|
                        0 <= i < self.columns@.len() && (#[trigger] self.columns@[i]).name@ == name@;
                    if j != k {
                        assert(self.columns@[j].name@ != self.columns@[k as int].name@);
                    }
                    assert(column_index(self.columns@, name@) == Some(k as int));
                }
                return Some(&self.columns[k]);
            }
            k = k + 1;
        }
        None
    }

    /// The values of the text column `name`, if the table has one.
    pub fn str_column(&self, name: &str) -> (v: Option<&Vec<Option<String>>>)
        ensures
            v matches Some(vals) ==> vals.len() == self.spec_height(),
            forall|i: int|
                0 <= i < self.spec_height() ==> #[trigger] self.str_cell(name@, i) == cell_at(v, i),
            v is Some <==> self.has_str_column(name@),
    {
        proof {
            use_type_invariant(self);
        }
        match self.column(name) {
            Some(c) => match &c.data {
                ColumnData::Str(vals) => {
                    proof {
                        let k = column_index(self.columns@, name@).unwrap();
                        assert(self.columns@[k].data.len() == self.height);
                    }
                    Some(vals)
                },
                _ => None,
            },
            None => None,
        }
    }

    /// The values of the `i8` column `name`, if the table has one.
    pub fn int8_column(&self, name: &str) -> (v: Option<&Vec<Option<i8>>>)
        ensures
            v matches Some(vals) ==> vals.len() == self.spec_height(),
            forall|i: int|
                0 <= i < self.spec_height() ==> #[trigger] self.int8_cell(name@, i) == cell_at(v, i),
            v is Some <==> (self.spec_column(name@) matches Some(c) && c.data is Int8),
    {
        proof {
            use_type_invariant(self);
        }
        match self.column(name) {
            Some(c) => match &c.data {
                ColumnData::Int8(vals) => {
                    proof {
                        let k = column_index(self.columns@, name@).unwrap();
                        assert(self.columns@[k].data.len() == self.height);
                    }
                    Some(vals)
                },
                _ => None,
            },
            None => None,
        }
    }

    /// The values of the `u8` column `name`, if the table has one.
    pub fn uint8_column(&self, name: &str) -> (v: Option<&Vec<Option<u8>>>)
        ensures
            v matches Some(vals) ==> vals.len() == self.spec_height(),
            forall|i: int|
                0 <= i < self.spec_height() ==> #[trigger] self.uint8_cell(name@, i) == cell_at(v, i),
            v is Some <==> (self.spec_column(name@) matches Some(c) && c.data is UInt8),
    {
        proof {
            use_type_invariant(self);
        }
        match self.column(name) {
            Some(c) => match &c.data {
                ColumnData::UInt8(vals) => {
                    proof {
                        let k = column_index(self.columns@, name@).unwrap();
                        assert(self.columns@[k].data.len() == self.height);
                    }
                    Some(vals)
                },
                _ => None,
            },
            None => None,
        }
    }

    /// The values of the `u32` column `name`, if the table has one.
    pub fn uint32_column(&self, name: &str) -> (v: Option<&Vec<Option<u32>>>)
        ensures
            v matches Some(vals) ==> vals.len() == self.spec_height(),
            forall|i: int|
                0 <= i < self.spec_height() ==> #[trigger] self.uint32_cell(name@, i) == cell_at(v, i),
            v is Some <==> (self.spec_column(name@) matches Some(c) && c.data is UInt32),
    {
        proof {
            use_type_invariant(self);
        }
        match self.column(name) {
            Some(c) => match &c.data {
                ColumnData::UInt32(vals) => {
                    proof {
                        let k = column_index(self.columns@, name@).unwrap();
                        assert(self.columns@[k].data.len() == self.height);
                    }
                    Some(vals)
                },
                _ => None,
            },
            None => None,
        }
    }

    /// The values of the `i64` column `name`, if the table has one.
    pub fn int64_column(&self, name: &str) -> (v: Option<&Vec<Option<i64>>>)
        ensures
            v matches Some(vals) ==> vals.len() == self.spec_height(),
            forall|i: int|
                0 <= i < self.spec_height() ==> #[trigger] self.int64_cell(name@, i) == cell_at(v, i),
            v is Some <==> self.has_int64_column(name@),
    {
        proof {
            use_type_invariant(self);
        }
        match self.column(name) {
            Some(c) => match &c.data {
                ColumnData::Int64(vals) => {
                    proof {
                        let k = column_index(self.columns@, name@).unwrap();
                        assert(self.columns@[k].data.len() == self.height);
                    }
                    Some(vals)
                },
                _ => None,
            },
            None => None,
        }
    }
}

} // verus!
