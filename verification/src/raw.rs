//! The transient, version-tagged shape a raw audit report arrives in.
//!
//! Upstream collaborators decode the tool's JSON into this loose key-value
//! form; the schema adapters in [`crate::adapter`] then map it onto the
//! canonical model. Keys unknown to an adapter are simply ignored, which is
//! what keeps normalization forward-compatible.

use vstd::prelude::*;

verus! {

/// A single loose value inside a detail-table row.
#[derive(Debug, Clone)]
pub enum RawScalar {
    /// A number, fixed-point in thousandths of its unit.
    Number(i64),
    Text(String),
    Flag(bool),
}

/// One named cell of a detail-table row.
#[derive(Debug, Clone)]
pub struct RawCell {
    pub key: String,
    pub value: RawScalar,
}

/// One row of a detail table.
#[derive(Debug, Clone)]
pub struct RawRow {
    pub cells: Vec<RawCell>,
}

/// A top-level loose value of a raw report.
#[derive(Debug, Clone)]
pub enum RawValue {
    /// A number, fixed-point in thousandths of its unit.
    Number(i64),
    Text(String),
    Flag(bool),
    /// A detail table: a list of rows of named cells.
    Rows(Vec<RawRow>),
}

/// One top-level field of a raw report.
#[derive(Debug, Clone)]
pub struct RawField {
    pub key: String,
    pub value: RawValue,
}

/// A raw report: the fields of one version-tagged external payload.
#[derive(Debug, Clone)]
pub struct RawReport {
    pub fields: Vec<RawField>,
}

/// Mathematical image of a [`RawScalar`].
pub enum RawScalarV {
    Number(i64),
    Text(Seq<char>),
    Flag(bool),
}

impl DeepView for RawScalar {
    type V = RawScalarV;

    open spec fn deep_view(&self) -> RawScalarV {
        match self {
            RawScalar::Number(n) => RawScalarV::Number(*n),
            RawScalar::Text(s) => RawScalarV::Text(s@),
            RawScalar::Flag(b) => RawScalarV::Flag(*b),
        }
    }
}

/// Mathematical image of a [`RawCell`].
pub struct RawCellV {
    pub key: Seq<char>,
    pub value: RawScalarV,
}

impl DeepView for RawCell {
    type V = RawCellV;

    open spec fn deep_view(&self) -> RawCellV {
        RawCellV { key: self.key@, value: self.value.deep_view() }
    }
}

/// Mathematical image of a [`RawRow`].
pub struct RawRowV {
    pub cells: Seq<RawCellV>,
}

impl DeepView for RawRow {
    type V = RawRowV;

    open spec fn deep_view(&self) -> RawRowV {
        RawRowV { cells: self.cells.deep_view() }
    }
}

/// Mathematical image of a [`RawValue`].
pub enum RawValueV {
    Number(i64),
    Text(Seq<char>),
    Flag(bool),
    Rows(Seq<RawRowV>),
}

impl DeepView for RawValue {
    type V = RawValueV;

    open spec fn deep_view(&self) -> RawValueV {
        match self {
            RawValue::Number(n) => RawValueV::Number(*n),
            RawValue::Text(s) => RawValueV::Text(s@),
            RawValue::Flag(b) => RawValueV::Flag(*b),
            RawValue::Rows(rows) => RawValueV::Rows(rows.deep_view()),
        }
    }
}

/// Mathematical image of a [`RawField`].
pub struct RawFieldV {
    pub key: Seq<char>,
    pub value: RawValueV,
}

impl DeepView for RawField {
    type V = RawFieldV;

    open spec fn deep_view(&self) -> RawFieldV {
        RawFieldV { key: self.key@, value: self.value.deep_view() }
    }
}

impl DeepView for RawReport {
    type V = Seq<RawFieldV>;

    open spec fn deep_view(&self) -> Seq<RawFieldV> {
        self.fields.deep_view()
    }
}

/// The value of the first field named `key`, or `None` when no field is.
pub open spec fn lookup_field(fields: Seq<RawFieldV>, key: Seq<char>) -> Option<RawValueV>
    decreases fields.len(),
{
    if fields.len() == 0 {
        None
    } else if fields[0].key == key {
        Some(fields[0].value)
    } else {
        lookup_field(fields.drop_first(), key)
    }
}

/// The value of the first cell named `key` in a row, or `None`.
pub open spec fn lookup_cell(cells: Seq<RawCellV>, key: Seq<char>) -> Option<RawScalarV>
    decreases cells.len(),
{
    if cells.len() == 0 {
        None
    } else if cells[0].key == key {
        Some(cells[0].value)
    } else {
        lookup_cell(cells.drop_first(), key)
    }
}

/// A field appended under a fresh key changes no existing lookup.
pub proof fn lemma_lookup_push(fields: Seq<RawFieldV>, extra: RawFieldV, key: Seq<char>)
    requires
        extra.key != key,
    ensures
        lookup_field(fields.push(extra), key) == lookup_field(fields, key),
    decreases fields.len(),
{
    let pushed = fields.push(extra);
    if fields.len() == 0 {
        assert(pushed[0] == extra);
        assert(pushed.drop_first() =~= Seq::<RawFieldV>::empty());
        assert(lookup_field(pushed, key) == lookup_field(pushed.drop_first(), key));
        assert(lookup_field(pushed.drop_first(), key) is None);
    } else {
        assert(pushed[0] == fields[0]);
        assert(pushed.drop_first() =~= fields.drop_first().push(extra));
        lemma_lookup_push(fields.drop_first(), extra, key);
    }
}

impl RawReport {
    /// Finds the first field named `key`.
    pub fn find(&self, key: &String) -> (r: Option<&RawValue>)
        ensures
            match r {
                Some(v) => lookup_field(self.deep_view(), key@) == Some(v.deep_view()),
                None => lookup_field(self.deep_view(), key@) is None,
            },
    {
        proof {
            assert(self.deep_view().subrange(0, self.deep_view().len() as int)
                =~= self.deep_view());
        }
        let mut i: usize = 0;
        while i < self.fields.len()
            invariant
                0 <= i <= self.fields@.len(),
                lookup_field(self.deep_view(), key@) == lookup_field(
                    self.deep_view().subrange(i as int, self.deep_view().len() as int),
                    key@,
                ),
            decreases self.fields@.len() - i,
        {
            let ghost rest = self.deep_view().subrange(i as int, self.deep_view().len() as int);
            if self.fields[i].key == *key {
                assert(rest[0] == self.deep_view()[i as int]);
                return Some(&self.fields[i].value);
            }
            proof {
                assert(rest[0] == self.deep_view()[i as int]);
                assert(rest.drop_first() =~= self.deep_view().subrange(
                    i + 1,
                    self.deep_view().len() as int,
                ));
            }
            i = i + 1;
        }
        proof {
            assert(self.deep_view().subrange(
                i as int,
                self.deep_view().len() as int,
            ) =~= Seq::<RawFieldV>::empty());
        }
        None
    }
}

impl RawRow {
    /// Finds the first cell named `key`.
    pub fn find_cell(&self, key: &String) -> (r: Option<&RawScalar>)
        ensures
            match r {
                Some(v) => lookup_cell(self.deep_view().cells, key@) == Some(v.deep_view()),
                None => lookup_cell(self.deep_view().cells, key@) is None,
            },
    {
        let ghost cells = self.deep_view().cells;
        proof {
            assert(cells.subrange(0, cells.len() as int) =~= cells);
        }
        let mut i: usize = 0;
        while i < self.cells.len()
            invariant
                cells == self.deep_view().cells,
                0 <= i <= self.cells@.len(),
                cells.len() == self.cells@.len(),
                lookup_cell(cells, key@) == lookup_cell(
                    cells.subrange(i as int, cells.len() as int),
                    key@,
                ),
            decreases self.cells@.len() - i,
        {
            let ghost rest = cells.subrange(i as int, cells.len() as int);
            if self.cells[i].key == *key {
                assert(rest[0] == cells[i as int]);
                return Some(&self.cells[i].value);
            }
            proof {
                assert(rest[0] == cells[i as int]);
                assert(rest.drop_first() =~= cells.subrange(i + 1, cells.len() as int));
            }
            i = i + 1;
        }
        proof {
            assert(cells.subrange(i as int, cells.len() as int) =~= Seq::<RawCellV>::empty());
        }
        None
    }
}

} // verus!
