//! Messages that describe table schemas.

use vstd::prelude::*;

use crate::pb::ProstFieldNotFound;

verus! {

/// The kinds of key that a column can be part of. In a message a kind travels as its
/// position in this list, counted from zero.
#[derive(Clone, Copy, Debug, PartialEq, Eq, Structural)]
pub enum ColumnKeyTypeProto {
    PrimaryKey,
    UniqueKey,
    ForeignKey,
}

impl ColumnKeyTypeProto {
    /// The number that stands for the kind in a message.
    pub open spec fn number(self) -> int {
        match self {
            ColumnKeyTypeProto::PrimaryKey => 0,
            ColumnKeyTypeProto::UniqueKey => 1,
            ColumnKeyTypeProto::ForeignKey => 2,
        }
    }

    /// The kind that a number stands for, if it stands for one.
    pub open spec fn of_number(value: int) -> Option<ColumnKeyTypeProto> {
        if value == 0 {
            Some(ColumnKeyTypeProto::PrimaryKey)
        } else if value == 1 {
            Some(ColumnKeyTypeProto::UniqueKey)
        } else if value == 2 {
            Some(ColumnKeyTypeProto::ForeignKey)
        } else {
            None
        }
    }

    /// The number that stands for the kind in a message.
    pub fn to_i32(self) -> (value: i32)
        ensures
            value == self.number(),
    {
        match self {
            ColumnKeyTypeProto::PrimaryKey => 0,
            ColumnKeyTypeProto::UniqueKey => 1,
            ColumnKeyTypeProto::ForeignKey => 2,
        }
    }

    /// Reads a kind from its number. Numbers outside the list stand for no kind.
    pub fn from_i32(value: i32) -> (kind: Option<ColumnKeyTypeProto>)
        ensures
            kind == Self::of_number(value as int),
    {
        if value == 0 {
            Some(ColumnKeyTypeProto::PrimaryKey)
        } else if value == 1 {
            Some(ColumnKeyTypeProto::UniqueKey)
        } else if value == 2 {
            Some(ColumnKeyTypeProto::ForeignKey)
        } else {
            None
        }
    }

    /// Writing a kind as a number and reading it back gives the kind again.
    pub proof fn number_round_trip(kind: ColumnKeyTypeProto)
        ensures
            Self::of_number(kind.number()) == Some(kind),
    {
    }
}

/// The key that a column belongs to.
#[derive(Clone, PartialEq, Eq, Debug)]
pub struct ColumnKeyProto {
    /// The kind of the key, as its number.
    pub column_key_type: i32,
}

impl Default for ColumnKeyProto {
    fn default() -> (r: ColumnKeyProto)
        ensures
            r.column_key_type == 0,
    {
        ColumnKeyProto { column_key_type: 0 }
    }
}

impl ColumnKeyProto {
    /// The kind of the key. A number that stands for no kind is reported as a missing field.
    pub fn get_column_key_type(&self) -> (r: Result<ColumnKeyTypeProto, ProstFieldNotFound>)
        ensures
            match ColumnKeyTypeProto::of_number(self.column_key_type as int) {
                Some(kind) => r == Ok::<ColumnKeyTypeProto, ProstFieldNotFound>(kind),
                None => r matches Err(missing) && missing.0@ == "column_key_type"@,
            },
    {
        match ColumnKeyTypeProto::from_i32(self.column_key_type) {
            Some(kind) => Ok(kind),
            None => Err(ProstFieldNotFound("column_key_type")),
        }
    }
}

} // verus!
