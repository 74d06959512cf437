//! Wire type descriptors: the (basic type, category) pair, its 16-bit wire
//! code, and the protocol's static metadata padding table.

use vstd::prelude::*;

verus! {

/// Basic DBR data types, independent of category.
#[derive(Debug, Copy, Clone, PartialEq, Eq, Structural)]
pub enum DBRBasicType {
    String,
    Int,
    Float,
    Enum,
    Char,
    Long,
    Double,
}

impl DBRBasicType {
    /// The protocol's index for this basic type.
    pub open spec fn index_spec(self) -> u16 {
        match self {
            DBRBasicType::String => 0,
            DBRBasicType::Int => 1,
            DBRBasicType::Float => 2,
            DBRBasicType::Enum => 3,
            DBRBasicType::Char => 4,
            DBRBasicType::Long => 5,
            DBRBasicType::Double => 6,
        }
    }

    /// The basic type denoted by a protocol index, if any.
    pub open spec fn from_index_spec(v: u16) -> Option<DBRBasicType> {
        if v == 0 {
            Some(DBRBasicType::String)
        } else if v == 1 {
            Some(DBRBasicType::Int)
        } else if v == 2 {
            Some(DBRBasicType::Float)
        } else if v == 3 {
            Some(DBRBasicType::Enum)
        } else if v == 4 {
            Some(DBRBasicType::Char)
        } else if v == 5 {
            Some(DBRBasicType::Long)
        } else if v == 6 {
            Some(DBRBasicType::Double)
        } else {
            None
        }
    }

    pub fn index(&self) -> (r: u16)
        ensures
            r == self.index_spec(),
    {
        match self {
            DBRBasicType::String => 0,
            DBRBasicType::Int => 1,
            DBRBasicType::Float => 2,
            DBRBasicType::Enum => 3,
            DBRBasicType::Char => 4,
            DBRBasicType::Long => 5,
            DBRBasicType::Double => 6,
        }
    }

    pub fn try_from_u16(v: u16) -> (r: Option<DBRBasicType>)
        ensures
            r == DBRBasicType::from_index_spec(v),
    {
        if v == 0 {
            Some(DBRBasicType::String)
        } else if v == 1 {
            Some(DBRBasicType::Int)
        } else if v == 2 {
            Some(DBRBasicType::Float)
        } else if v == 3 {
            Some(DBRBasicType::Enum)
        } else if v == 4 {
            Some(DBRBasicType::Char)
        } else if v == 5 {
            Some(DBRBasicType::Long)
        } else if v == 6 {
            Some(DBRBasicType::Double)
        } else {
            None
        }
    }
}

/// Metadata richness categories layered over a basic type.
#[derive(Debug, Copy, Clone, PartialEq, Eq, Structural)]
pub enum DBRCategory {
    Basic,
    Status,
    Time,
    Graphics,
    Control,
}

impl DBRCategory {
    /// The protocol's index for this category.
    pub open spec fn index_spec(self) -> u16 {
        match self {
            DBRCategory::Basic => 0,
            DBRCategory::Status => 1,
            DBRCategory::Time => 2,
            DBRCategory::Graphics => 3,
            DBRCategory::Control => 4,
        }
    }

    /// The category denoted by a protocol index, if any.
    pub open spec fn from_index_spec(v: u16) -> Option<DBRCategory> {
        if v == 0 {
            Some(DBRCategory::Basic)
        } else if v == 1 {
            Some(DBRCategory::Status)
        } else if v == 2 {
            Some(DBRCategory::Time)
        } else if v == 3 {
            Some(DBRCategory::Graphics)
        } else if v == 4 {
            Some(DBRCategory::Control)
        } else {
            None
        }
    }

    pub fn index(&self) -> (r: u16)
        ensures
            r == self.index_spec(),
    {
        match self {
            DBRCategory::Basic => 0,
            DBRCategory::Status => 1,
            DBRCategory::Time => 2,
            DBRCategory::Graphics => 3,
            DBRCategory::Control => 4,
        }
    }

    pub fn try_from_u16(v: u16) -> (r: Option<DBRCategory>)
        ensures
            r == DBRCategory::from_index_spec(v),
    {
        if v == 0 {
            Some(DBRCategory::Basic)
        } else if v == 1 {
            Some(DBRCategory::Status)
        } else if v == 2 {
            Some(DBRCategory::Time)
        } else if v == 3 {
            Some(DBRCategory::Graphics)
        } else if v == 4 {
            Some(DBRCategory::Control)
        } else {
            None
        }
    }
}

/// A wire type descriptor: the payload's basic type together with the
/// metadata richness category requested for it.
#[derive(Debug, Copy, Clone, PartialEq, Eq, Structural)]
pub struct DBRType {
    pub basic_type: DBRBasicType,
    pub category: DBRCategory,
}

impl DBRType {
    /// The 16-bit wire code for this descriptor:
    /// `category index * 7 + basic type index`, in the range `0..35`.
    pub open spec fn wire_code_spec(self) -> u16 {
        (self.category.index_spec() * 7 + self.basic_type.index_spec()) as u16
    }

    /// The descriptor denoted by a 16-bit wire code, if any: the basic type
    /// comes from `code % 7` and the category from `code / 7`.
    pub open spec fn from_wire_code_spec(code: u16) -> Option<DBRType> {
        match (
            DBRBasicType::from_index_spec(code % 7),
            DBRCategory::from_index_spec(code / 7),
        ) {
            (Some(b), Some(c)) => Some(DBRType { basic_type: b, category: c }),
            _ => None,
        }
    }

    pub fn to_wire_code(&self) -> (r: u16)
        ensures
            r == self.wire_code_spec(),
    {
        self.category.index() * 7 + self.basic_type.index()
    }

    pub fn from_wire_code(code: u16) -> (r: Option<DBRType>)
        ensures
            r == DBRType::from_wire_code_spec(code),
    {
        let basic = DBRBasicType::try_from_u16(code % 7);
        let category = DBRCategory::try_from_u16(code / 7);
        match (basic, category) {
            (Some(b), Some(c)) => Some(DBRType { basic_type: b, category: c }),
            _ => None,
        }
    }

    /// The number of zero bytes inserted between the value's metadata and the
    /// value bytes for this descriptor. A fixed protocol constant taken from
    /// the Channel Access payload specification; every combination not listed
    /// takes no padding.
    pub open spec fn metadata_padding_spec(self) -> usize {
        match (self.category, self.basic_type) {
            (DBRCategory::Status, DBRBasicType::Char) => 1,
            (DBRCategory::Status, DBRBasicType::Double) => 4,
            (DBRCategory::Time, DBRBasicType::Int) => 2,
            (DBRCategory::Time, DBRBasicType::Enum) => 2,
            (DBRCategory::Time, DBRBasicType::Char) => 3,
            (DBRCategory::Time, DBRBasicType::Double) => 4,
            (DBRCategory::Graphics, DBRBasicType::Float) => 2,
            (DBRCategory::Graphics, DBRBasicType::Char) => 1,
            (DBRCategory::Control, DBRBasicType::Char) => 1,
            _ => 0,
        }
    }

    pub fn get_metadata_padding(&self) -> (r: usize)
        ensures
            r == self.metadata_padding_spec(),
    {
        match (self.category, self.basic_type) {
            (DBRCategory::Status, DBRBasicType::Char) => 1,
            (DBRCategory::Status, DBRBasicType::Double) => 4,
            (DBRCategory::Time, DBRBasicType::Int) => 2,
            (DBRCategory::Time, DBRBasicType::Enum) => 2,
            (DBRCategory::Time, DBRBasicType::Char) => 3,
            (DBRCategory::Time, DBRBasicType::Double) => 4,
            (DBRCategory::Graphics, DBRBasicType::Float) => 2,
            (DBRCategory::Graphics, DBRBasicType::Char) => 1,
            (DBRCategory::Control, DBRBasicType::Char) => 1,
            _ => 0,
        }
    }
}

/// Encoding a descriptor to its wire code and decoding it back yields the
/// same descriptor, for every (category, basic type) pair.
pub proof fn lemma_wire_code_roundtrip(t: DBRType)
    ensures
        DBRType::from_wire_code_spec(t.wire_code_spec()) == Some(t),
{
    match (t.category, t.basic_type) {
        (c, b) => {
            assert(t.wire_code_spec() == c.index_spec() * 7 + b.index_spec());
        }
    }
}

/// Every wire code of 35 or above denotes no descriptor: decoding fails.
pub proof fn lemma_wire_code_invalid(code: u16)
    requires
        35 <= code,
    ensures
        DBRType::from_wire_code_spec(code) is None,
{
    assert(code / 7 >= 5) by (nonlinear_arith)
        requires 35 <= code;
}

} // verus!
