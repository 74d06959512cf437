//! The value sum type over the supported kinds, its conversion matrix, and
//! the value-only sum type left after metadata is dropped.

use vstd::prelude::*;
use crate::container::SingleOrVec;
use crate::messages::ErrorCondition;
use crate::records::{numeric_cast_ok, numeric_converted, EnumDBR, NumericDBR, StringDBR, Timestamp};
use crate::scalar::{CastTo, F32, F64};
use crate::wire::{DBRBasicType, DBRCategory, DBRType};

verus! {

/// How an enumerated record relates to the numeric record its index was cast
/// into: the index is cast, status/severity/timestamp are copied, and the
/// metadata an enumeration lacks is reset to defaults.
pub open spec fn enum_converted<T>(src: &EnumDBR, dst: &NumericDBR<T>) -> bool where u16: CastTo<T> {
    &&& dst.status == src.status
    &&& dst.severity == src.severity
    &&& dst.precision is None
    &&& dst.units@ == Seq::<char>::empty()
    &&& dst.limits == crate::limits::LimitSet::<T>::default_spec()
    &&& dst.value.is_single()
    &&& dst.value.elems() == seq![<u16 as CastTo<T>>::cast_to_spec(src.value).unwrap()]
    &&& dst.last_updated == src.last_updated
}

/// A process variable's current value and metadata, in its native kind.
#[derive(Debug)]
pub enum Dbr {
    Enum(EnumDBR),
    String(StringDBR),
    Char(NumericDBR<i8>),
    Int(NumericDBR<i16>),
    Long(NumericDBR<i32>),
    Float(NumericDBR<F32>),
    Double(NumericDBR<F64>),
}

/// A value stripped of its metadata, for the final value-byte serialization
/// step.
#[derive(Debug)]
pub enum DbrValue {
    Enum(u16),
    String(String),
    Char(SingleOrVec<i8>),
    Int(SingleOrVec<i16>),
    Long(SingleOrVec<i32>),
    Float(SingleOrVec<F32>),
    Double(SingleOrVec<F64>),
}

impl Dbr {
    /// Observational equality: same variant, fields pairwise equal (strings
    /// by their characters, containers by shape and elements).
    pub open spec fn equiv(&self, other: &Dbr) -> bool {
        match (self, other) {
            (Dbr::Enum(a), Dbr::Enum(b)) => a.equiv(b),
            (Dbr::String(a), Dbr::String(b)) => a.equiv(b),
            (Dbr::Char(a), Dbr::Char(b)) => a.equiv(b),
            (Dbr::Int(a), Dbr::Int(b)) => a.equiv(b),
            (Dbr::Long(a), Dbr::Long(b)) => a.equiv(b),
            (Dbr::Float(a), Dbr::Float(b)) => a.equiv(b),
            (Dbr::Double(a), Dbr::Double(b)) => a.equiv(b),
            _ => false,
        }
    }

    /// The element count this value reports: 1 for enumerated and string
    /// values, the container's count otherwise.
    pub open spec fn count_spec(&self) -> nat {
        match self {
            Dbr::Enum(_) => 1,
            Dbr::String(_) => 1,
            Dbr::Char(d) => d.value.elems().len(),
            Dbr::Int(d) => d.value.elems().len(),
            Dbr::Long(d) => d.value.elems().len(),
            Dbr::Float(d) => d.value.elems().len(),
            Dbr::Double(d) => d.value.elems().len(),
        }
    }

    /// The basic type of the active variant.
    pub open spec fn native_basic_type(&self) -> DBRBasicType {
        match self {
            Dbr::Enum(_) => DBRBasicType::Enum,
            Dbr::String(_) => DBRBasicType::String,
            Dbr::Char(_) => DBRBasicType::Char,
            Dbr::Int(_) => DBRBasicType::Int,
            Dbr::Long(_) => DBRBasicType::Long,
            Dbr::Float(_) => DBRBasicType::Float,
            Dbr::Double(_) => DBRBasicType::Double,
        }
    }

    /// The record's (status, severity) pair.
    pub open spec fn status_spec(&self) -> (i16, i16) {
        match self {
            Dbr::Enum(d) => (d.status, d.severity),
            Dbr::String(d) => (d.status, d.severity),
            Dbr::Char(d) => (d.status, d.severity),
            Dbr::Int(d) => (d.status, d.severity),
            Dbr::Long(d) => (d.status, d.severity),
            Dbr::Float(d) => (d.status, d.severity),
            Dbr::Double(d) => (d.status, d.severity),
        }
    }

    /// The record's last-update timestamp.
    pub open spec fn last_updated_spec(&self) -> Timestamp {
        match self {
            Dbr::Enum(d) => d.last_updated,
            Dbr::String(d) => d.last_updated,
            Dbr::Char(d) => d.last_updated,
            Dbr::Int(d) => d.last_updated,
            Dbr::Long(d) => d.last_updated,
            Dbr::Float(d) => d.last_updated,
            Dbr::Double(d) => d.last_updated,
        }
    }

    pub fn get_count(&self) -> (r: usize)
        ensures
            r == self.count_spec(),
    {
        match self {
            Dbr::Enum(_) => 1,
            Dbr::String(_) => 1,
            Dbr::Char(d) => d.get_count(),
            Dbr::Int(d) => d.get_count(),
            Dbr::Long(d) => d.get_count(),
            Dbr::Float(d) => d.get_count(),
            Dbr::Double(d) => d.get_count(),
        }
    }

    /// Projects to the value-only sum type, dropping the metadata.
    pub fn get_value(&self) -> (r: DbrValue)
        ensures
            match self {
                Dbr::Enum(d) => r == DbrValue::Enum(d.value),
                Dbr::String(d) => r matches DbrValue::String(s) && s@ == d.value@,
                Dbr::Char(d) => r matches DbrValue::Char(c) && c.is_single() == d.value.is_single()
                    && c.elems() == d.value.elems(),
                Dbr::Int(d) => r matches DbrValue::Int(c) && c.is_single() == d.value.is_single()
                    && c.elems() == d.value.elems(),
                Dbr::Long(d) => r matches DbrValue::Long(c) && c.is_single() == d.value.is_single()
                    && c.elems() == d.value.elems(),
                Dbr::Float(d) => r matches DbrValue::Float(c) && c.is_single()
                    == d.value.is_single() && c.elems() == d.value.elems(),
                Dbr::Double(d) => r matches DbrValue::Double(c) && c.is_single()
                    == d.value.is_single() && c.elems() == d.value.elems(),
            },
    {
        match self {
            Dbr::Enum(d) => DbrValue::Enum(d.value),
            Dbr::String(d) => DbrValue::String(d.value.clone()),
            Dbr::Char(d) => DbrValue::Char(d.value.clone()),
            Dbr::Int(d) => DbrValue::Int(d.value.clone()),
            Dbr::Long(d) => DbrValue::Long(d.value.clone()),
            Dbr::Float(d) => DbrValue::Float(d.value.clone()),
            Dbr::Double(d) => DbrValue::Double(d.value.clone()),
        }
    }

    /// Reports the active variant's basic type, with category `Basic`.
    pub fn get_native_type(&self) -> (r: DBRType)
        ensures
            r == (DBRType { basic_type: self.native_basic_type(), category: DBRCategory::Basic }),
    {
        DBRType {
            basic_type: match self {
                Dbr::Enum(_) => DBRBasicType::Enum,
                Dbr::String(_) => DBRBasicType::String,
                Dbr::Char(_) => DBRBasicType::Char,
                Dbr::Int(_) => DBRBasicType::Int,
                Dbr::Long(_) => DBRBasicType::Long,
                Dbr::Float(_) => DBRBasicType::Float,
                Dbr::Double(_) => DBRBasicType::Double,
            },
            category: DBRCategory::Basic,
        }
    }

    pub(crate) fn get_status(&self) -> (r: (i16, i16))
        ensures
            r == self.status_spec(),
    {
        match self {
            Dbr::Enum(d) => (d.status, d.severity),
            Dbr::String(d) => (d.status, d.severity),
            Dbr::Char(d) => (d.status, d.severity),
            Dbr::Int(d) => (d.status, d.severity),
            Dbr::Long(d) => (d.status, d.severity),
            Dbr::Float(d) => (d.status, d.severity),
            Dbr::Double(d) => (d.status, d.severity),
        }
    }

    pub(crate) fn get_last_updated(&self) -> (r: Timestamp)
        ensures
            r == self.last_updated_spec(),
    {
        match self {
            Dbr::Enum(d) => d.last_updated,
            Dbr::String(d) => d.last_updated,
            Dbr::Char(d) => d.last_updated,
            Dbr::Int(d) => d.last_updated,
            Dbr::Long(d) => d.last_updated,
            Dbr::Float(d) => d.last_updated,
            Dbr::Double(d) => d.last_updated,
        }
    }

    /// The conversion matrix, as a relation between a source value, a target
    /// basic type, and the outcome.
    ///
    /// String as a target is rejected with `UnavailInServ` whatever the
    /// source; a string source converts to nothing else (`NoConvert`); an
    /// enumerated target accepts only an enumerated source (identity);
    /// numeric targets accept the same kind (identity), another numeric kind
    /// (element-wise checked cast of value and limits), or an enumerated
    /// source (checked cast of the index, metadata reset to defaults).
    pub open spec fn convert_rel(&self, target: DBRBasicType, r: Result<Dbr, ErrorCondition>) -> bool {
        match target {
            DBRBasicType::String => r == Err::<Dbr, ErrorCondition>(ErrorCondition::UnavailInServ),
            DBRBasicType::Enum => match self {
                Dbr::Enum(d) => r matches Ok(Dbr::Enum(w)) && w.equiv(d),
                _ => r == Err::<Dbr, ErrorCondition>(ErrorCondition::NoConvert),
            },
            DBRBasicType::Char => match self {
                Dbr::Char(d) => r matches Ok(Dbr::Char(w)) && w.equiv(d),
                Dbr::Int(d) => if numeric_cast_ok::<i16, i8>(d) {
                    r matches Ok(Dbr::Char(w)) && numeric_converted::<i16, i8>(d, &w)
                } else {
                    r == Err::<Dbr, ErrorCondition>(ErrorCondition::NoConvert)
                },
                Dbr::Long(d) => if numeric_cast_ok::<i32, i8>(d) {
                    r matches Ok(Dbr::Char(w)) && numeric_converted::<i32, i8>(d, &w)
                } else {
                    r == Err::<Dbr, ErrorCondition>(ErrorCondition::NoConvert)
                },
                Dbr::Float(d) => if numeric_cast_ok::<F32, i8>(d) {
                    r matches Ok(Dbr::Char(w)) && numeric_converted::<F32, i8>(d, &w)
                } else {
                    r == Err::<Dbr, ErrorCondition>(ErrorCondition::NoConvert)
                },
                Dbr::Double(d) => if numeric_cast_ok::<F64, i8>(d) {
                    r matches Ok(Dbr::Char(w)) && numeric_converted::<F64, i8>(d, &w)
                } else {
                    r == Err::<Dbr, ErrorCondition>(ErrorCondition::NoConvert)
                },
                Dbr::String(_) => r == Err::<Dbr, ErrorCondition>(ErrorCondition::NoConvert),
                Dbr::Enum(d) => if <u16 as CastTo<i8>>::cast_to_spec(d.value) is Some {
                    r matches Ok(Dbr::Char(w)) && enum_converted::<i8>(d, &w)
                } else {
                    r == Err::<Dbr, ErrorCondition>(ErrorCondition::NoConvert)
                },
            },
            DBRBasicType::Int => match self {
                Dbr::Char(d) => if numeric_cast_ok::<i8, i16>(d) {
                    r matches Ok(Dbr::Int(w)) && numeric_converted::<i8, i16>(d, &w)
                } else {
                    r == Err::<Dbr, ErrorCondition>(ErrorCondition::NoConvert)
                },
                Dbr::Int(d) => r matches Ok(Dbr::Int(w)) && w.equiv(d),
                Dbr::Long(d) => if numeric_cast_ok::<i32, i16>(d) {
                    r matches Ok(Dbr::Int(w)) && numeric_converted::<i32, i16>(d, &w)
                } else {
                    r == Err::<Dbr, ErrorCondition>(ErrorCondition::NoConvert)
                },
                Dbr::Float(d) => if numeric_cast_ok::<F32, i16>(d) {
                    r matches Ok(Dbr::Int(w)) && numeric_converted::<F32, i16>(d, &w)
                } else {
                    r == Err::<Dbr, ErrorCondition>(ErrorCondition::NoConvert)
                },
                Dbr::Double(d) => if numeric_cast_ok::<F64, i16>(d) {
                    r matches Ok(Dbr::Int(w)) && numeric_converted::<F64, i16>(d, &w)
                } else {
                    r == Err::<Dbr, ErrorCondition>(ErrorCondition::NoConvert)
                },
                Dbr::String(_) => r == Err::<Dbr, ErrorCondition>(ErrorCondition::NoConvert),
                Dbr::Enum(d) => if <u16 as CastTo<i16>>::cast_to_spec(d.value) is Some {
                    r matches Ok(Dbr::Int(w)) && enum_converted::<i16>(d, &w)
                } else {
                    r == Err::<Dbr, ErrorCondition>(ErrorCondition::NoConvert)
                },
            },
            DBRBasicType::Long => match self {
                Dbr::Char(d) => if numeric_cast_ok::<i8, i32>(d) {
                    r matches Ok(Dbr::Long(w)) && numeric_converted::<i8, i32>(d, &w)
                } else {
                    r == Err::<Dbr, ErrorCondition>(ErrorCondition::NoConvert)
                },
                Dbr::Int(d) => if numeric_cast_ok::<i16, i32>(d) {
                    r matches Ok(Dbr::Long(w)) && numeric_converted::<i16, i32>(d, &w)
                } else {
                    r == Err::<Dbr, ErrorCondition>(ErrorCondition::NoConvert)
                },
                Dbr::Long(d) => r matches Ok(Dbr::Long(w)) && w.equiv(d),
                Dbr::Float(d) => if numeric_cast_ok::<F32, i32>(d) {
                    r matches Ok(Dbr::Long(w)) && numeric_converted::<F32, i32>(d, &w)
                } else {
                    r == Err::<Dbr, ErrorCondition>(ErrorCondition::NoConvert)
                },
                Dbr::Double(d) => if numeric_cast_ok::<F64, i32>(d) {
                    r matches Ok(Dbr::Long(w)) && numeric_converted::<F64, i32>(d, &w)
                } else {
                    r == Err::<Dbr, ErrorCondition>(ErrorCondition::NoConvert)
                },
                Dbr::String(_) => r == Err::<Dbr, ErrorCondition>(ErrorCondition::NoConvert),
                Dbr::Enum(d) => if <u16 as CastTo<i32>>::cast_to_spec(d.value) is Some {
                    r matches Ok(Dbr::Long(w)) && enum_converted::<i32>(d, &w)
                } else {
                    r == Err::<Dbr, ErrorCondition>(ErrorCondition::NoConvert)
                },
            },
            DBRBasicType::Float => match self {
                Dbr::Char(d) => if numeric_cast_ok::<i8, F32>(d) {
                    r matches Ok(Dbr::Float(w)) && numeric_converted::<i8, F32>(d, &w)
                } else {
                    r == Err::<Dbr, ErrorCondition>(ErrorCondition::NoConvert)
                },
                Dbr::Int(d) => if numeric_cast_ok::<i16, F32>(d) {
                    r matches Ok(Dbr::Float(w)) && numeric_converted::<i16, F32>(d, &w)
                } else {
                    r == Err::<Dbr, ErrorCondition>(ErrorCondition::NoConvert)
                },
                Dbr::Long(d) => if numeric_cast_ok::<i32, F32>(d) {
                    r matches Ok(Dbr::Float(w)) && numeric_converted::<i32, F32>(d, &w)
                } else {
                    r == Err::<Dbr, ErrorCondition>(ErrorCondition::NoConvert)
                },
                Dbr::Float(d) => r matches Ok(Dbr::Float(w)) && w.equiv(d),
                Dbr::Double(d) => if numeric_cast_ok::<F64, F32>(d) {
                    r matches Ok(Dbr::Float(w)) && numeric_converted::<F64, F32>(d, &w)
                } else {
                    r == Err::<Dbr, ErrorCondition>(ErrorCondition::NoConvert)
                },
                Dbr::String(_) => r == Err::<Dbr, ErrorCondition>(ErrorCondition::NoConvert),
                Dbr::Enum(d) => if <u16 as CastTo<F32>>::cast_to_spec(d.value) is Some {
                    r matches Ok(Dbr::Float(w)) && enum_converted::<F32>(d, &w)
                } else {
                    r == Err::<Dbr, ErrorCondition>(ErrorCondition::NoConvert)
                },
            },
            DBRBasicType::Double => match self {
                Dbr::Char(d) => if numeric_cast_ok::<i8, F64>(d) {
                    r matches Ok(Dbr::Double(w)) && numeric_converted::<i8, F64>(d, &w)
                } else {
                    r == Err::<Dbr, ErrorCondition>(ErrorCondition::NoConvert)
                },
                Dbr::Int(d) => if numeric_cast_ok::<i16, F64>(d) {
                    r matches Ok(Dbr::Double(w)) && numeric_converted::<i16, F64>(d, &w)
                } else {
                    r == Err::<Dbr, ErrorCondition>(ErrorCondition::NoConvert)
                },
                Dbr::Long(d) => if numeric_cast_ok::<i32, F64>(d) {
                    r matches Ok(Dbr::Double(w)) && numeric_converted::<i32, F64>(d, &w)
                } else {
                    r == Err::<Dbr, ErrorCondition>(ErrorCondition::NoConvert)
                },
                Dbr::Float(d) => if numeric_cast_ok::<F32, F64>(d) {
                    r matches Ok(Dbr::Double(w)) && numeric_converted::<F32, F64>(d, &w)
                } else {
                    r == Err::<Dbr, ErrorCondition>(ErrorCondition::NoConvert)
                },
                Dbr::Double(d) => r matches Ok(Dbr::Double(w)) && w.equiv(d),
                Dbr::String(_) => r == Err::<Dbr, ErrorCondition>(ErrorCondition::NoConvert),
                Dbr::Enum(d) => if <u16 as CastTo<F64>>::cast_to_spec(d.value) is Some {
                    r matches Ok(Dbr::Double(w)) && enum_converted::<F64>(d, &w)
                } else {
                    r == Err::<Dbr, ErrorCondition>(ErrorCondition::NoConvert)
                },
            },
        }
    }

    /// Converts this value to the requested basic type, producing a new value
    /// and leaving the original untouched. The outcome is exactly what the
    /// conversion matrix [`Dbr::convert_rel`] allows.
    pub fn convert_to(&self, basic_type: DBRBasicType) -> (r: Result<Dbr, ErrorCondition>)
        ensures
            self.convert_rel(basic_type, r),
    {
        match basic_type {
            DBRBasicType::Char => match self {
                Dbr::Char(val) => Ok(Dbr::Char(val.clone())),
                Dbr::Int(val) => match val.convert_to::<i8>() {
                    Ok(v) => Ok(Dbr::Char(v)),
                    Err(e) => Err(e),
                },
                Dbr::Long(val) => match val.convert_to::<i8>() {
                    Ok(v) => Ok(Dbr::Char(v)),
                    Err(e) => Err(e),
                },
                Dbr::Float(val) => match val.convert_to::<i8>() {
                    Ok(v) => Ok(Dbr::Char(v)),
                    Err(e) => Err(e),
                },
                Dbr::Double(val) => match val.convert_to::<i8>() {
                    Ok(v) => Ok(Dbr::Char(v)),
                    Err(e) => Err(e),
                },
                Dbr::String(_) => Err(ErrorCondition::NoConvert),
                Dbr::Enum(val) => match val.to_numeric::<i8>() {
                    Ok(v) => Ok(Dbr::Char(v)),
                    Err(e) => Err(e),
                },
            },
            DBRBasicType::Int => match self {
                Dbr::Char(val) => match val.convert_to::<i16>() {
                    Ok(v) => Ok(Dbr::Int(v)),
                    Err(e) => Err(e),
                },
                Dbr::Int(val) => Ok(Dbr::Int(val.clone())),
                Dbr::Long(val) => match val.convert_to::<i16>() {
                    Ok(v) => Ok(Dbr::Int(v)),
                    Err(e) => Err(e),
                },
                Dbr::Float(val) => match val.convert_to::<i16>() {
                    Ok(v) => Ok(Dbr::Int(v)),
                    Err(e) => Err(e),
                },
                Dbr::Double(val) => match val.convert_to::<i16>() {
                    Ok(v) => Ok(Dbr::Int(v)),
                    Err(e) => Err(e),
                },
                Dbr::String(_) => Err(ErrorCondition::NoConvert),
                Dbr::Enum(val) => match val.to_numeric::<i16>() {
                    Ok(v) => Ok(Dbr::Int(v)),
                    Err(e) => Err(e),
                },
            },
            DBRBasicType::Long => match self {
                Dbr::Char(val) => match val.convert_to::<i32>() {
                    Ok(v) => Ok(Dbr::Long(v)),
                    Err(e) => Err(e),
                },
                Dbr::Int(val) => match val.convert_to::<i32>() {
                    Ok(v) => Ok(Dbr::Long(v)),
                    Err(e) => Err(e),
                },
                Dbr::Long(val) => Ok(Dbr::Long(val.clone())),
                Dbr::Float(val) => match val.convert_to::<i32>() {
                    Ok(v) => Ok(Dbr::Long(v)),
                    Err(e) => Err(e),
                },
                Dbr::Double(val) => match val.convert_to::<i32>() {
                    Ok(v) => Ok(Dbr::Long(v)),
                    Err(e) => Err(e),
                },
                Dbr::String(_) => Err(ErrorCondition::NoConvert),
                Dbr::Enum(val) => match val.to_numeric::<i32>() {
                    Ok(v) => Ok(Dbr::Long(v)),
                    Err(e) => Err(e),
                },
            },
            DBRBasicType::Float => match self {
                Dbr::Char(val) => match val.convert_to::<F32>() {
                    Ok(v) => Ok(Dbr::Float(v)),
                    Err(e) => Err(e),
                },
                Dbr::Int(val) => match val.convert_to::<F32>() {
                    Ok(v) => Ok(Dbr::Float(v)),
                    Err(e) => Err(e),
                },
                Dbr::Long(val) => match val.convert_to::<F32>() {
                    Ok(v) => Ok(Dbr::Float(v)),
                    Err(e) => Err(e),
                },
                Dbr::Float(val) => Ok(Dbr::Float(val.clone())),
                Dbr::Double(val) => match val.convert_to::<F32>() {
                    Ok(v) => Ok(Dbr::Float(v)),
                    Err(e) => Err(e),
                },
                Dbr::String(_) => Err(ErrorCondition::NoConvert),
                Dbr::Enum(val) => match val.to_numeric::<F32>() {
                    Ok(v) => Ok(Dbr::Float(v)),
                    Err(e) => Err(e),
                },
            },
            DBRBasicType::Double => match self {
                Dbr::Char(val) => match val.convert_to::<F64>() {
                    Ok(v) => Ok(Dbr::Double(v)),
                    Err(e) => Err(e),
                },
                Dbr::Int(val) => match val.convert_to::<F64>() {
                    Ok(v) => Ok(Dbr::Double(v)),
                    Err(e) => Err(e),
                },
                Dbr::Long(val) => match val.convert_to::<F64>() {
                    Ok(v) => Ok(Dbr::Double(v)),
                    Err(e) => Err(e),
                },
                Dbr::Float(val) => match val.convert_to::<F64>() {
                    Ok(v) => Ok(Dbr::Double(v)),
                    Err(e) => Err(e),
                },
                Dbr::Double(val) => Ok(Dbr::Double(val.clone())),
                Dbr::String(_) => Err(ErrorCondition::NoConvert),
                Dbr::Enum(val) => match val.to_numeric::<F64>() {
                    Ok(v) => Ok(Dbr::Double(v)),
                    Err(e) => Err(e),
                },
            },
            DBRBasicType::String => Err(ErrorCondition::UnavailInServ),
            DBRBasicType::Enum => match self {
                Dbr::Enum(val) => Ok(Dbr::Enum(val.clone())),
                _ => Err(ErrorCondition::NoConvert),
            },
        }
    }
}

impl Clone for Dbr {
    /// Cloning keeps the variant and every field observationally.
    fn clone(&self) -> (r: Self)
        ensures
            r.equiv(self),
    {
        match self {
            Dbr::Enum(d) => Dbr::Enum(d.clone()),
            Dbr::String(d) => Dbr::String(d.clone()),
            Dbr::Char(d) => Dbr::Char(d.clone()),
            Dbr::Int(d) => Dbr::Int(d.clone()),
            Dbr::Long(d) => Dbr::Long(d.clone()),
            Dbr::Float(d) => Dbr::Float(d.clone()),
            Dbr::Double(d) => Dbr::Double(d.clone()),
        }
    }
}

/// Converting any non-string value to its own kind succeeds and yields a
/// value observationally equal to the original. (A string value is the one
/// exception: string is never available as a conversion target, so even the
/// identity request is refused.)
pub proof fn lemma_identity_conversion(dbr: &Dbr, r: Result<Dbr, ErrorCondition>)
    requires
        !(dbr matches Dbr::String(_)),
        dbr.convert_rel(dbr.native_basic_type(), r),
    ensures
        r matches Ok(w) && w.equiv(dbr),
{
}

/// A string-valued source converts to no other basic type: the matrix
/// answers `NoConvert` for every non-string target.
pub proof fn lemma_string_source_rejected(dbr: &Dbr, target: DBRBasicType, r: Result<
    Dbr,
    ErrorCondition,
>)
    requires
        dbr matches Dbr::String(_),
        target != DBRBasicType::String,
        dbr.convert_rel(target, r),
    ensures
        r == Err::<Dbr, ErrorCondition>(ErrorCondition::NoConvert),
{
}

/// No source converts to the string basic type: the matrix answers
/// `UnavailInServ` for every source.
pub proof fn lemma_string_target_rejected(dbr: &Dbr, r: Result<Dbr, ErrorCondition>)
    requires
        dbr.convert_rel(DBRBasicType::String, r),
    ensures
        r == Err::<Dbr, ErrorCondition>(ErrorCondition::UnavailInServ),
{
}

} // verus!
