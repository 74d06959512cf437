//! The per-kind value-plus-metadata records a process variable produces: one
//! numeric record generic over the scalar kind, and specialized records for
//! string-valued and enumerated-valued variables.

use vstd::prelude::*;
use crate::container::{cast_seq, cast_seq_ok, SingleOrVec};
use crate::limits::{limit_set_cast, limit_set_cast_ok, LimitSet};
use crate::messages::ErrorCondition;
use crate::scalar::{CastTo, DbrScalar};

verus! {

/// An absolute point in time: whole seconds since the 1970 epoch and
/// nanoseconds within that second. Seconds are unsigned, so every timestamp
/// is at or after the epoch and re-basing to the protocol's 1990 epoch is
/// total.
#[derive(Debug, Clone, Copy, PartialEq, Eq, Structural)]
pub struct Timestamp {
    pub secs: u64,
    pub nanos: u32,
}

impl Timestamp {
    /// The epoch itself: the timestamp a defaulted record carries.
    pub open spec fn epoch_spec() -> Timestamp {
        Timestamp { secs: 0, nanos: 0 }
    }

    /// Returns the epoch itself.
    pub fn epoch() -> (r: Timestamp)
        ensures
            r == Timestamp::epoch_spec(),
    {
        Timestamp { secs: 0, nanos: 0 }
    }
}

/// A numeric process-variable record: alarm status and severity, optional
/// display precision (only meaningful for the floating kinds), physical
/// units, limit set, the value itself, and the time of its last update.
#[derive(Debug)]
pub struct NumericDBR<T> {
    pub status: i16,
    pub severity: i16,
    /// Only makes sense for the floating kinds; carried here to avoid
    /// duplicating the record shape.
    pub precision: Option<u16>,
    pub units: String,
    pub limits: LimitSet<T>,
    pub value: SingleOrVec<T>,
    pub last_updated: Timestamp,
}

/// Whether a numeric record converts whole to the target kind: every value
/// element and every present bound must cast.
pub open spec fn numeric_cast_ok<T: CastTo<U>, U>(d: &NumericDBR<T>) -> bool {
    cast_seq_ok::<T, U>(d.value.elems()) && limit_set_cast_ok::<T, U>(d.limits)
}

/// How a converted numeric record relates to its source: the value and the
/// limits are cast element-wise, everything else is copied verbatim.
pub open spec fn numeric_converted<T: CastTo<U>, U>(
    src: &NumericDBR<T>,
    dst: &NumericDBR<U>,
) -> bool {
    &&& dst.status == src.status
    &&& dst.severity == src.severity
    &&& dst.precision == src.precision
    &&& dst.units@ == src.units@
    &&& dst.limits == limit_set_cast::<T, U>(src.limits)
    &&& dst.value.is_single() == src.value.is_single()
    &&& dst.value.elems() == cast_seq::<T, U>(src.value.elems())
    &&& dst.last_updated == src.last_updated
}

impl<T> NumericDBR<T> {
    /// Observational equality: every field agrees (strings by their
    /// characters, values by shape and elements).
    pub open spec fn equiv(&self, other: &Self) -> bool {
        &&& self.status == other.status
        &&& self.severity == other.severity
        &&& self.precision == other.precision
        &&& self.units@ == other.units@
        &&& self.limits == other.limits
        &&& self.value.is_single() == other.value.is_single()
        &&& self.value.elems() == other.value.elems()
        &&& self.last_updated == other.last_updated
    }

    /// The element count of the held value.
    pub fn get_count(&self) -> (r: usize)
        ensures
            r == self.value.elems().len(),
    {
        self.value.get_count()
    }
}

impl<T: DbrScalar> NumericDBR<T> {
    /// Converts the value and the limit set to another kind; propagates the
    /// first failure; on success copies status, severity, precision, units
    /// and timestamp verbatim into the new record.
    pub fn convert_to<U: DbrScalar>(&self) -> (r: Result<NumericDBR<U>, ErrorCondition>) where
        T: CastTo<U>,

        ensures
            (r is Ok) <==> numeric_cast_ok::<T, U>(self),
            r matches Ok(d) ==> numeric_converted(self, &d),
            !numeric_cast_ok::<T, U>(self) ==> r == Err::<NumericDBR<U>, ErrorCondition>(
                ErrorCondition::NoConvert,
            ),
    {
        let value = match self.value.convert_to() {
            Ok(v) => v,
            Err(e) => {
                return Err(e);
            },
        };
        let limits = match self.limits.convert_to() {
            Ok(l) => l,
            Err(e) => {
                return Err(e);
            },
        };
        Ok(
            NumericDBR {
                status: self.status,
                severity: self.severity,
                precision: self.precision,
                units: self.units.clone(),
                limits,
                value,
                last_updated: self.last_updated,
            },
        )
    }
}

impl<T: Copy> Clone for NumericDBR<T> {
    /// Cloning keeps every field observationally.
    fn clone(&self) -> (r: Self)
        ensures
            r.equiv(self),
    {
        NumericDBR {
            status: self.status,
            severity: self.severity,
            precision: self.precision,
            units: self.units.clone(),
            limits: self.limits,
            value: self.value.clone(),
            last_updated: self.last_updated,
        }
    }
}

impl<T: DbrScalar> Default for NumericDBR<T> {
    /// The defaulted record: zero status and severity, no precision, empty
    /// units, no limits, a single zero scalar, and the epoch timestamp.
    fn default() -> (r: Self)
        ensures
            r.status == 0,
            r.severity == 0,
            r.precision is None,
            r.units@ == Seq::<char>::empty(),
            r.limits == LimitSet::<T>::default_spec(),
            r.value.is_single(),
            r.value.elems() == seq![T::zero_spec()],
            r.last_updated == Timestamp::epoch_spec(),
    {
        let r = NumericDBR {
            status: 0,
            severity: 0,
            precision: None,
            units: String::new(),
            limits: LimitSet::default(),
            value: SingleOrVec::Single(T::zero()),
            last_updated: Timestamp::epoch(),
        };
        assert(r.value.elems() =~= seq![T::zero_spec()]);
        r
    }
}

/// A string-valued process-variable record.
#[derive(Debug)]
pub struct StringDBR {
    pub status: i16,
    pub severity: i16,
    pub value: String,
    pub last_updated: Timestamp,
}

impl StringDBR {
    /// Observational equality: every field agrees (the value by its
    /// characters).
    pub open spec fn equiv(&self, other: &Self) -> bool {
        &&& self.status == other.status
        &&& self.severity == other.severity
        &&& self.value@ == other.value@
        &&& self.last_updated == other.last_updated
    }
}

impl Clone for StringDBR {
    /// Cloning keeps every field observationally.
    fn clone(&self) -> (r: Self)
        ensures
            r.equiv(self),
    {
        StringDBR {
            status: self.status,
            severity: self.severity,
            value: self.value.clone(),
            last_updated: self.last_updated,
        }
    }
}

/// Whether two label tables hold the same pairs: equal indices and equal
/// label characters position by position.
pub open spec fn labels_equiv(a: Seq<(u16, String)>, b: Seq<(u16, String)>) -> bool {
    a.len() == b.len() && forall|i: int|
        0 <= i < a.len() ==> (#[trigger] b[i]).0 == a[i].0 && b[i].1@ == a[i].1@
}

/// An enumerated process-variable record: the current choice index and the
/// table mapping each index to its label (indices unique).
#[derive(Debug)]
pub struct EnumDBR {
    pub status: i16,
    pub severity: i16,
    pub strings: Vec<(u16, String)>,
    pub value: u16,
    pub last_updated: Timestamp,
}

impl EnumDBR {
    /// Well-formedness: the label table maps each index at most once.
    pub open spec fn wf(&self) -> bool {
        forall|i: int, j: int|
            0 <= i < j < self.strings@.len() ==> (#[trigger] self.strings@[i]).0 != (
            #[trigger] self.strings@[j]).0
    }

    /// Observational equality: every field agrees (labels pairwise).
    pub open spec fn equiv(&self, other: &Self) -> bool {
        &&& self.status == other.status
        &&& self.severity == other.severity
        &&& labels_equiv(self.strings@, other.strings@)
        &&& self.value == other.value
        &&& self.last_updated == other.last_updated
    }

    /// Converts the choice index to a numeric record of the target kind by a
    /// checked cast; fails with `NoConvert` exactly when the index is not
    /// representable. An enumeration has no units, precision or limit
    /// semantics, so those fields are reset to their defaults; status,
    /// severity and timestamp are copied.
    pub fn to_numeric<T: DbrScalar>(&self) -> (r: Result<NumericDBR<T>, ErrorCondition>) where
        u16: CastTo<T>,

        ensures
            (r is Ok) <==> <u16 as CastTo<T>>::cast_to_spec(self.value) is Some,
            r matches Ok(d) ==> {
                &&& d.status == self.status
                &&& d.severity == self.severity
                &&& d.precision is None
                &&& d.units@ == Seq::<char>::empty()
                &&& d.limits == LimitSet::<T>::default_spec()
                &&& d.value.is_single()
                &&& d.value.elems() == seq![
                    <u16 as CastTo<T>>::cast_to_spec(self.value).unwrap(),
                ]
                &&& d.last_updated == self.last_updated
            },
            (<u16 as CastTo<T>>::cast_to_spec(self.value) is None) ==> r == Err::<
                NumericDBR<T>,
                ErrorCondition,
            >(ErrorCondition::NoConvert),
    {
        let cast: Option<T> = self.value.cast_to();
        match cast {
            Some(v) => {
                let d = NumericDBR {
                    value: SingleOrVec::Single(v),
                    severity: self.severity,
                    status: self.status,
                    last_updated: self.last_updated,
                    precision: None,
                    units: String::new(),
                    limits: LimitSet::default(),
                };
                assert(d.value.elems() =~= seq![
                    <u16 as CastTo<T>>::cast_to_spec(self.value).unwrap(),
                ]);
                Ok(d)
            },
            None => Err(ErrorCondition::NoConvert),
        }
    }
}

impl Clone for EnumDBR {
    /// Cloning keeps every field observationally; a well-formed label table
    /// (unique indices) stays well-formed.
    fn clone(&self) -> (r: Self)
        ensures
            r.equiv(self),
            self.wf() ==> r.wf(),
    {
        let mut strings: Vec<(u16, String)> = Vec::new();
        let mut i: usize = 0;
        while i < self.strings.len()
            invariant
                i <= self.strings@.len(),
                strings@.len() == i,
                forall|j: int|
                    0 <= j < i ==> (#[trigger] strings@[j]).0 == self.strings@[j].0
                        && strings@[j].1@ == self.strings@[j].1@,
            decreases self.strings@.len() - i,
        {
            let pair = &self.strings[i];
            strings.push((pair.0, pair.1.clone()));
            i = i + 1;
        }
        EnumDBR {
            status: self.status,
            severity: self.severity,
            strings,
            value: self.value,
            last_updated: self.last_updated,
        }
    }
}

} // verus!
