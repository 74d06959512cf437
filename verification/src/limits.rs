//! Optional display/warning/alarm bounds over a numeric kind, convertible to
//! another kind by checked casts.

use vstd::prelude::*;
use crate::messages::ErrorCondition;
use crate::scalar::CastTo;

verus! {

/// Whether an optional bound converts: an absent bound always does, a present
/// one exactly when its checked cast succeeds.
pub open spec fn opt_cast_ok<T: CastTo<U>, U>(o: Option<T>) -> bool {
    o matches Some(v) ==> v.cast_to_spec() is Some
}

/// The converted optional bound (meaningful when `opt_cast_ok` holds).
pub open spec fn opt_cast<T: CastTo<U>, U>(o: Option<T>) -> Option<U> {
    match o {
        None => None,
        Some(v) => Some(v.cast_to_spec().unwrap()),
    }
}

/// An optional pair of bounds over a numeric kind.
#[derive(Debug, Clone, Copy)]
pub struct Limits<T> {
    pub upper: Option<T>,
    pub lower: Option<T>,
}

/// Whether every present bound of `l` converts to the target kind.
pub open spec fn limits_cast_ok<T: CastTo<U>, U>(l: Limits<T>) -> bool {
    opt_cast_ok::<T, U>(l.upper) && opt_cast_ok::<T, U>(l.lower)
}

/// The converted bounds (meaningful when `limits_cast_ok` holds).
pub open spec fn limits_cast<T: CastTo<U>, U>(l: Limits<T>) -> Limits<U> {
    Limits { upper: opt_cast(l.upper), lower: opt_cast(l.lower) }
}

impl<T> Limits<T> {
    /// The defaulted bounds: both absent.
    pub open spec fn default_spec() -> Limits<T> {
        Limits { upper: None, lower: None }
    }
}

impl<T: Copy> Limits<T> {
    /// Converts both bounds to another kind; fails with `NoConvert` exactly
    /// when some present bound cannot be represented in the target kind.
    pub fn convert_to<U>(&self) -> (r: Result<Limits<U>, ErrorCondition>) where T: CastTo<U>
        ensures
            r == (if limits_cast_ok::<T, U>(*self) {
                Ok::<Limits<U>, ErrorCondition>(limits_cast::<T, U>(*self))
            } else {
                Err::<Limits<U>, ErrorCondition>(ErrorCondition::NoConvert)
            }),
    {
        let upper: Option<U> = match self.upper {
            None => None,
            Some(v) => match v.cast_to() {
                Some(u) => Some(u),
                None => {
                    return Err(ErrorCondition::NoConvert);
                },
            },
        };
        let lower: Option<U> = match self.lower {
            None => None,
            Some(v) => match v.cast_to() {
                Some(u) => Some(u),
                None => {
                    return Err(ErrorCondition::NoConvert);
                },
            },
        };
        Ok(Limits { upper, lower })
    }
}

impl<T> Default for Limits<T> {
    /// The default bounds: both absent.
    fn default() -> (r: Self)
        ensures
            r == Limits::<T>::default_spec(),
    {
        Limits { upper: None, lower: None }
    }
}

/// The three bound pairs a numeric record carries.
#[derive(Debug, Clone, Copy)]
pub struct LimitSet<T> {
    pub display_limits: Limits<T>,
    pub warning_limits: Limits<T>,
    pub alarm_limits: Limits<T>,
}

/// Whether every present bound of every pair of `l` converts.
pub open spec fn limit_set_cast_ok<T: CastTo<U>, U>(l: LimitSet<T>) -> bool {
    limits_cast_ok::<T, U>(l.display_limits) && limits_cast_ok::<T, U>(l.warning_limits)
        && limits_cast_ok::<T, U>(l.alarm_limits)
}

/// The converted bound pairs (meaningful when `limit_set_cast_ok` holds).
pub open spec fn limit_set_cast<T: CastTo<U>, U>(l: LimitSet<T>) -> LimitSet<U> {
    LimitSet {
        display_limits: limits_cast(l.display_limits),
        warning_limits: limits_cast(l.warning_limits),
        alarm_limits: limits_cast(l.alarm_limits),
    }
}

impl<T> LimitSet<T> {
    /// The defaulted set: every bound absent.
    pub open spec fn default_spec() -> LimitSet<T> {
        LimitSet {
            display_limits: Limits::default_spec(),
            warning_limits: Limits::default_spec(),
            alarm_limits: Limits::default_spec(),
        }
    }
}

impl<T: Copy> LimitSet<T> {
    /// Converts every pair element-wise; fails with `NoConvert` exactly when
    /// some present bound cannot be represented in the target kind.
    pub fn convert_to<U>(&self) -> (r: Result<LimitSet<U>, ErrorCondition>) where T: CastTo<U>
        ensures
            r == (if limit_set_cast_ok::<T, U>(*self) {
                Ok::<LimitSet<U>, ErrorCondition>(limit_set_cast::<T, U>(*self))
            } else {
                Err::<LimitSet<U>, ErrorCondition>(ErrorCondition::NoConvert)
            }),
    {
        let display_limits = match self.display_limits.convert_to() {
            Ok(l) => l,
            Err(e) => {
                return Err(e);
            },
        };
        let warning_limits = match self.warning_limits.convert_to() {
            Ok(l) => l,
            Err(e) => {
                return Err(e);
            },
        };
        let alarm_limits = match self.alarm_limits.convert_to() {
            Ok(l) => l,
            Err(e) => {
                return Err(e);
            },
        };
        Ok(LimitSet { display_limits, warning_limits, alarm_limits })
    }
}

impl<T> Default for LimitSet<T> {
    /// The default set: every bound absent.
    fn default() -> (r: Self)
        ensures
            r == LimitSet::<T>::default_spec(),
    {
        LimitSet {
            display_limits: Limits { upper: None, lower: None },
            warning_limits: Limits { upper: None, lower: None },
            alarm_limits: Limits { upper: None, lower: None },
        }
    }
}

} // verus!
