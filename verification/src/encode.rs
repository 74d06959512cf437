//! Serialization of a value and its metadata into the exact wire byte
//! layout: optional status/severity, optional re-based timestamp, the
//! protocol's fixed padding, the (possibly converted and element-limited)
//! value bytes, and trailing zeros up to an eight-byte boundary.

use vstd::prelude::*;
use crate::bytes::{be16_bytes, be32_bytes, push_be16, push_be32, push_zero_bytes, zero_bytes};
use crate::container::{cast_seq, enc_prefix, SingleOrVec};
use crate::dbr::{Dbr, DbrValue};
use crate::messages::ErrorCondition;
use crate::records::numeric_cast_ok;
use crate::scalar::{CastTo, DbrScalar, F32, F64};
use crate::wire::{DBRBasicType, DBRCategory, DBRType};

verus! {

/// Seconds between the 1970 epoch and the protocol's 1990 epoch.
pub const PROTOCOL_EPOCH_OFFSET_SECS: u32 = 631152000;

/// The wire's 32-bit seconds field: the timestamp's seconds re-based to the
/// protocol's 1990 epoch, taken modulo 2^32 (the field wraps for times that
/// do not fit 32 bits).
pub open spec fn rebase_secs_spec(secs: u64) -> u32 {
    let t = secs as u32;
    if t >= PROTOCOL_EPOCH_OFFSET_SECS {
        (t - PROTOCOL_EPOCH_OFFSET_SECS) as u32
    } else {
        ((t as u64 + 0x1_0000_0000u64 - PROTOCOL_EPOCH_OFFSET_SECS as u64) as u32)
    }
}

/// Computes the re-based wire seconds field.
pub fn rebase_secs(secs: u64) -> (r: u32)
    ensures
        r == rebase_secs_spec(secs),
{
    let t: u32 = secs as u32;
    if t >= PROTOCOL_EPOCH_OFFSET_SECS {
        t - PROTOCOL_EPOCH_OFFSET_SECS
    } else {
        ((t as u64 + 0x1_0000_0000u64 - PROTOCOL_EPOCH_OFFSET_SECS as u64) as u32)
    }
}

/// The trailing zero bytes needed to reach the next multiple of eight: none
/// when the length is already a multiple.
pub open spec fn pad_to_eight(len: nat) -> nat {
    if len % 8 == 0 {
        0
    } else {
        (8 - len % 8) as nat
    }
}

/// The bytes a value container encodes to, given only its shape and
/// elements: nothing for a limit of zero; otherwise a single scalar's full
/// image, or for a group the first `min(limit, length)` element images
/// concatenated.
pub open spec fn container_bytes<T: DbrScalar>(is_single: bool, elems: Seq<T>, limit: int) -> Seq<
    u8,
> {
    if is_single {
        if limit <= 0 {
            Seq::empty()
        } else if elems.len() > 0 {
            elems[0].be_bytes_spec()
        } else {
            Seq::empty()
        }
    } else {
        enc_prefix(elems, if limit < elems.len() { limit } else { elems.len() as int })
    }
}

/// What a container's `as_bytes` yields, restated over its shape and
/// elements alone.
pub proof fn lemma_as_bytes_container<T: DbrScalar>(c: &SingleOrVec<T>, limit: usize)
    ensures
        c.as_bytes_spec(Some(limit)) == container_bytes(c.is_single(), c.elems(), limit as int),
{
    match c {
        SingleOrVec::Single(v) => {
            assert(c.elems()[0] == *v);
        },
        SingleOrVec::Vector(_) => {},
    }
}

impl DbrValue {
    /// The element count: 1 for an enumerated value, the container's count
    /// for the numeric kinds. (A string value never reaches the value-byte
    /// encoding path; see [`DbrValue::encode_value`].)
    pub open spec fn count_spec(&self) -> nat {
        match self {
            DbrValue::Enum(_) => 1,
            DbrValue::String(_) => 0,
            DbrValue::Char(v) => v.elems().len(),
            DbrValue::Int(v) => v.elems().len(),
            DbrValue::Long(v) => v.elems().len(),
            DbrValue::Float(v) => v.elems().len(),
            DbrValue::Double(v) => v.elems().len(),
        }
    }

    /// The element count `encode_value` reports: the full count, clipped to
    /// the limit when one is given.
    pub open spec fn encode_count_spec(&self, max_elems: Option<usize>) -> nat {
        match max_elems {
            Some(m) => if (m as nat) < self.count_spec() {
                m as nat
            } else {
                self.count_spec()
            },
            None => self.count_spec(),
        }
    }

    /// The bytes `encode_value` yields for `n` elements: the 2-byte
    /// big-endian index for an enumerated value (whatever the limit), the
    /// container's bytes for the numeric kinds.
    pub open spec fn encode_bytes_spec(&self, n: int) -> Seq<u8> {
        match self {
            DbrValue::Enum(val) => be16_bytes(*val),
            DbrValue::String(_) => Seq::empty(),
            DbrValue::Char(v) => container_bytes(v.is_single(), v.elems(), n),
            DbrValue::Int(v) => container_bytes(v.is_single(), v.elems(), n),
            DbrValue::Long(v) => container_bytes(v.is_single(), v.elems(), n),
            DbrValue::Float(v) => container_bytes(v.is_single(), v.elems(), n),
            DbrValue::Double(v) => container_bytes(v.is_single(), v.elems(), n),
        }
    }

    /// The element count. A string value is outside this path: the caller
    /// must have excluded it.
    pub fn get_count(&self) -> (r: usize)
        requires
            !(self matches DbrValue::String(_)),
        ensures
            r == self.count_spec(),
    {
        match self {
            DbrValue::Enum(_) => 1,
            DbrValue::String(_) => {
                proof {
                    assert(false);
                }
                0
            },
            DbrValue::Char(v) => v.get_count(),
            DbrValue::Int(v) => v.get_count(),
            DbrValue::Long(v) => v.get_count(),
            DbrValue::Float(v) => v.get_count(),
            DbrValue::Double(v) => v.get_count(),
        }
    }

    /// Encode the value contents into a byte vector, with the element count
    /// actually encoded.
    ///
    /// An absent limit encodes everything; a limit clips the count, and a
    /// limit of zero yields no value bytes for the numeric kinds (the
    /// enumerated index is always emitted whole). A string value never
    /// reaches this path (string is rejected as a conversion target before
    /// any value is encoded), and the caller must have excluded it.
    pub fn encode_value(&self, max_elems: Option<usize>) -> (r: (usize, Vec<u8>))
        requires
            !(self matches DbrValue::String(_)),
        ensures
            r.0 == self.encode_count_spec(max_elems),
            r.1@ == self.encode_bytes_spec(r.0 as int),
    {
        let count = self.get_count();
        let elements: usize = match max_elems {
            Some(m) => if m < count {
                m
            } else {
                count
            },
            None => count,
        };
        let bytes: Vec<u8> = match self {
            DbrValue::Enum(val) => {
                let mut b: Vec<u8> = Vec::new();
                push_be16(&mut b, *val);
                assert(b@ =~= be16_bytes(*val));
                b
            },
            DbrValue::String(_) => {
                proof {
                    assert(false);
                }
                Vec::new()
            },
            DbrValue::Char(v) => {
                proof {
                    lemma_as_bytes_container(v, elements);
                }
                v.as_bytes(Some(elements))
            },
            DbrValue::Int(v) => {
                proof {
                    lemma_as_bytes_container(v, elements);
                }
                v.as_bytes(Some(elements))
            },
            DbrValue::Long(v) => {
                proof {
                    lemma_as_bytes_container(v, elements);
                }
                v.as_bytes(Some(elements))
            },
            DbrValue::Float(v) => {
                proof {
                    lemma_as_bytes_container(v, elements);
                }
                v.as_bytes(Some(elements))
            },
            DbrValue::Double(v) => {
                proof {
                    lemma_as_bytes_container(v, elements);
                }
                v.as_bytes(Some(elements))
            },
        };
        (elements, bytes)
    }
}

impl Dbr {
    /// Whether the conversion matrix lets this value convert to the target.
    pub open spec fn convert_ok_spec(&self, target: DBRBasicType) -> bool {
        match target {
            DBRBasicType::String => false,
            DBRBasicType::Enum => self matches Dbr::Enum(_),
            DBRBasicType::Char => match self {
                Dbr::Char(_) => true,
                Dbr::Int(d) => numeric_cast_ok::<i16, i8>(d),
                Dbr::Long(d) => numeric_cast_ok::<i32, i8>(d),
                Dbr::Float(d) => numeric_cast_ok::<F32, i8>(d),
                Dbr::Double(d) => numeric_cast_ok::<F64, i8>(d),
                Dbr::String(_) => false,
                Dbr::Enum(d) => <u16 as CastTo<i8>>::cast_to_spec(d.value) is Some,
            },
            DBRBasicType::Int => match self {
                Dbr::Char(d) => numeric_cast_ok::<i8, i16>(d),
                Dbr::Int(_) => true,
                Dbr::Long(d) => numeric_cast_ok::<i32, i16>(d),
                Dbr::Float(d) => numeric_cast_ok::<F32, i16>(d),
                Dbr::Double(d) => numeric_cast_ok::<F64, i16>(d),
                Dbr::String(_) => false,
                Dbr::Enum(d) => <u16 as CastTo<i16>>::cast_to_spec(d.value) is Some,
            },
            DBRBasicType::Long => match self {
                Dbr::Char(d) => numeric_cast_ok::<i8, i32>(d),
                Dbr::Int(d) => numeric_cast_ok::<i16, i32>(d),
                Dbr::Long(_) => true,
                Dbr::Float(d) => numeric_cast_ok::<F32, i32>(d),
                Dbr::Double(d) => numeric_cast_ok::<F64, i32>(d),
                Dbr::String(_) => false,
                Dbr::Enum(d) => <u16 as CastTo<i32>>::cast_to_spec(d.value) is Some,
            },
            DBRBasicType::Float => match self {
                Dbr::Char(d) => numeric_cast_ok::<i8, F32>(d),
                Dbr::Int(d) => numeric_cast_ok::<i16, F32>(d),
                Dbr::Long(d) => numeric_cast_ok::<i32, F32>(d),
                Dbr::Float(_) => true,
                Dbr::Double(d) => numeric_cast_ok::<F64, F32>(d),
                Dbr::String(_) => false,
                Dbr::Enum(d) => <u16 as CastTo<F32>>::cast_to_spec(d.value) is Some,
            },
            DBRBasicType::Double => match self {
                Dbr::Char(d) => numeric_cast_ok::<i8, F64>(d),
                Dbr::Int(d) => numeric_cast_ok::<i16, F64>(d),
                Dbr::Long(d) => numeric_cast_ok::<i32, F64>(d),
                Dbr::Float(d) => numeric_cast_ok::<F32, F64>(d),
                Dbr::Double(_) => true,
                Dbr::String(_) => false,
                Dbr::Enum(d) => <u16 as CastTo<F64>>::cast_to_spec(d.value) is Some,
            },
        }
    }

    /// The error a failed conversion reports: `UnavailInServ` for the string
    /// target, `NoConvert` otherwise.
    pub open spec fn convert_err_spec(&self, target: DBRBasicType) -> ErrorCondition {
        if target == DBRBasicType::String {
            ErrorCondition::UnavailInServ
        } else {
            ErrorCondition::NoConvert
        }
    }

    /// The value bytes the wire carries after converting this value to the
    /// target basic type, limited to `n` elements (meaningful when
    /// `convert_ok_spec` holds).
    pub open spec fn converted_value_bytes(&self, target: DBRBasicType, n: int) -> Seq<u8> {
        match target {
            DBRBasicType::String => Seq::empty(),
            DBRBasicType::Enum => match self {
                Dbr::Enum(d) => be16_bytes(d.value),
                _ => Seq::empty(),
            },
            DBRBasicType::Char => match self {
                Dbr::Char(d) => container_bytes(d.value.is_single(), d.value.elems(), n),
                Dbr::Int(d) => container_bytes(
                    d.value.is_single(),
                    cast_seq::<i16, i8>(d.value.elems()),
                    n,
                ),
                Dbr::Long(d) => container_bytes(
                    d.value.is_single(),
                    cast_seq::<i32, i8>(d.value.elems()),
                    n,
                ),
                Dbr::Float(d) => container_bytes(
                    d.value.is_single(),
                    cast_seq::<F32, i8>(d.value.elems()),
                    n,
                ),
                Dbr::Double(d) => container_bytes(
                    d.value.is_single(),
                    cast_seq::<F64, i8>(d.value.elems()),
                    n,
                ),
                Dbr::String(_) => Seq::empty(),
                Dbr::Enum(d) => container_bytes(
                    true,
                    seq![<u16 as CastTo<i8>>::cast_to_spec(d.value).unwrap()],
                    n,
                ),
            },
            DBRBasicType::Int => match self {
                Dbr::Char(d) => container_bytes(
                    d.value.is_single(),
                    cast_seq::<i8, i16>(d.value.elems()),
                    n,
                ),
                Dbr::Int(d) => container_bytes(d.value.is_single(), d.value.elems(), n),
                Dbr::Long(d) => container_bytes(
                    d.value.is_single(),
                    cast_seq::<i32, i16>(d.value.elems()),
                    n,
                ),
                Dbr::Float(d) => container_bytes(
                    d.value.is_single(),
                    cast_seq::<F32, i16>(d.value.elems()),
                    n,
                ),
                Dbr::Double(d) => container_bytes(
                    d.value.is_single(),
                    cast_seq::<F64, i16>(d.value.elems()),
                    n,
                ),
                Dbr::String(_) => Seq::empty(),
                Dbr::Enum(d) => container_bytes(
                    true,
                    seq![<u16 as CastTo<i16>>::cast_to_spec(d.value).unwrap()],
                    n,
                ),
            },
            DBRBasicType::Long => match self {
                Dbr::Char(d) => container_bytes(
                    d.value.is_single(),
                    cast_seq::<i8, i32>(d.value.elems()),
                    n,
                ),
                Dbr::Int(d) => container_bytes(
                    d.value.is_single(),
                    cast_seq::<i16, i32>(d.value.elems()),
                    n,
                ),
                Dbr::Long(d) => container_bytes(d.value.is_single(), d.value.elems(), n),
                Dbr::Float(d) => container_bytes(
                    d.value.is_single(),
                    cast_seq::<F32, i32>(d.value.elems()),
                    n,
                ),
                Dbr::Double(d) => container_bytes(
                    d.value.is_single(),
                    cast_seq::<F64, i32>(d.value.elems()),
                    n,
                ),
                Dbr::String(_) => Seq::empty(),
                Dbr::Enum(d) => container_bytes(
                    true,
                    seq![<u16 as CastTo<i32>>::cast_to_spec(d.value).unwrap()],
                    n,
                ),
            },
            DBRBasicType::Float => match self {
                Dbr::Char(d) => container_bytes(
                    d.value.is_single(),
                    cast_seq::<i8, F32>(d.value.elems()),
                    n,
                ),
                Dbr::Int(d) => container_bytes(
                    d.value.is_single(),
                    cast_seq::<i16, F32>(d.value.elems()),
                    n,
                ),
                Dbr::Long(d) => container_bytes(
                    d.value.is_single(),
                    cast_seq::<i32, F32>(d.value.elems()),
                    n,
                ),
                Dbr::Float(d) => container_bytes(d.value.is_single(), d.value.elems(), n),
                Dbr::Double(d) => container_bytes(
                    d.value.is_single(),
                    cast_seq::<F64, F32>(d.value.elems()),
                    n,
                ),
                Dbr::String(_) => Seq::empty(),
                Dbr::Enum(d) => container_bytes(
                    true,
                    seq![<u16 as CastTo<F32>>::cast_to_spec(d.value).unwrap()],
                    n,
                ),
            },
            DBRBasicType::Double => match self {
                Dbr::Char(d) => container_bytes(
                    d.value.is_single(),
                    cast_seq::<i8, F64>(d.value.elems()),
                    n,
                ),
                Dbr::Int(d) => container_bytes(
                    d.value.is_single(),
                    cast_seq::<i16, F64>(d.value.elems()),
                    n,
                ),
                Dbr::Long(d) => container_bytes(
                    d.value.is_single(),
                    cast_seq::<i32, F64>(d.value.elems()),
                    n,
                ),
                Dbr::Float(d) => container_bytes(
                    d.value.is_single(),
                    cast_seq::<F32, F64>(d.value.elems()),
                    n,
                ),
                Dbr::Double(d) => container_bytes(d.value.is_single(), d.value.elems(), n),
                Dbr::String(_) => Seq::empty(),
                Dbr::Enum(d) => container_bytes(
                    true,
                    seq![<u16 as CastTo<F64>>::cast_to_spec(d.value).unwrap()],
                    n,
                ),
            },
        }
    }

    /// The element count `encode_value` reports: the native count, clipped
    /// to `data_count` unless that is zero (zero means "no limit").
    pub open spec fn encoded_count_spec(&self, data_count: usize) -> nat {
        if data_count == 0 {
            self.count_spec()
        } else if (data_count as nat) < self.count_spec() {
            data_count as nat
        } else {
            self.count_spec()
        }
    }

    /// The metadata bytes for a descriptor: status and severity for every
    /// category above `Basic`, the re-based timestamp for `Time`, then the
    /// protocol's fixed padding.
    pub open spec fn meta_bytes_spec(&self, t: DBRType) -> Seq<u8> {
        (if t.category != DBRCategory::Basic {
            be16_bytes(self.status_spec().0 as u16) + be16_bytes(self.status_spec().1 as u16)
        } else {
            Seq::<u8>::empty()
        }) + (if t.category == DBRCategory::Time {
            be32_bytes(rebase_secs_spec(self.last_updated_spec().secs)) + be32_bytes(
                self.last_updated_spec().nanos,
            )
        } else {
            Seq::<u8>::empty()
        }) + zero_bytes(t.metadata_padding_spec() as nat)
    }

    /// The whole wire image for a descriptor: metadata, converted value
    /// bytes, and trailing zeros up to an eight-byte boundary.
    pub open spec fn encoded_bytes_spec(&self, t: DBRType, data_count: usize) -> Seq<u8> {
        let body = self.meta_bytes_spec(t) + self.converted_value_bytes(
            t.basic_type,
            self.encoded_count_spec(data_count) as int,
        );
        body + zero_bytes(pad_to_eight(body.len()))
    }
}

/// What a successful or failed conversion means for encoding: success agrees
/// with `convert_ok_spec`, a failure carries `convert_err_spec`, and a
/// converted value has the target's kind, the source's count, and value
/// bytes equal to the source's converted value bytes.
pub proof fn lemma_convert_preserves(dbr: &Dbr, target: DBRBasicType, r: Result<
    Dbr,
    ErrorCondition,
>)
    requires
        dbr.convert_rel(target, r),
    ensures
        (r is Ok) == dbr.convert_ok_spec(target),
        r matches Err(e) ==> e == dbr.convert_err_spec(target),
        r matches Ok(w) ==> w.native_basic_type() == target,
        r matches Ok(w) ==> w.count_spec() == dbr.count_spec(),
        r matches Ok(w) ==> forall|n: int|
            #[trigger] w.converted_value_bytes(target, n) == dbr.converted_value_bytes(target, n),
{
}

impl Dbr {
    /// Serializes this value for the requested descriptor, returning the
    /// number of elements encoded alongside the wire bytes.
    ///
    /// The `Control` category is rejected whole with `BadType`, as is
    /// `Graphics` for the enumerated and string basic types; a conversion
    /// failure propagates its error; `data_count` of zero means "encode the
    /// native count".
    pub fn encode_value(&self, data_type: DBRType, data_count: usize) -> (r: Result<
        (usize, Vec<u8>),
        ErrorCondition,
    >)
        ensures
            data_type.category == DBRCategory::Control ==> r == Err::<
                (usize, Vec<u8>),
                ErrorCondition,
            >(ErrorCondition::BadType),
            data_type.category == DBRCategory::Graphics && (data_type.basic_type
                == DBRBasicType::Enum || data_type.basic_type == DBRBasicType::String) ==> r
                == Err::<(usize, Vec<u8>), ErrorCondition>(ErrorCondition::BadType),
            data_type.category != DBRCategory::Control && !(data_type.category
                == DBRCategory::Graphics && (data_type.basic_type == DBRBasicType::Enum
                || data_type.basic_type == DBRBasicType::String)) ==> (if self.convert_ok_spec(
                data_type.basic_type,
            ) {
                r matches Ok(p) && p.0 == self.encoded_count_spec(data_count) && p.1@
                    == self.encoded_bytes_spec(data_type, data_count)
            } else {
                r == Err::<(usize, Vec<u8>), ErrorCondition>(
                    self.convert_err_spec(data_type.basic_type),
                )
            }),
    {
        let mut metadata: Vec<u8> = Vec::new();
        // Status and severity always come first, if requested.
        if data_type.category != DBRCategory::Basic {
            let (status, severity) = self.get_status();
            push_be16(&mut metadata, status as u16);
            push_be16(&mut metadata, severity as u16);
        }
        // Only the Time category carries timestamp information.
        if data_type.category == DBRCategory::Time {
            let ts = self.get_last_updated();
            push_be32(&mut metadata, rebase_secs(ts.secs));
            push_be32(&mut metadata, ts.nanos);
        }
        // The Control richness level is not implemented.
        if data_type.category == DBRCategory::Control {
            return Err(ErrorCondition::BadType);
        }
        // Graphical metadata for enumerated and string values is not
        // implemented.
        if data_type.category == DBRCategory::Graphics {
            match data_type.basic_type {
                DBRBasicType::Enum | DBRBasicType::String => {
                    return Err(ErrorCondition::BadType);
                },
                _ => {},
            }
        }
        push_zero_bytes(&mut metadata, data_type.get_metadata_padding());
        assert(metadata@ =~= self.meta_bytes_spec(data_type));

        let cr = self.convert_to(data_type.basic_type);
        proof {
            lemma_convert_preserves(self, data_type.basic_type, cr);
        }
        let converted = match cr {
            Ok(c) => c,
            Err(e) => {
                return Err(e);
            },
        };
        let value = converted.get_value();
        let limit = if data_count == 0 {
            None
        } else {
            Some(data_count)
        };
        let (count, mut value_data) = value.encode_value(limit);
        assert(count == self.encoded_count_spec(data_count));
        assert(value.encode_bytes_spec(count as int) == converted.converted_value_bytes(
            data_type.basic_type,
            count as int,
        ));
        metadata.append(&mut value_data);
        let ghost body = self.meta_bytes_spec(data_type) + self.converted_value_bytes(
            data_type.basic_type,
            count as int,
        );
        assert(metadata@ == body);

        // Extend the packet to a multiple of eight bytes.
        let extra = metadata.len() % 8;
        if extra != 0 {
            push_zero_bytes(&mut metadata, 8 - extra);
        }
        assert(metadata@ =~= self.encoded_bytes_spec(data_type, data_count));
        Ok((count, metadata))
    }
}

} // verus!
