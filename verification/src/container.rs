//! Hold an individual value or group of values.
//!
//! Allows distinguishing between single values (where setting an array would
//! be an error) and an array of values, where setting with a different vector
//! length might be acceptable.

use vstd::prelude::*;
use crate::messages::ErrorCondition;
use crate::scalar::{CastTo, DbrScalar};

verus! {

/// The concatenated big-endian byte images of the first `k` elements of `s`
/// (of every element, when `k` exceeds the length).
pub open spec fn enc_prefix<T: DbrScalar>(s: Seq<T>, k: int) -> Seq<u8>
    decreases k,
{
    if k <= 0 {
        Seq::empty()
    } else {
        enc_prefix(s, k - 1) + (if k <= s.len() {
            s[k - 1].be_bytes_spec()
        } else {
            Seq::empty()
        })
    }
}

/// Two sequences that agree on their first `k` elements encode those
/// elements to the same bytes.
pub proof fn lemma_enc_prefix_agree<T: DbrScalar>(s1: Seq<T>, s2: Seq<T>, k: int)
    requires
        0 <= k,
        k <= s1.len(),
        k <= s2.len(),
        forall|i: int| 0 <= i < k ==> s1[i] == s2[i],
    ensures
        enc_prefix(s1, k) == enc_prefix(s2, k),
    decreases k,
{
    if k > 0 {
        lemma_enc_prefix_agree(s1, s2, k - 1);
    }
}

/// Requesting zero elements yields the empty byte sequence, whatever the
/// container holds.
pub proof fn lemma_zero_limit_yields_nothing<T: DbrScalar>(c: &SingleOrVec<T>)
    ensures
        c.as_bytes_spec(Some(0usize)) == Seq::<u8>::empty(),
{
}

/// Element-limit encoding, for an array-shaped container: a limit of zero
/// yields no bytes; an absent limit yields the same bytes as a limit equal
/// to the length (every element); a limit `k` within the length yields
/// exactly the first `k` elements' concatenated bytes.
pub proof fn lemma_array_element_limit<T: DbrScalar>(c: &SingleOrVec<T>, k: usize)
    requires
        !c.is_single(),
        k <= c.elems().len(),
    ensures
        c.as_bytes_spec(Some(0usize)) == Seq::<u8>::empty(),
        c.as_bytes_spec(None) == enc_prefix(c.elems(), c.elems().len() as int),
        c.as_bytes_spec(Some(k)) == enc_prefix(c.elems().take(k as int), k as int),
{
    lemma_enc_prefix_agree(c.elems(), c.elems().take(k as int), k as int);
}

/// Whether every element of `s` converts to the target kind.
pub open spec fn cast_seq_ok<T: CastTo<U>, U>(s: Seq<T>) -> bool {
    forall|i: int| 0 <= i < s.len() ==> (#[trigger] s[i].cast_to_spec()) is Some
}

/// The element-wise converted sequence (meaningful when `cast_seq_ok` holds).
pub open spec fn cast_seq<T: CastTo<U>, U>(s: Seq<T>) -> Seq<U> {
    s.map(|i: int, v: T| v.cast_to_spec().unwrap())
}

/// A single scalar or an ordered group of scalars of one numeric kind.
#[derive(Debug)]
pub enum SingleOrVec<T> {
    Single(T),
    Vector(Vec<T>),
}

impl<T> SingleOrVec<T> {
    /// Whether this container holds one scalar (as opposed to a group).
    pub open spec fn is_single(&self) -> bool {
        self matches SingleOrVec::Single(_)
    }

    /// The held elements, in order; a single scalar is one element.
    pub open spec fn elems(&self) -> Seq<T> {
        match self {
            SingleOrVec::Single(v) => seq![*v],
            SingleOrVec::Vector(vec) => vec@,
        }
    }

    /// The element count: 1 for a single scalar, the group's length otherwise.
    pub fn get_count(&self) -> (r: usize)
        ensures
            r == self.elems().len(),
    {
        match self {
            SingleOrVec::Single(_) => 1,
            SingleOrVec::Vector(v) => v.len(),
        }
    }
}

impl<T: Copy> Clone for SingleOrVec<T> {
    /// Cloning keeps the shape and the elements.
    fn clone(&self) -> (r: Self)
        ensures
            r.is_single() == self.is_single(),
            r.elems() == self.elems(),
    {
        match self {
            SingleOrVec::Single(v) => SingleOrVec::Single(*v),
            SingleOrVec::Vector(vec) => {
                let mut out: Vec<T> = Vec::new();
                let mut i: usize = 0;
                while i < vec.len()
                    invariant
                        i <= vec@.len(),
                        out@ == vec@.take(i as int),
                    decreases vec@.len() - i,
                {
                    out.push(vec[i]);
                    assert(out@ =~= vec@.take(i + 1));
                    i = i + 1;
                }
                assert(out@ =~= vec@);
                SingleOrVec::Vector(out)
            },
        }
    }
}

impl<T: DbrScalar> SingleOrVec<T> {
    /// The bytes `as_bytes` returns. A limit of zero yields no bytes for
    /// either shape. Otherwise a single scalar's full image; for a group,
    /// the images of the first `min(limit, length)` elements concatenated
    /// (of every element when the limit is absent).
    pub open spec fn as_bytes_spec(&self, elements: Option<usize>) -> Seq<u8> {
        match self {
            SingleOrVec::Single(v) => match elements {
                Some(e) => if e == 0 {
                    Seq::empty()
                } else {
                    v.be_bytes_spec()
                },
                None => v.be_bytes_spec(),
            },
            SingleOrVec::Vector(vec) => {
                let k: int = match elements {
                    Some(e) => if e < vec@.len() {
                        e as int
                    } else {
                        vec@.len() as int
                    },
                    None => vec@.len() as int,
                };
                enc_prefix(vec@, k)
            },
        }
    }

    /// Encode this value as a big-endian byte array.
    ///
    /// Only the first `elements` values will be encoded, or the whole
    /// dataset if `elements` is absent. If `elements` is zero then no data
    /// is returned, for a single scalar as for a group.
    pub fn as_bytes(&self, elements: Option<usize>) -> (r: Vec<u8>)
        ensures
            r@ == self.as_bytes_spec(elements),
    {
        match self {
            SingleOrVec::Single(v) => match elements {
                Some(e) => if e == 0 {
                    Vec::new()
                } else {
                    v.to_be_byte_vec()
                },
                None => v.to_be_byte_vec(),
            },
            SingleOrVec::Vector(vec) => {
                let k: usize = match elements {
                    Some(e) => if e < vec.len() {
                        e
                    } else {
                        vec.len()
                    },
                    None => vec.len(),
                };
                let mut out: Vec<u8> = Vec::new();
                let mut i: usize = 0;
                while i < k
                    invariant
                        i <= k,
                        k <= vec@.len(),
                        out@ == enc_prefix(vec@, i as int),
                    decreases k - i,
                {
                    let mut b = vec[i].to_be_byte_vec();
                    out.append(&mut b);
                    assert(out@ == enc_prefix(vec@, i + 1));
                    i = i + 1;
                }
                out
            },
        }
    }

    /// Convert to an equivalent container for a different kind. The
    /// conversion is checked: it fails with `NoConvert` at the first element
    /// that the target kind cannot represent, and an empty group always
    /// converts.
    pub fn convert_to<U: DbrScalar>(&self) -> (r: Result<SingleOrVec<U>, ErrorCondition>) where
        T: CastTo<U>,

        ensures
            (r is Ok) <==> cast_seq_ok::<T, U>(self.elems()),
            r matches Ok(c) ==> c.is_single() == self.is_single() && c.elems() == cast_seq::<
                T,
                U,
            >(self.elems()),
            !cast_seq_ok::<T, U>(self.elems()) ==> r == Err::<SingleOrVec<U>, ErrorCondition>(
                ErrorCondition::NoConvert,
            ),
    {
        match self {
            SingleOrVec::Single(v) => match v.cast_to() {
                Some(u) => {
                    let c = SingleOrVec::Single(u);
                    assert(c.elems() =~= cast_seq::<T, U>(self.elems()));
                    Ok(c)
                },
                None => {
                    assert(self.elems()[0].cast_to_spec() is None);
                    Err(ErrorCondition::NoConvert)
                },
            },
            SingleOrVec::Vector(vec) => {
                let mut out: Vec<U> = Vec::new();
                let mut i: usize = 0;
                while i < vec.len()
                    invariant
                        i <= vec@.len(),
                        self.elems() == vec@,
                        forall|j: int| 0 <= j < i ==> (#[trigger] vec@[j].cast_to_spec()) is Some,
                        out@ == cast_seq::<T, U>(vec@.take(i as int)),
                    decreases vec@.len() - i,
                {
                    match vec[i].cast_to() {
                        Some(u) => {
                            out.push(u);
                            assert(out@ =~= cast_seq::<T, U>(vec@.take(i + 1)));
                        },
                        None => {
                            assert(self.elems()[i as int].cast_to_spec() is None);
                            return Err(ErrorCondition::NoConvert);
                        },
                    }
                    i = i + 1;
                }
                assert(self.elems() == vec@);
                assert(vec@.take(vec@.len() as int) =~= vec@);
                let c = SingleOrVec::Vector(out);
                assert(c.elems() =~= cast_seq::<T, U>(self.elems()));
                Ok(c)
            },
        }
    }
}

} // verus!
