//! Header collections: a mutable list of key/value pairs, its frozen
//! immutable form, and the shareable resource wrapper whose one-way freeze
//! demands sole ownership.
//!
//! Keys are case-folded when stored, so lookup is case-insensitive; values
//! are kept byte for byte, in insertion order.  A value must be valid UTF-8;
//! anything else is rejected as invalid header syntax.

use vstd::prelude::*;
use vstd::slice::slice_to_vec;
use vstd::utf8::valid_utf8;

use crate::seq_util::lemma_filter_push;

verus! {

/// A header name.
pub type FieldName = String;

/// A header value: bytes that must form valid UTF-8.
pub type FieldValue = Vec<u8>;

/// Why a header mutation was rejected.
#[derive(Debug, Clone, Copy, PartialEq, Eq, Structural)]
pub enum HeaderError {
    /// The value is not a well-formed header value.
    InvalidSyntax,
    /// The header may not be set by a guest.
    Forbidden,
    /// The collection has been frozen.
    Immutable,
}

/// Why a freeze was refused.
#[derive(Debug, Clone, Copy, PartialEq, Eq, Structural)]
pub enum FreezeError {
    /// More than one owner still holds the mutable collection.
    OwnershipViolation,
}

/// The case-folded form of a name, as `str::to_lowercase` computes it.
pub uninterp spec fn lower_of(s: Seq<char>) -> Seq<char>;

/// Relies on str::to_lowercase: the lowercase mapping of a string depends on
/// its characters alone.
#[verifier::external_body]
fn lowercase(s: &str) -> (r: String)
    ensures
        r@ == lower_of(s@),
{
    s.to_lowercase()
}

/// Relies on core::str::from_utf8: it returns `Ok` exactly on byte slices
/// that are valid UTF-8.
#[verifier::external_body]
fn utf8_check(v: &[u8]) -> (r: bool)
    ensures
        r == valid_utf8(v@),
{
    core::str::from_utf8(v).is_ok()
}

/// The pairs a list of owned entries stands for.
pub open spec fn entry_views(s: Seq<(String, Vec<u8>)>) -> Seq<(Seq<char>, Seq<u8>)> {
    s.map_values(|p: (String, Vec<u8>)| (p.0@, p.1@))
}

/// The values stored under `key`, in insertion order.
pub open spec fn matching(entries: Seq<(Seq<char>, Seq<u8>)>, key: Seq<char>) -> Seq<Seq<u8>> {
    entries.filter(|p: (Seq<char>, Seq<u8>)| p.0 == key).map_values(
        |p: (Seq<char>, Seq<u8>)| p.1,
    )
}

/// Every stored value is valid UTF-8.
pub open spec fn entries_wf(entries: Seq<(Seq<char>, Seq<u8>)>) -> bool {
    forall|i: int| 0 <= i < entries.len() ==> valid_utf8((#[trigger] entries[i]).1)
}

/// Look up `key` (already folded) in a pair list.
fn get_from(pairs: &Vec<(String, Vec<u8>)>, key: &String) -> (r: Vec<Vec<u8>>)
    ensures
        r.deep_view() =~= matching(entry_views(pairs@), key@),
{
    let ghost all = entry_views(pairs@);
    let mut r: Vec<Vec<u8>> = Vec::new();
    let mut i: usize = 0;
    while i < pairs.len()
        invariant
            i <= pairs@.len(),
            all == entry_views(pairs@),
            r.deep_view() =~= matching(all.take(i as int), key@),
        decreases pairs@.len() - i,
    {
        proof {
            assert(all.take(i + 1) =~= all.take(i as int).push(all[i as int]));
            lemma_filter_push(all.take(i as int), |p: (Seq<char>, Seq<u8>)| p.0 == key@, all[i as int]);
        }
        let ghost prev = r.deep_view();
        let p = &pairs[i];
        proof {
            assert(all[i as int] == (p.0@, p.1@));
        }
        if p.0 == *key {
            let v = slice_to_vec(p.1.as_slice());
            proof {
                assert(v.deep_view() =~= p.1@);
            }
            r.push(v);
            proof {
                assert(r.deep_view() =~= prev.push(p.1@));
                assert(matching(all.take(i + 1), key@) =~= matching(all.take(i as int), key@)
                    .push(p.1@));
            }
        } else {
            proof {
                assert(matching(all.take(i + 1), key@) =~= matching(all.take(i as int), key@));
            }
        }
        i += 1;
    }
    proof {
        assert(all.take(all.len() as int) =~= all);
    }
    r
}

/// Clone a pair list, entry by entry.
fn entries_from(pairs: &Vec<(String, Vec<u8>)>) -> (r: Vec<(FieldName, FieldValue)>)
    ensures
        entry_views(r@) =~= entry_views(pairs@),
{
    let mut r: Vec<(String, Vec<u8>)> = Vec::new();
    let mut i: usize = 0;
    while i < pairs.len()
        invariant
            i <= pairs@.len(),
            entry_views(r@) =~= entry_views(pairs@.take(i as int)),
        decreases pairs@.len() - i,
    {
        let p = &pairs[i];
        r.push((p.0.clone(), slice_to_vec(p.1.as_slice())));
        proof {
            assert(entry_views(pairs@.take(i + 1)) =~= entry_views(pairs@.take(i as int)).push(
                (pairs@[i as int].0@, pairs@[i as int].1@),
            ));
            assert(entry_views(r@) =~= entry_views(pairs@.take(i + 1)));
        }
        i += 1;
    }
    proof {
        assert(pairs@.take(pairs@.len() as int) =~= pairs@);
    }
    r
}

/// A mutable header collection.
#[derive(Debug)]
pub struct Fields {
    pairs: Vec<(String, Vec<u8>)>,
}

impl View for Fields {
    type V = Seq<(Seq<char>, Seq<u8>)>;

    closed spec fn view(&self) -> Seq<(Seq<char>, Seq<u8>)> {
        entry_views(self.pairs@)
    }
}

impl Fields {
    /// An empty collection.
    pub fn new() -> (f: Fields)
        ensures
            f@ =~= Seq::<(Seq<char>, Seq<u8>)>::empty(),
            entries_wf(f@),
    {
        Fields { pairs: Vec::new() }
    }

    /// Append a pair.  The name is stored case-folded; a value that is not
    /// valid UTF-8 is rejected and nothing changes.
    pub fn insert(&mut self, name: FieldName, value: FieldValue) -> (r: Result<(), HeaderError>)
        ensures
            valid_utf8(value@) ==> {
                &&& r is Ok
                &&& final(self)@ =~= old(self)@.push((lower_of(name@), value@))
            },
            !valid_utf8(value@) ==> {
                &&& r == Err::<(), HeaderError>(HeaderError::InvalidSyntax)
                &&& final(self)@ == old(self)@
            },
            entries_wf(old(self)@) ==> entries_wf(final(self)@),
    {
        if !utf8_check(value.as_slice()) {
            Err(HeaderError::InvalidSyntax)
        } else {
            let key = lowercase(name.as_str());
            self.pairs.push((key, value));
            proof {
                assert(final(self)@ =~= old(self)@.push((lower_of(name@), value@)));
            }
            Ok(())
        }
    }

    /// The values stored under `name`, compared case-insensitively, in
    /// insertion order.
    pub fn get(&self, name: &FieldName) -> (r: Vec<FieldValue>)
        ensures
            r.deep_view() =~= matching(self@, lower_of(name@)),
    {
        let key = lowercase(name.as_str());
        get_from(&self.pairs, &key)
    }

    /// Remove every pair stored under `name`, compared case-insensitively.
    pub fn delete(&mut self, name: &FieldName)
        ensures
            final(self)@ =~= old(self)@.filter(
                |p: (Seq<char>, Seq<u8>)| p.0 != lower_of(name@),
            ),
            entries_wf(old(self)@) ==> entries_wf(final(self)@),
    {
        let ghost all = entry_views(self.pairs@);
        let key = lowercase(name.as_str());
        let mut kept: Vec<(String, Vec<u8>)> = Vec::new();
        let mut i: usize = 0;
        while i < self.pairs.len()
            invariant
                i <= self.pairs@.len(),
                all == entry_views(self.pairs@),
                key@ == lower_of(name@),
                entry_views(kept@) =~= all.take(i as int).filter(
                    |p: (Seq<char>, Seq<u8>)| p.0 != lower_of(name@),
                ),
            decreases self.pairs@.len() - i,
        {
            proof {
                assert(all.take(i + 1) =~= all.take(i as int).push(all[i as int]));
                lemma_filter_push(
                    all.take(i as int),
                    |p: (Seq<char>, Seq<u8>)| p.0 != lower_of(name@),
                    all[i as int],
                );
            }
            let p = &self.pairs[i];
            if !(p.0 == key) {
                kept.push((p.0.clone(), slice_to_vec(p.1.as_slice())));
                proof {
                    assert(entry_views(kept@) =~= entry_views(kept@.take(kept@.len() - 1)).push(
                        all[i as int],
                    ));
                }
            }
            i += 1;
        }
        proof {
            assert(all.take(all.len() as int) =~= all);
            let pred = |p: (Seq<char>, Seq<u8>)| p.0 != lower_of(name@);
            if entries_wf(all) {
                crate::seq_util::lemma_filter_elems(all, pred);
                assert forall|k: int|
                    0 <= k < all.filter(pred).len() implies valid_utf8(
                    (#[trigger] all.filter(pred)[k]).1,
                ) by {
                    let e = all.filter(pred)[k];
                    let j = choose|j: int| 0 <= j < all.len() && all[j] == e;
                    assert(valid_utf8(all[j].1));
                }
            }
        }
        self.pairs = kept;
    }

    /// Every pair, key case-folded as stored, values byte for byte.
    pub fn entries(&self) -> (r: Vec<(FieldName, FieldValue)>)
        ensures
            entry_views(r@) =~= self@,
    {
        entries_from(&self.pairs)
    }

    /// The one-way transition into the immutable form; every pair is kept
    /// exactly.
    pub fn into_immut(self) -> (r: ImmutFields)
        ensures
            r@ == self@,
    {
        ImmutFields { pairs: self.pairs }
    }
}

/// A frozen header collection: readable, shareable, never mutable again.
#[derive(Debug)]
pub struct ImmutFields {
    pairs: Vec<(String, Vec<u8>)>,
}

impl View for ImmutFields {
    type V = Seq<(Seq<char>, Seq<u8>)>;

    closed spec fn view(&self) -> Seq<(Seq<char>, Seq<u8>)> {
        entry_views(self.pairs@)
    }
}

impl ImmutFields {
    /// The values stored under `name`, compared case-insensitively, in
    /// insertion order.
    pub fn get(&self, name: &FieldName) -> (r: Vec<FieldValue>)
        ensures
            r.deep_view() =~= matching(self@, lower_of(name@)),
    {
        let key = lowercase(name.as_str());
        get_from(&self.pairs, &key)
    }

    /// Every pair, key case-folded as stored, values byte for byte.
    pub fn entries(&self) -> (r: Vec<(FieldName, FieldValue)>)
        ensures
            entry_views(r@) =~= self@,
    {
        entries_from(&self.pairs)
    }
}

/// How many of these values, from the front, are valid UTF-8 before the
/// first invalid one.
pub open spec fn valid_prefix_len(vs: Seq<Seq<u8>>) -> int
    decreases vs.len(),
{
    if vs.len() == 0 {
        0
    } else if !valid_utf8(vs[0]) {
        0
    } else {
        1 + valid_prefix_len(vs.skip(1))
    }
}

/// `valid_prefix_len` is exactly the length of the valid prefix.
pub proof fn lemma_valid_prefix_len(vs: Seq<Seq<u8>>)
    ensures
        0 <= valid_prefix_len(vs) <= vs.len(),
        forall|j: int| 0 <= j < valid_prefix_len(vs) ==> valid_utf8(#[trigger] vs[j]),
        valid_prefix_len(vs) < vs.len() ==> !valid_utf8(vs[valid_prefix_len(vs)]),
    decreases vs.len(),
{
    if vs.len() > 0 && valid_utf8(vs[0]) {
        lemma_valid_prefix_len(vs.skip(1));
        assert forall|j: int| 0 <= j < valid_prefix_len(vs) implies valid_utf8(#[trigger] vs[j]) by {
            if j > 0 {
                assert(vs[j] == vs.skip(1)[j - 1]);
            }
        }
        if valid_prefix_len(vs) < vs.len() {
            assert(vs[valid_prefix_len(vs)] == vs.skip(1)[valid_prefix_len(vs.skip(1))]);
        }
    }
}

/// Any point with a valid prefix before it and an invalid value (or the
/// end) at it is `valid_prefix_len`.
pub proof fn lemma_valid_prefix_len_is(vs: Seq<Seq<u8>>, k: int)
    requires
        0 <= k <= vs.len(),
        forall|j: int| 0 <= j < k ==> valid_utf8(#[trigger] vs[j]),
        k < vs.len() ==> !valid_utf8(vs[k]),
    ensures
        valid_prefix_len(vs) == k,
    decreases vs.len(),
{
    if vs.len() > 0 && k > 0 {
        assert(valid_utf8(vs[0]));
        assert forall|j: int| 0 <= j < k - 1 implies valid_utf8(#[trigger] vs.skip(1)[j]) by {
            assert(vs.skip(1)[j] == vs[j + 1]);
        }
        if k - 1 < vs.skip(1).len() {
            assert(vs.skip(1)[k - 1] == vs[k]);
        }
        lemma_valid_prefix_len_is(vs.skip(1), k - 1);
    }
}

/// The entries that re-inserting a pair list produces: each key folded once
/// more, each value kept.
pub open spec fn refolded(entries: Seq<(Seq<char>, Seq<u8>)>) -> Seq<(Seq<char>, Seq<u8>)> {
    entries.map_values(|p: (Seq<char>, Seq<u8>)| (lower_of(p.0), p.1))
}

/// A header collection as the host hands it to guests: mutable until
/// frozen, with an explicit count of the handles that share it.  Freezing is
/// refused unless the caller's handle is the only one left.
#[derive(Debug)]
#[allow(inconsistent_fields)]
pub enum FieldsResource {
    /// Still mutable.
    Mut {
        /// The collection itself.
        fields: Fields,
        /// How many handles share it.
        owners: u64,
    },
    /// Frozen; shareable and read-only forever.
    Immut {
        /// The frozen collection.
        fields: ImmutFields,
        /// How many handles share it.
        owners: u64,
    },
}

impl View for FieldsResource {
    type V = Seq<(Seq<char>, Seq<u8>)>;

    closed spec fn view(&self) -> Seq<(Seq<char>, Seq<u8>)> {
        match self {
            FieldsResource::Mut { fields, .. } => fields@,
            FieldsResource::Immut { fields, .. } => fields@,
        }
    }
}

impl FieldsResource {
    /// Whether the collection can still be mutated.
    pub open spec fn is_mut(&self) -> bool {
        self is Mut
    }

    /// How many handles share the collection.
    pub closed spec fn owners(&self) -> u64 {
        match self {
            FieldsResource::Mut { owners, .. } => *owners,
            FieldsResource::Immut { owners, .. } => *owners,
        }
    }

    /// A fresh, mutable resource around `fields`, with this one handle.
    pub fn new(fields: Fields) -> (r: FieldsResource)
        ensures
            r@ == fields@,
            r.is_mut(),
            r.owners() == 1,
    {
        FieldsResource::Mut { fields, owners: 1 }
    }

    /// A fresh resource around an already-frozen collection, with this one
    /// handle.
    pub fn from_immut(fields: ImmutFields) -> (r: FieldsResource)
        ensures
            r@ == fields@,
            !r.is_mut(),
            r.owners() == 1,
    {
        FieldsResource::Immut { fields, owners: 1 }
    }

    /// Take the frozen collection out of its resource; the caller must hold
    /// the only handle.
    pub fn unwrap_immut(self) -> (r: ImmutFields)
        requires
            !self.is_mut(),
            self.owners() == 1,
        ensures
            r@ == self@,
    {
        match self {
            FieldsResource::Immut { fields, .. } => fields,
            FieldsResource::Mut { .. } => vstd::pervasive::unreached(),
        }
    }

    /// Hand out one more handle to the same collection.
    pub fn share(&mut self)
        requires
            old(self).owners() < u64::MAX,
        ensures
            final(self)@ == old(self)@,
            final(self).is_mut() == old(self).is_mut(),
            final(self).owners() == old(self).owners() + 1,
    {
        match self {
            FieldsResource::Mut { owners, .. } => {
                *owners = *owners + 1;
            },
            FieldsResource::Immut { owners, .. } => {
                *owners = *owners + 1;
            },
        }
    }

    /// Give one handle back.
    pub fn release(&mut self)
        requires
            old(self).owners() >= 1,
        ensures
            final(self)@ == old(self)@,
            final(self).is_mut() == old(self).is_mut(),
            final(self).owners() == old(self).owners() - 1,
    {
        match self {
            FieldsResource::Mut { owners, .. } => {
                *owners = *owners - 1;
            },
            FieldsResource::Immut { owners, .. } => {
                *owners = *owners - 1;
            },
        }
    }

    /// The one-way freeze.  It succeeds exactly when the caller holds the
    /// only handle, and then keeps every entry; with other handles still
    /// out, it fails and the collection stays mutable and unchanged.
    pub fn freeze(&mut self) -> (r: Result<(), FreezeError>)
        requires
            old(self).is_mut(),
        ensures
            old(self).owners() == 1 ==> {
                &&& r is Ok
                &&& !final(self).is_mut()
                &&& final(self)@ == old(self)@
                &&& final(self).owners() == 1
            },
            old(self).owners() != 1 ==> {
                &&& r == Err::<(), FreezeError>(FreezeError::OwnershipViolation)
                &&& *final(self) == *old(self)
            },
    {
        let mut tmp = FieldsResource::Immut { fields: ImmutFields { pairs: Vec::new() }, owners: 0 };
        core::mem::swap(self, &mut tmp);
        match tmp {
            FieldsResource::Mut { fields, owners } => {
                if owners == 1 {
                    *self = FieldsResource::Immut { fields: fields.into_immut(), owners: 1 };
                    Ok(())
                } else {
                    *self = FieldsResource::Mut { fields, owners };
                    Err(FreezeError::OwnershipViolation)
                }
            },
            FieldsResource::Immut { .. } => vstd::pervasive::unreached(),
        }
    }

    /// The values stored under `key`, compared case-insensitively.
    pub fn get(&self, key: &FieldName) -> (r: Vec<FieldValue>)
        ensures
            r.deep_view() =~= matching(self@, lower_of(key@)),
    {
        match self {
            FieldsResource::Mut { fields, .. } => fields.get(key),
            FieldsResource::Immut { fields, .. } => fields.get(key),
        }
    }

    /// Whether anything is stored under `key`.
    pub fn has(&self, key: &FieldName) -> (r: bool)
        ensures
            r == (matching(self@, lower_of(key@)).len() != 0),
    {
        let found = self.get(key);
        found.len() != 0
    }

    /// Every entry of the collection.
    pub fn entries(&self) -> (r: Vec<(FieldName, FieldValue)>)
        ensures
            entry_views(r@) =~= self@,
    {
        match self {
            FieldsResource::Mut { fields, .. } => fields.entries(),
            FieldsResource::Immut { fields, .. } => fields.entries(),
        }
    }

    /// Replace everything under `key` by `values`, in order.  Values are
    /// inserted until the first invalid one; a frozen collection refuses.
    pub fn set(&mut self, key: FieldName, values: Vec<FieldValue>) -> (r: Result<
        (),
        HeaderError,
    >)
        ensures
            !old(self).is_mut() ==> {
                &&& r == Err::<(), HeaderError>(HeaderError::Immutable)
                &&& *final(self) == *old(self)
            },
            old(self).is_mut() ==> {
                let vs = values.deep_view();
                let k = valid_prefix_len(vs);
                &&& final(self)@ =~= old(self)@.filter(
                    |p: (Seq<char>, Seq<u8>)| p.0 != lower_of(key@),
                ) + Seq::new(k as nat, |i: int| (lower_of(key@), vs[i]))
                &&& (k == vs.len() ==> r is Ok)
                &&& (k < vs.len() ==> r == Err::<(), HeaderError>(HeaderError::InvalidSyntax))
                &&& final(self).is_mut()
                &&& final(self).owners() == old(self).owners()
            },
    {
        match self {
            FieldsResource::Immut { .. } => Err(HeaderError::Immutable),
            FieldsResource::Mut { fields, .. } => {
                let ghost vs = values.deep_view();
                fields.delete(&key);
                let ghost base = fields@;
                let mut i: usize = 0;
                let mut failed: Option<HeaderError> = None;
                while i < values.len() && failed.is_none()
                    invariant
                        i <= values@.len(),
                        vs == values.deep_view(),
                        vs.len() == values@.len(),
                        failed is None ==> {
                            &&& forall|j: int| 0 <= j < i ==> valid_utf8(#[trigger] vs[j])
                            &&& fields@ =~= base + Seq::new(
                                i as nat,
                                |j: int| (lower_of(key@), vs[j]),
                            )
                        },
                        failed is Some ==> {
                            &&& failed == Some(HeaderError::InvalidSyntax)
                            &&& valid_prefix_len(vs) < vs.len()
                            &&& fields@ =~= base + Seq::new(
                                valid_prefix_len(vs) as nat,
                                |j: int| (lower_of(key@), vs[j]),
                            )
                        },
                    decreases values@.len() - i,
                {
                    let v = slice_to_vec(values[i].as_slice());
                    proof {
                        assert(v@ == vs[i as int]);
                    }
                    match fields.insert(key.clone(), v) {
                        Ok(()) => {
                            proof {
                                assert(fields@ =~= base + Seq::new(
                                    (i + 1) as nat,
                                    |j: int| (lower_of(key@), vs[j]),
                                ));
                            }
                        },
                        Err(e) => {
                            proof {
                                lemma_valid_prefix_len_is(vs, i as int);
                            }
                            failed = Some(e);
                        },
                    }
                    i += 1;
                }
                match failed {
                    Some(e) => Err(e),
                    None => {
                        proof {
                            lemma_valid_prefix_len_is(vs, vs.len() as int);
                        }
                        Ok(())
                    },
                }
            },
        }
    }

    /// Remove everything under `key`; a frozen collection refuses.
    pub fn delete(&mut self, key: &FieldName) -> (r: Result<(), HeaderError>)
        ensures
            !old(self).is_mut() ==> {
                &&& r == Err::<(), HeaderError>(HeaderError::Immutable)
                &&& *final(self) == *old(self)
            },
            old(self).is_mut() ==> {
                &&& r is Ok
                &&& final(self)@ =~= old(self)@.filter(
                    |p: (Seq<char>, Seq<u8>)| p.0 != lower_of(key@),
                )
                &&& final(self).is_mut()
                &&& final(self).owners() == old(self).owners()
            },
    {
        match self {
            FieldsResource::Immut { .. } => Err(HeaderError::Immutable),
            FieldsResource::Mut { fields, .. } => {
                fields.delete(key);
                Ok(())
            },
        }
    }

    /// Append one value under `key`; a frozen collection refuses.
    pub fn append(&mut self, key: FieldName, value: FieldValue) -> (r: Result<(), HeaderError>)
        ensures
            !old(self).is_mut() ==> {
                &&& r == Err::<(), HeaderError>(HeaderError::Immutable)
                &&& *final(self) == *old(self)
            },
            old(self).is_mut() ==> {
                &&& (valid_utf8(value@) ==> r is Ok && final(self)@ =~= old(self)@.push(
                    (lower_of(key@), value@),
                ))
                &&& (!valid_utf8(value@) ==> r == Err::<(), HeaderError>(
                    HeaderError::InvalidSyntax,
                ) && final(self)@ == old(self)@)
                &&& final(self).is_mut()
                &&& final(self).owners() == old(self).owners()
            },
    {
        match self {
            FieldsResource::Immut { .. } => Err(HeaderError::Immutable),
            FieldsResource::Mut { fields, .. } => fields.insert(key, value),
        }
    }

    /// A fresh, mutable resource holding the same entries, with this one
    /// handle; keys are folded once more as they are re-inserted.
    pub fn duplicate(&self) -> (r: FieldsResource)
        requires
            entries_wf(self@),
        ensures
            r@ =~= refolded(self@),
            r.is_mut(),
            r.owners() == 1,
    {
        let entries = self.entries();
        proof {
            let vs = entries.deep_view();
            assert(vs =~= self@) by {
                assert(entry_views(entries@) =~= self@);
                assert forall|i: int| 0 <= i < entries@.len() implies vs[i]
                    == entry_views(entries@)[i] by {
                    assert(vs[i] == entries@[i].deep_view());
                    assert(entries@[i].1.deep_view() =~= entries@[i].1@);
                }
            }
            let vals = vs.map_values(|p: (Seq<char>, Seq<u8>)| p.1);
            assert forall|j: int| 0 <= j < vals.len() implies valid_utf8(#[trigger] vals[j]) by {
                assert(vals[j] == vs[j].1);
            }
            lemma_valid_prefix_len_is(vals, vals.len() as int);
        }
        match from_list(entries) {
            Ok(r) => r,
            Err(_) => vstd::pervasive::unreached(),
        }
    }
}

/// Build a fresh mutable resource from a list of pairs, inserting them in
/// order; the first invalid value aborts the construction.
pub fn from_list(values: Vec<(FieldName, FieldValue)>) -> (r: Result<FieldsResource, HeaderError>)
    ensures
        ({
            let vs = values.deep_view();
            let k = valid_prefix_len(vs.map_values(|p: (Seq<char>, Seq<u8>)| p.1));
            &&& (k == vs.len() ==> match r {
                Ok(fr) => {
                    &&& fr@ =~= refolded(vs)
                    &&& fr.is_mut()
                    &&& fr.owners() == 1
                },
                Err(_) => false,
            })
            &&& (k < vs.len() ==> r == Err::<FieldsResource, HeaderError>(
                HeaderError::InvalidSyntax,
            ))
        }),
{
    let ghost vs = values.deep_view();
    let ghost vals = vs.map_values(|p: (Seq<char>, Seq<u8>)| p.1);
    let mut fields = Fields::new();
    let mut i: usize = 0;
    while i < values.len()
        invariant
            i <= values@.len(),
            vs == values.deep_view(),
            vals == vs.map_values(|p: (Seq<char>, Seq<u8>)| p.1),
            vs.len() == values@.len(),
            forall|j: int| 0 <= j < i ==> valid_utf8(#[trigger] vals[j]),
            fields@ =~= refolded(vs).take(i as int),
        decreases values@.len() - i,
    {
        let p = &values[i];
        let name = p.0.clone();
        let value = slice_to_vec(p.1.as_slice());
        proof {
            assert(name@ == vs[i as int].0 && value@ == vs[i as int].1);
            assert(vals[i as int] == vs[i as int].1);
        }
        match fields.insert(name, value) {
            Ok(()) => {
                proof {
                    assert(fields@ =~= refolded(vs).take(i + 1));
                }
            },
            Err(e) => {
                proof {
                    lemma_valid_prefix_len_is(vals, i as int);
                }
                return Err(e);
            },
        }
        i += 1;
    }
    proof {
        lemma_valid_prefix_len_is(vals, vals.len() as int);
        assert(refolded(vs).take(vs.len() as int) =~= refolded(vs));
    }
    Ok(FieldsResource::new(fields))
}

} // verus!
