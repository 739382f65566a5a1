//! The registry a runtime describes itself with: its pallets, with their calls
//! and errors, and a table of type shapes. A registry is built once and only
//! read afterwards; every lookup returns the first entry that matches.

use vstd::prelude::*;

verus! {

/// A call that a pallet exposes, with its index within the pallet.
#[derive(Clone, Debug)]
pub struct CallMetadata {
    pub index: u8,
    pub name: String,
}

/// An error that a pallet can report, with its index within the pallet.
#[derive(Clone, Debug)]
pub struct ErrorMetadata {
    pub index: u8,
    pub name: String,
    pub description: Vec<String>,
}

/// A pallet of the runtime, at its index.
#[derive(Clone, Debug)]
pub struct PalletMetadata {
    pub index: u8,
    pub name: String,
    pub calls: Vec<CallMetadata>,
    pub errors: Vec<ErrorMetadata>,
}

/// The shape of a registered type, by the identifiers of the types it holds.
#[derive(Clone, Debug)]
pub enum TypeShape {
    Composite(Vec<u32>),
    Tuple(Vec<u32>),
    Variant(Vec<String>),
    Sequence(u32),
    Primitive(String),
}

/// A registered type under its identifier.
#[derive(Clone, Debug)]
pub struct TypeEntry {
    pub id: u32,
    pub shape: TypeShape,
}

/// Where a by-index or by-name lookup in the registry came up empty.
#[derive(Clone, Debug, PartialEq, Eq)]
pub enum MetadataError {
    /// No pallet has this index.
    PalletIndexNotFound(u8),
    /// The named pallet has no error at this index.
    ErrorIndexNotFound(String, u8),
    /// The registry has no call of this name in a pallet of that name.
    CallNotFound(String, String),
    /// No type has this identifier.
    TypeNotFound(u32),
}

/// A call selector: the pallet's index, then the call's index within it.
pub type CallIndex = [u8; 2];

/// `k` is the first position in `ps` of a pallet with index `i`.
pub open spec fn pallet_at(ps: Seq<PalletMetadata>, i: u8, k: int) -> bool {
    0 <= k < ps.len() && ps[k].index == i && forall|j: int| 0 <= j < k ==> ps[j].index != i
}

pub open spec fn has_pallet(ps: Seq<PalletMetadata>, i: u8) -> bool {
    exists|k: int| 0 <= k < ps.len() && ps[k].index == i
}

/// `k` is the first position in `es` of an error with index `e`.
pub open spec fn error_at(es: Seq<ErrorMetadata>, e: u8, k: int) -> bool {
    0 <= k < es.len() && es[k].index == e && forall|j: int| 0 <= j < k ==> es[j].index != e
}

pub open spec fn has_error(es: Seq<ErrorMetadata>, e: u8) -> bool {
    exists|k: int| 0 <= k < es.len() && es[k].index == e
}

/// `k` is the first position in `ps` of a pallet named `name`.
pub open spec fn pallet_named_at(ps: Seq<PalletMetadata>, name: Seq<char>, k: int) -> bool {
    0 <= k < ps.len() && ps[k].name@ == name && forall|j: int| 0 <= j < k ==> ps[j].name@ != name
}

pub open spec fn has_pallet_named(ps: Seq<PalletMetadata>, name: Seq<char>) -> bool {
    exists|k: int| 0 <= k < ps.len() && ps[k].name@ == name
}

/// `k` is the first position in `cs` of a call named `name`.
pub open spec fn call_named_at(cs: Seq<CallMetadata>, name: Seq<char>, k: int) -> bool {
    0 <= k < cs.len() && cs[k].name@ == name && forall|j: int| 0 <= j < k ==> cs[j].name@ != name
}

pub open spec fn has_call_named(cs: Seq<CallMetadata>, name: Seq<char>) -> bool {
    exists|k: int| 0 <= k < cs.len() && cs[k].name@ == name
}

/// `k` is the first position in `ts` of a type with identifier `id`.
pub open spec fn type_at(ts: Seq<TypeEntry>, id: u32, k: int) -> bool {
    0 <= k < ts.len() && ts[k].id == id && forall|j: int| 0 <= j < k ==> ts[j].id != id
}

pub open spec fn has_type(ts: Seq<TypeEntry>, id: u32) -> bool {
    exists|k: int| 0 <= k < ts.len() && ts[k].id == id
}

/// The selector that a by-name lookup of `call` in pallet `pallet` yields,
/// if the registry has both.
pub open spec fn call_index_spec(ps: Seq<PalletMetadata>, pallet: Seq<char>, call: Seq<char>) -> Option<
    CallIndex,
> {
    if has_pallet_named(ps, pallet) {
        let k = choose|k: int| pallet_named_at(ps, pallet, k);
        if has_call_named(ps[k].calls@, call) {
            let c = choose|c: int| call_named_at(ps[k].calls@, call, c);
            Some([ps[k].index, ps[k].calls@[c].index])
        } else {
            None
        }
    } else {
        None
    }
}

impl PalletMetadata {
    /// The first error of this pallet at index `e`.
    pub fn error_by_index(&self, e: u8) -> (r: Option<&ErrorMetadata>)
        ensures
            match r {
                Some(x) => exists|k: int| error_at(self.errors@, e, k) && *x == self.errors@[k],
                None => !has_error(self.errors@, e),
            },
    {
        let mut k: usize = 0;
        while k < self.errors.len()
            invariant
                0 <= k <= self.errors@.len(),
                forall|j: int| 0 <= j < k ==> self.errors@[j].index != e,
            decreases self.errors@.len() - k,
        {
            if self.errors[k].index == e {
                assert(error_at(self.errors@, e, k as int));
                return Some(&self.errors[k]);
            }
            k = k + 1;
        }
        None
    }

    /// The first call of this pallet named `name`.
    pub fn call_by_name(&self, name: &String) -> (r: Option<&CallMetadata>)
        ensures
            match r {
                Some(x) => exists|k: int| call_named_at(self.calls@, name@, k) && *x == self.calls@[k],
                None => !has_call_named(self.calls@, name@),
            },
    {
        let mut k: usize = 0;
        while k < self.calls.len()
            invariant
                0 <= k <= self.calls@.len(),
                forall|j: int| 0 <= j < k ==> self.calls@[j].name@ != name@,
            decreases self.calls@.len() - k,
        {
            if self.calls[k].name == *name {
                assert(call_named_at(self.calls@, name@, k as int));
                return Some(&self.calls[k]);
            }
            k = k + 1;
        }
        None
    }
}

/// `e` reports that call `call` of pallet `pallet` is not in the registry.
pub open spec fn call_not_found(e: MetadataError, pallet: Seq<char>, call: Seq<char>) -> bool {
    match e {
        MetadataError::CallNotFound(a, b) => a@ == pallet && b@ == call,
        _ => false,
    }
}

/// A runtime's self-description, read-only once built.
pub struct Metadata {
    pallets: Vec<PalletMetadata>,
    types: Vec<TypeEntry>,
}

impl Metadata {
    /// The pallets, in the order they were registered.
    pub closed spec fn pallets(&self) -> Seq<PalletMetadata> {
        self.pallets@
    }

    /// The type table, in the order it was registered.
    pub closed spec fn types(&self) -> Seq<TypeEntry> {
        self.types@
    }

    /// A registry over the given pallets and type table.
    pub fn new(pallets: Vec<PalletMetadata>, types: Vec<TypeEntry>) -> (r: Self)
        ensures
            r.pallets() == pallets@,
            r.types() == types@,
    {
        Metadata { pallets, types }
    }

    /// The first pallet registered at index `i`.
    pub fn pallet_by_index(&self, i: u8) -> (r: Result<&PalletMetadata, MetadataError>)
        ensures
            match r {
                Ok(p) => exists|k: int| pallet_at(self.pallets(), i, k) && *p == self.pallets()[k],
                Err(e) => !has_pallet(self.pallets(), i) && e == MetadataError::PalletIndexNotFound(i),
            },
    {
        let mut k: usize = 0;
        while k < self.pallets.len()
            invariant
                0 <= k <= self.pallets@.len(),
                forall|j: int| 0 <= j < k ==> self.pallets@[j].index != i,
            decreases self.pallets@.len() - k,
        {
            if self.pallets[k].index == i {
                assert(pallet_at(self.pallets(), i, k as int));
                return Ok(&self.pallets[k]);
            }
            k = k + 1;
        }
        Err(MetadataError::PalletIndexNotFound(i))
    }

    /// The first pallet named `name`.
    pub fn pallet_by_name(&self, name: &String) -> (r: Option<&PalletMetadata>)
        ensures
            match r {
                Some(p) => exists|k: int| pallet_named_at(self.pallets(), name@, k) && *p == self.pallets()[k],
                None => !has_pallet_named(self.pallets(), name@),
            },
    {
        let mut k: usize = 0;
        while k < self.pallets.len()
            invariant
                0 <= k <= self.pallets@.len(),
                forall|j: int| 0 <= j < k ==> self.pallets@[j].name@ != name@,
            decreases self.pallets@.len() - k,
        {
            if self.pallets[k].name == *name {
                assert(pallet_named_at(self.pallets(), name@, k as int));
                return Some(&self.pallets[k]);
            }
            k = k + 1;
        }
        None
    }

    /// Two-stage lookup of an error: the pallet by its index, then the error by
    /// its index within that pallet. The failure says which stage failed.
    pub fn error(&self, pallet_index: u8, error_index: u8) -> (r: Result<
        (&PalletMetadata, &ErrorMetadata),
        MetadataError,
    >)
        ensures
            match r {
                Ok((p, x)) => exists|k: int, j: int|
                    pallet_at(self.pallets(), pallet_index, k) && error_at(
                        self.pallets()[k].errors@,
                        error_index,
                        j,
                    ) && *p == self.pallets()[k] && *x == self.pallets()[k].errors@[j],
                Err(e) => {
                    ||| !has_pallet(self.pallets(), pallet_index) && e
                        == MetadataError::PalletIndexNotFound(pallet_index)
                    ||| exists|k: int|
                        pallet_at(self.pallets(), pallet_index, k) && !has_error(
                            self.pallets()[k].errors@,
                            error_index,
                        ) && e == MetadataError::ErrorIndexNotFound(
                            self.pallets()[k].name,
                            error_index,
                        )
                },
            },
    {
        let p = self.pallet_by_index(pallet_index)?;
        match p.error_by_index(error_index) {
            Some(x) => Ok((p, x)),
            None => Err(MetadataError::ErrorIndexNotFound(p.name.clone(), error_index)),
        }
    }

    /// The selector of call `call` in pallet `pallet`, looked up by name.
    pub fn call_index_by_name(&self, pallet: &str, call: &str) -> (r: Result<CallIndex, MetadataError>)
        ensures
            match r {
                Ok(ci) => call_index_spec(self.pallets(), pallet@, call@) == Some(ci),
                Err(e) => call_index_spec(self.pallets(), pallet@, call@) is None && call_not_found(
                    e,
                    pallet@,
                    call@,
                ),
            },
    {
        let pallet_name = pallet.to_owned();
        let call_name = call.to_owned();
        match self.pallet_by_name(&pallet_name) {
            Some(p) => {
                match p.call_by_name(&call_name) {
                    Some(c) => Ok([p.index, c.index]),
                    None => Err(MetadataError::CallNotFound(pallet_name, call_name)),
                }
            },
            None => Err(MetadataError::CallNotFound(pallet_name, call_name)),
        }
    }

    /// The first type registered under identifier `id`.
    pub fn type_by_id(&self, id: u32) -> (r: Result<&TypeShape, MetadataError>)
        ensures
            match r {
                Ok(t) => exists|k: int| type_at(self.types(), id, k) && *t == self.types()[k].shape,
                Err(e) => !has_type(self.types(), id) && e == MetadataError::TypeNotFound(id),
            },
    {
        let mut k: usize = 0;
        while k < self.types.len()
            invariant
                0 <= k <= self.types@.len(),
                forall|j: int| 0 <= j < k ==> self.types@[j].id != id,
            decreases self.types@.len() - k,
        {
            if self.types[k].id == id {
                assert(type_at(self.types(), id, k as int));
                return Ok(&self.types[k].shape);
            }
            k = k + 1;
        }
        Err(MetadataError::TypeNotFound(id))
    }
}

} // verus!
