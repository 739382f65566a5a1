//! The error surface: resolution of runtime dispatch failures into named
//! errors, and the union of every failure kind the library reports.

use vstd::prelude::*;
use crate::encoding::{hex_encode, hex_of};
use crate::metadata::{
    error_at, has_error, has_pallet, pallet_at, Metadata, MetadataError, PalletMetadata,
};

use parity_scale_codec::Error as CodecError;
use serde_json::Error as JsonError;

verus! {

/// Relies on `parity_scale_codec::Error`, carried as an opaque value.
#[verifier::external_type_specification]
#[verifier::external_body]
pub struct ExCodecError(CodecError);

/// Relies on `serde_json::Error`, carried as an opaque value.
#[verifier::external_type_specification]
#[verifier::external_body]
pub struct ExJsonError(JsonError);

/// The raw bytes of a module error, as the runtime reported them.
#[derive(Clone, Copy, Debug)]
pub struct ModuleErrorData {
    /// Index of the pallet that the error came from.
    pub pallet_index: u8,
    /// Raw error bytes; the first is the error's index within the pallet.
    pub error: [u8; 4],
}

impl ModuleErrorData {
    /// The error index, carried as the first byte of the raw error.
    pub fn error_index(&self) -> (r: u8)
        ensures
            r == self.error[0],
    {
        self.error[0]
    }
}

/// A failure that the runtime reported after trying to execute a call.
#[derive(Clone, Debug)]
pub enum DispatchError {
    /// An error of a specific pallet, by index.
    Module(ModuleErrorData),
    BadOrigin,
    CannotLookup,
    ConsumerRemaining,
    TooManyConsumers,
    NoProviders,
    Arithmetic,
    Token,
    Transactional,
    Exhausted,
    Corruption,
    Unavailable,
    RootNotAllowed,
    /// A failure that comes with a textual explanation.
    Other(String),
}

/// A module error with its names resolved from the metadata.
#[derive(Clone, Debug)]
pub struct ModuleError {
    /// The name of the pallet that the error came from.
    pub pallet: String,
    /// The name of the error.
    pub error: String,
    /// A description of the error.
    pub description: Vec<String>,
    /// The raw bytes the error was resolved from.
    pub error_data: ModuleErrorData,
}

/// A dispatch failure in its resolved form.
#[derive(Clone, Debug)]
pub enum RuntimeError {
    Module(ModuleError),
    BadOrigin,
    CannotLookup,
    ConsumerRemaining,
    TooManyConsumers,
    NoProviders,
    Other(String),
}

/// The label a dispatch failure without a variant of its own resolves to.
pub open spec fn fallback_label(error: DispatchError) -> Seq<char> {
    match error {
        DispatchError::Arithmetic => "math_error"@,
        DispatchError::Token => "token error"@,
        DispatchError::Transactional => "transactional error"@,
        DispatchError::Exhausted => "exhausted"@,
        DispatchError::Corruption => "corruption"@,
        DispatchError::Unavailable => "unavailable"@,
        DispatchError::RootNotAllowed => "root not allowed"@,
        DispatchError::Other(msg) => msg@,
        _ => Seq::empty(),
    }
}

/// `rt` is the resolved form of a module error found at pallet position `k`
/// and error position `j` of the registry.
pub open spec fn resolved_module(
    rt: RuntimeError,
    ps: Seq<PalletMetadata>,
    k: int,
    j: int,
    data: ModuleErrorData,
) -> bool {
    match rt {
        RuntimeError::Module(m) => {
            &&& m.pallet@ == ps[k].name@
            &&& m.error@ == ps[k].errors@[j].name@
            &&& m.description.deep_view() == ps[k].errors@[j].description.deep_view()
            &&& m.error_data == data
        },
        _ => false,
    }
}

impl RuntimeError {
    /// Resolves a dispatch failure against the metadata. A module error is
    /// looked up by pallet index and by the first byte of its raw error; a
    /// failed lookup is reported as the metadata error it is.
    pub fn from_dispatch(metadata: &Metadata, error: DispatchError) -> (r: Result<Self, Error>)
        ensures
            match error {
                DispatchError::Module(d) => {
                    let ps = metadata.pallets();
                    match r {
                        Ok(rt) => exists|k: int, j: int|
                            pallet_at(ps, d.pallet_index, k) && error_at(
                                ps[k].errors@,
                                d.error[0],
                                j,
                            ) && resolved_module(rt, ps, k, j, d),
                        Err(e) => {
                            ||| !has_pallet(ps, d.pallet_index) && e == Error::Metadata(
                                MetadataError::PalletIndexNotFound(d.pallet_index),
                            )
                            ||| exists|k: int|
                                pallet_at(ps, d.pallet_index, k) && !has_error(
                                    ps[k].errors@,
                                    d.error[0],
                                ) && e == Error::Metadata(
                                    MetadataError::ErrorIndexNotFound(ps[k].name, d.error[0]),
                                )
                        },
                    }
                },
                DispatchError::BadOrigin => r == Ok::<RuntimeError, Error>(RuntimeError::BadOrigin),
                DispatchError::CannotLookup => r == Ok::<RuntimeError, Error>(
                    RuntimeError::CannotLookup,
                ),
                DispatchError::ConsumerRemaining => r == Ok::<RuntimeError, Error>(
                    RuntimeError::ConsumerRemaining,
                ),
                DispatchError::TooManyConsumers => r == Ok::<RuntimeError, Error>(
                    RuntimeError::TooManyConsumers,
                ),
                DispatchError::NoProviders => r == Ok::<RuntimeError, Error>(
                    RuntimeError::NoProviders,
                ),
                _ => match r {
                    Ok(RuntimeError::Other(s)) => s@ == fallback_label(error),
                    _ => false,
                },
            },
            error is Module ==> {
                let d = error->Module_0;
                let ps = metadata.pallets();
                &&& forall|k: int, j: int|
                    pallet_at(ps, d.pallet_index, k) && error_at(ps[k].errors@, d.error[0], j)
                        ==> r is Ok && resolved_module(r->Ok_0, ps, k, j, d)
                &&& !has_pallet(ps, d.pallet_index) ==> r == Err::<RuntimeError, Error>(
                    Error::Metadata(MetadataError::PalletIndexNotFound(d.pallet_index)),
                )
                &&& forall|k: int|
                    pallet_at(ps, d.pallet_index, k) && !has_error(ps[k].errors@, d.error[0])
                        ==> r == Err::<RuntimeError, Error>(
                        Error::Metadata(
                            MetadataError::ErrorIndexNotFound(ps[k].name, d.error[0]),
                        ),
                    )
            },
    {
        match error {
            DispatchError::Module(data) => {
                let looked = metadata.error(data.pallet_index, data.error_index());
                match looked {
                    Ok((p, x)) => {
                        let ghost ps = metadata.pallets();
                        let ghost (k, j) = choose|k: int, j: int|
                            pallet_at(ps, data.pallet_index, k) && error_at(
                                ps[k].errors@,
                                data.error[0],
                                j,
                            ) && *p == ps[k] && *x == ps[k].errors@[j];
                        let description = x.description.clone();
                        assert(description.deep_view() =~= x.description.deep_view());
                        let rt = RuntimeError::Module(
                            ModuleError {
                                pallet: p.name.clone(),
                                error: x.name.clone(),
                                description,
                                error_data: data,
                            },
                        );
                        assert(resolved_module(rt, ps, k, j, data));
                        Ok(rt)
                    },
                    Err(e) => Err(Error::Metadata(e)),
                }
            },
            DispatchError::BadOrigin => Ok(RuntimeError::BadOrigin),
            DispatchError::CannotLookup => Ok(RuntimeError::CannotLookup),
            DispatchError::ConsumerRemaining => Ok(RuntimeError::ConsumerRemaining),
            DispatchError::TooManyConsumers => Ok(RuntimeError::TooManyConsumers),
            DispatchError::NoProviders => Ok(RuntimeError::NoProviders),
            DispatchError::Arithmetic => Ok(RuntimeError::Other("math_error".to_string())),
            DispatchError::Token => Ok(RuntimeError::Other("token error".to_string())),
            DispatchError::Transactional => Ok(
                RuntimeError::Other("transactional error".to_string()),
            ),
            DispatchError::Exhausted => Ok(RuntimeError::Other("exhausted".to_string())),
            DispatchError::Corruption => Ok(RuntimeError::Other("corruption".to_string())),
            DispatchError::Unavailable => Ok(RuntimeError::Other("unavailable".to_string())),
            DispatchError::RootNotAllowed => Ok(
                RuntimeError::Other("root not allowed".to_string()),
            ),
            DispatchError::Other(msg) => Ok(RuntimeError::Other(msg)),
        }
    }
}

/// Block error.
#[derive(Clone, Debug, PartialEq, Eq)]
pub enum BlockError {
    /// No block has the given hash.
    BlockHashNotFound(String),
}

impl BlockError {
    /// An error that a block with the given hash cannot be found; the hash is
    /// rendered as `0x` followed by lowercase hex.
    pub fn block_hash_not_found(hash: &[u8]) -> (r: BlockError)
        ensures
            match r {
                BlockError::BlockHashNotFound(s) => s@ == "0x"@ + hex_of(hash@),
            },
    {
        let mut s = "0x".to_string();
        let digits = hex_encode(hash);
        s.append(digits.as_str());
        BlockError::BlockHashNotFound(s)
    }
}

/// Transaction progress error.
#[derive(Clone, Copy, Debug, PartialEq, Eq, Structural)]
pub enum TransactionError {
    /// The finality subscription expired before the block was finalized.
    FinalitySubscriptionTimeout,
    /// The block the transaction was added to could not be found, probably
    /// because it was retracted before being finalized.
    BlockHashNotFound,
}

/// Something went wrong trying to encode a storage address.
#[derive(Clone, Copy, Debug, PartialEq, Eq, Structural)]
pub enum StorageAddressError {
    /// Storage map type must be a composite type.
    MapTypeMustBeTuple,
    /// Storage lookup does not have the expected number of keys.
    WrongNumberOfKeys {
        /// The actual number of keys needed, based on the metadata.
        actual: usize,
        /// The number of keys provided in the storage address.
        expected: usize,
    },
    /// Storage lookup requires a type that wasn't found in the metadata.
    TypeNotFound(u32),
    /// The storage entry does not have as many hashers as fields.
    WrongNumberOfHashers {
        /// The number of hashers in the metadata for this storage entry.
        hashers: usize,
        /// The number of fields in the metadata for this storage entry.
        fields: usize,
    },
}

/// The metadata blob could not be taken as a registry.
#[derive(Clone, Copy, Debug, PartialEq, Eq, Structural)]
pub enum InvalidMetadataError {
    InvalidPrefix,
    InvalidVersion,
    /// A type that the metadata refers to is missing.
    MissingType(u32),
    /// A type was expected to be an enum and is not.
    TypeDefNotVariant(u32),
}

/// Key material given as a string could not be parsed.
#[derive(Clone, Copy, Debug, PartialEq, Eq, Structural)]
pub enum SecretStringError {
    InvalidFormat,
    InvalidPhrase,
    InvalidPassword,
    InvalidSeed,
    InvalidSeedLength,
    InvalidPath,
}

/// The runtime found a transaction invalid, or could not tell.
#[derive(Clone, Copy, Debug, PartialEq, Eq, Structural)]
pub enum TransactionValidityError {
    /// The transaction is invalid; the runtime's code for the reason.
    Invalid(u8),
    /// Validity could not be determined; the runtime's code for the reason.
    Unknown(u8),
}

/// A value could not be decoded against its registered type.
#[derive(Clone, Debug)]
pub struct DecodeError {
    pub message: String,
}

/// A value could not be encoded against its registered type.
#[derive(Clone, Debug)]
pub struct EncodeError {
    pub message: String,
}

/// The union of every failure the library reports.
#[derive(Debug)]
pub enum Error {
    /// Codec error.
    Codec(CodecError),
    /// Value serialization error.
    Serialization(JsonError),
    /// Secret string error.
    SecretString(SecretStringError),
    /// Extrinsic validity error.
    Invalid(TransactionValidityError),
    /// Invalid metadata error.
    InvalidMetadata(InvalidMetadataError),
    /// Metadata lookup error.
    Metadata(MetadataError),
    /// A resolved runtime failure.
    Runtime(RuntimeError),
    /// Error decoding a value.
    DecodeValue(DecodeError),
    /// Error encoding a value.
    EncodeValue(EncodeError),
    /// Transaction progress error.
    Transaction(TransactionError),
    /// Block related error.
    Block(BlockError),
    /// An error encoding a storage address.
    StorageAddress(StorageAddressError),
    /// Other error.
    Other(String),
}

impl From<CodecError> for Error {
    fn from(e: CodecError) -> Self {
        Error::Codec(e)
    }
}

impl vstd::std_specs::convert::FromSpecImpl<CodecError> for Error {
    open spec fn obeys_from_spec() -> bool {
        true
    }

    open spec fn from_spec(v: CodecError) -> Self {
        Error::Codec(v)
    }
}

impl From<JsonError> for Error {
    fn from(e: JsonError) -> Self {
        Error::Serialization(e)
    }
}

impl vstd::std_specs::convert::FromSpecImpl<JsonError> for Error {
    open spec fn obeys_from_spec() -> bool {
        true
    }

    open spec fn from_spec(v: JsonError) -> Self {
        Error::Serialization(v)
    }
}

impl From<SecretStringError> for Error {
    fn from(e: SecretStringError) -> Self {
        Error::SecretString(e)
    }
}

impl vstd::std_specs::convert::FromSpecImpl<SecretStringError> for Error {
    open spec fn obeys_from_spec() -> bool {
        true
    }

    open spec fn from_spec(v: SecretStringError) -> Self {
        Error::SecretString(v)
    }
}

impl From<TransactionValidityError> for Error {
    fn from(e: TransactionValidityError) -> Self {
        Error::Invalid(e)
    }
}

impl vstd::std_specs::convert::FromSpecImpl<TransactionValidityError> for Error {
    open spec fn obeys_from_spec() -> bool {
        true
    }

    open spec fn from_spec(v: TransactionValidityError) -> Self {
        Error::Invalid(v)
    }
}

impl From<InvalidMetadataError> for Error {
    fn from(e: InvalidMetadataError) -> Self {
        Error::InvalidMetadata(e)
    }
}

impl vstd::std_specs::convert::FromSpecImpl<InvalidMetadataError> for Error {
    open spec fn obeys_from_spec() -> bool {
        true
    }

    open spec fn from_spec(v: InvalidMetadataError) -> Self {
        Error::InvalidMetadata(v)
    }
}

impl From<MetadataError> for Error {
    fn from(e: MetadataError) -> Self {
        Error::Metadata(e)
    }
}

impl vstd::std_specs::convert::FromSpecImpl<MetadataError> for Error {
    open spec fn obeys_from_spec() -> bool {
        true
    }

    open spec fn from_spec(v: MetadataError) -> Self {
        Error::Metadata(v)
    }
}

impl From<RuntimeError> for Error {
    fn from(e: RuntimeError) -> Self {
        Error::Runtime(e)
    }
}

impl vstd::std_specs::convert::FromSpecImpl<RuntimeError> for Error {
    open spec fn obeys_from_spec() -> bool {
        true
    }

    open spec fn from_spec(v: RuntimeError) -> Self {
        Error::Runtime(v)
    }
}

impl From<DecodeError> for Error {
    fn from(e: DecodeError) -> Self {
        Error::DecodeValue(e)
    }
}

impl vstd::std_specs::convert::FromSpecImpl<DecodeError> for Error {
    open spec fn obeys_from_spec() -> bool {
        true
    }

    open spec fn from_spec(v: DecodeError) -> Self {
        Error::DecodeValue(v)
    }
}

impl From<EncodeError> for Error {
    fn from(e: EncodeError) -> Self {
        Error::EncodeValue(e)
    }
}

impl vstd::std_specs::convert::FromSpecImpl<EncodeError> for Error {
    open spec fn obeys_from_spec() -> bool {
        true
    }

    open spec fn from_spec(v: EncodeError) -> Self {
        Error::EncodeValue(v)
    }
}

impl From<TransactionError> for Error {
    fn from(e: TransactionError) -> Self {
        Error::Transaction(e)
    }
}

impl vstd::std_specs::convert::FromSpecImpl<TransactionError> for Error {
    open spec fn obeys_from_spec() -> bool {
        true
    }

    open spec fn from_spec(v: TransactionError) -> Self {
        Error::Transaction(v)
    }
}

impl From<BlockError> for Error {
    fn from(e: BlockError) -> Self {
        Error::Block(e)
    }
}

impl vstd::std_specs::convert::FromSpecImpl<BlockError> for Error {
    open spec fn obeys_from_spec() -> bool {
        true
    }

    open spec fn from_spec(v: BlockError) -> Self {
        Error::Block(v)
    }
}

impl From<StorageAddressError> for Error {
    fn from(e: StorageAddressError) -> Self {
        Error::StorageAddress(e)
    }
}

impl vstd::std_specs::convert::FromSpecImpl<StorageAddressError> for Error {
    open spec fn obeys_from_spec() -> bool {
        true
    }

    open spec fn from_spec(v: StorageAddressError) -> Self {
        Error::StorageAddress(v)
    }
}

impl From<String> for Error {
    fn from(e: String) -> Self {
        Error::Other(e)
    }
}

impl vstd::std_specs::convert::FromSpecImpl<String> for Error {
    open spec fn obeys_from_spec() -> bool {
        true
    }

    open spec fn from_spec(v: String) -> Self {
        Error::Other(v)
    }
}

} // verus!
