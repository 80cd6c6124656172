//! The parameters and return values of the registry's two operations, and
//! their CBOR encoding.

use vstd::prelude::*;
use crate::address::Address;
use crate::content_id::{Cid, CidView};
use crate::encoding::{IpldBlock, CBOR};

verus! {

/// Parameters of the registry's install operation.
#[derive(Clone, Debug, PartialEq, Eq)]
pub struct InstallParams {
    /// The code, as the raw bytes of its CBOR encoding.
    pub code: Vec<u8>,
}

/// What the registry's install operation returns.
#[derive(Clone, Debug, PartialEq, Eq)]
pub struct InstallReturn {
    /// The identifier of the code object.
    pub code_cid: Cid,
    /// Whether the registry accepted the code.
    pub installed: bool,
}

/// Parameters of the registry's exec operation.
#[derive(Clone, Debug, PartialEq, Eq)]
pub struct ExecParams {
    /// The identifier of the code to instantiate.
    pub code_cid: Cid,
    /// The encoded arguments of the new actor's constructor.
    pub constructor_params: Vec<u8>,
}

/// What the registry's exec operation returns.
#[derive(Clone, Debug, PartialEq, Eq)]
pub struct ExecReturn {
    /// ID based address of the created actor.
    pub id_address: Address,
    /// Reorg safe address of the created actor.
    pub robust_address: Address,
}

/// What an [`InstallReturn`] holds.
pub struct InstallReturnView {
    pub code_cid: CidView,
    pub installed: bool,
}

/// What an [`ExecReturn`] holds.
pub struct ExecReturnView {
    pub id_address: Seq<u8>,
    pub robust_address: Seq<u8>,
}

impl View for InstallReturn {
    type V = InstallReturnView;

    open spec fn view(&self) -> InstallReturnView {
        InstallReturnView { code_cid: self.code_cid@, installed: self.installed }
    }
}

impl View for ExecReturn {
    type V = ExecReturnView;

    open spec fn view(&self) -> ExecReturnView {
        ExecReturnView { id_address: self.id_address@, robust_address: self.robust_address@ }
    }
}

/// The CBOR encoding of code bytes as a list of numbers, or the text of the
/// encoder's error.
pub uninterp spec fn code_cbor(code: Seq<u8>) -> Result<Seq<u8>, Seq<char>>;

/// The CBOR encoding of install parameters that hold `code`, or the text of
/// the encoder's error.
pub uninterp spec fn install_params_cbor(code: Seq<u8>) -> Result<Seq<u8>, Seq<char>>;

/// The install return value that a block decodes to, or the text of the
/// decoder's error.
pub uninterp spec fn install_return_of_block(codec: u64, data: Seq<u8>) -> Result<
    InstallReturnView,
    Seq<char>,
>;

/// The CBOR encoding of exec parameters that hold a code identifier of the
/// given parts and `constructor_params`, or the text of the error where the
/// parts make no valid identifier or the encoder fails.
pub uninterp spec fn exec_params_cbor(
    version: u64,
    codec: u64,
    hash_code: u64,
    digest: Seq<u8>,
    constructor_params: Seq<u8>,
) -> Result<Seq<u8>, Seq<char>>;

/// The exec return value that a block decodes to, or the text of the
/// decoder's error.
pub uninterp spec fn exec_return_of_block(codec: u64, data: Seq<u8>) -> Result<
    ExecReturnView,
    Seq<char>,
>;

/// Calls `RawBytes::serialize` of `fvm_ipld_encoding` on the code bytes. The
/// contract claims only that the outcome is a function of the bytes: the
/// encoding, or the text of the error.
#[verifier::external_body]
pub(crate) fn serialize_code(code: &Vec<u8>) -> (r: Result<Vec<u8>, String>)
    ensures
        code_cbor(code@) == match r {
            Ok(raw) => Ok::<Seq<u8>, Seq<char>>(raw@),
            Err(reason) => Err::<Seq<u8>, Seq<char>>(reason@),
        },
{
    match fvm_ipld_encoding::RawBytes::serialize(code) {
        Ok(raw) => Ok(raw.into()),
        Err(e) => Err(e.to_string()),
    }
}

/// Calls `IpldBlock::serialize_cbor` of `fvm_ipld_encoding` on the one-field
/// tuple of the parameters. The contract claims that a block comes back
/// whenever the call succeeds and that its codec is `CBOR`, as the source
/// shows, and that its bytes, or the text of the error, are a function of the
/// code bytes.
#[verifier::external_body]
pub(crate) fn serialize_install_params(params: &InstallParams) -> (r: Result<
    Option<IpldBlock>,
    String,
>)
    ensures
        match r {
            Ok(Some(block)) => block.codec == CBOR && install_params_cbor(params.code@) == Ok::<
                Seq<u8>,
                Seq<char>,
            >(block.data@),
            Ok(None) => false,
            Err(reason) => install_params_cbor(params.code@) == Err::<Seq<u8>, Seq<char>>(reason@),
        },
{
    let code = fvm_ipld_encoding::RawBytes::new(params.code.clone());
    match fvm_ipld_encoding::ipld_block::IpldBlock::serialize_cbor(&(code,)) {
        Ok(Some(b)) => Ok(Some(IpldBlock { codec: b.codec, data: b.data })),
        Ok(None) => Ok(None),
        Err(e) => Err(e.to_string()),
    }
}

/// Calls `IpldBlock::deserialize` of `fvm_ipld_encoding` for the pair of a
/// `cid::Cid` and a `bool`, and reads the identifier's parts. The contract
/// claims only that the outcome is a function of the block's codec and bytes.
#[verifier::external_body]
pub(crate) fn deserialize_install_return(block: &IpldBlock) -> (r: Result<InstallReturn, String>)
    ensures
        install_return_of_block(block.codec, block.data@) == match r {
            Ok(ret) => Ok::<InstallReturnView, Seq<char>>(ret@),
            Err(reason) => Err::<InstallReturnView, Seq<char>>(reason@),
        },
{
    let b = fvm_ipld_encoding::ipld_block::IpldBlock { codec: block.codec, data: block.data.clone() };
    match b.deserialize::<(cid::Cid, bool)>() {
        Ok((c, installed)) => Ok(InstallReturn {
            code_cid: Cid {
                version: c.version().into(),
                codec: c.codec(),
                hash_code: c.hash().code(),
                digest: c.hash().digest().to_vec(),
            },
            installed,
        }),
        Err(e) => Err(e.to_string()),
    }
}

/// Builds a `cid::Cid` from the identifier's parts with `Multihash::wrap`,
/// `Version::try_from` and `Cid::new`, and calls `RawBytes::serialize` of
/// `fvm_ipld_encoding` on the pair of it and the constructor parameters. The
/// contract claims only that the outcome is a function of the parts and the
/// parameters: the encoding, or the text of the first error.
#[verifier::external_body]
pub(crate) fn serialize_exec_params(params: &ExecParams) -> (r: Result<Vec<u8>, String>)
    ensures
        exec_params_cbor(
            params.code_cid.version,
            params.code_cid.codec,
            params.code_cid.hash_code,
            params.code_cid.digest@,
            params.constructor_params@,
        ) == match r {
            Ok(raw) => Ok::<Seq<u8>, Seq<char>>(raw@),
            Err(reason) => Err::<Seq<u8>, Seq<char>>(reason@),
        },
{
    let id = &params.code_cid;
    let hash = cid::multihash::Multihash::<64>::wrap(id.hash_code, &id.digest).map_err(|e| e.to_string())?;
    let version = cid::Version::try_from(id.version).map_err(|e| e.to_string())?;
    let code_cid = cid::Cid::new(version, id.codec, hash).map_err(|e| e.to_string())?;
    let args = fvm_ipld_encoding::RawBytes::new(params.constructor_params.clone());
    match fvm_ipld_encoding::RawBytes::serialize((code_cid, args)) {
        Ok(raw) => Ok(raw.into()),
        Err(e) => Err(e.to_string()),
    }
}

/// Calls `IpldBlock::deserialize` of `fvm_ipld_encoding` for a pair of
/// `fvm_shared` addresses, and `to_bytes` on each. The contract claims only
/// that the outcome is a function of the block's codec and bytes.
#[verifier::external_body]
pub(crate) fn deserialize_exec_return(block: &IpldBlock) -> (r: Result<ExecReturn, String>)
    ensures
        exec_return_of_block(block.codec, block.data@) == match r {
            Ok(ret) => Ok::<ExecReturnView, Seq<char>>(ret@),
            Err(reason) => Err::<ExecReturnView, Seq<char>>(reason@),
        },
{
    let b = fvm_ipld_encoding::ipld_block::IpldBlock { codec: block.codec, data: block.data.clone() };
    match b.deserialize::<(fvm_shared::address::Address, fvm_shared::address::Address)>() {
        Ok((id, robust)) => Ok(ExecReturn {
            id_address: Address { bytes: id.to_bytes() },
            robust_address: Address { bytes: robust.to_bytes() },
        }),
        Err(e) => Err(e.to_string()),
    }
}

} // verus!
