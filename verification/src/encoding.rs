//! Encoded data as it travels between actors: a codec number and the bytes.

use vstd::prelude::*;

verus! {

/// Codec of CBOR data whose links the platform does not follow.
pub const CBOR: u64 = 0x51;

/// Codec of CBOR data whose links the platform follows.
pub const DAG_CBOR: u64 = 0x71;

/// Codec of raw bytes.
pub const IPLD_RAW: u64 = 0x55;

/// A block of encoded data: parameters of a call, or what a call returned.
#[derive(Clone, Debug, PartialEq, Eq)]
pub struct IpldBlock {
    pub codec: u64,
    pub data: Vec<u8>,
}

/// What an [`IpldBlock`] holds.
pub struct IpldBlockView {
    pub codec: u64,
    pub data: Seq<u8>,
}

impl View for IpldBlock {
    type V = IpldBlockView;

    open spec fn view(&self) -> IpldBlockView {
        IpldBlockView { codec: self.codec, data: self.data@ }
    }
}

/// What an optional block holds.
pub open spec fn option_block_view(block: Option<IpldBlock>) -> Option<IpldBlockView> {
    match block {
        Some(b) => Some(b@),
        None => None,
    }
}

/// What the outcome of an encoding holds: the bytes, or the text of the
/// encoder's error.
pub open spec fn encoded_view(r: Result<Vec<u8>, String>) -> Result<Seq<u8>, Seq<char>> {
    match r {
        Ok(bytes) => Ok(bytes@),
        Err(text) => Err(text@),
    }
}

/// The block that raw CBOR bytes become when they are handed on as the
/// parameters of a call: none for no bytes, else a block of codec [`CBOR`].
pub open spec fn block_of_raw_bytes(raw: Seq<u8>) -> Option<IpldBlockView> {
    if raw.len() == 0 {
        None
    } else {
        Some(IpldBlockView { codec: CBOR, data: raw })
    }
}

/// The text that a block decodes to, or the text of the decoder's error.
pub uninterp spec fn text_of_block(codec: u64, data: Seq<u8>) -> Result<Seq<char>, Seq<char>>;

/// Calls the conversion `From<RawBytes> for Option<IpldBlock>` of
/// `fvm_ipld_encoding`. The contract claims what its source shows: empty bytes
/// give no block, any other bytes a block of codec `CBOR` holding them.
#[verifier::external_body]
pub(crate) fn raw_bytes_into_block(raw: Vec<u8>) -> (block: Option<IpldBlock>)
    ensures
        option_block_view(block) == block_of_raw_bytes(raw@),
{
    let raw = fvm_ipld_encoding::RawBytes::new(raw);
    match Option::<fvm_ipld_encoding::ipld_block::IpldBlock>::from(raw) {
        Some(b) => Some(IpldBlock { codec: b.codec, data: b.data }),
        None => None,
    }
}

/// Calls `IpldBlock::deserialize` of `fvm_ipld_encoding` for a `String`. The
/// contract claims only that the outcome is a function of the block's codec
/// and bytes: the decoded text, or the text of the error.
#[verifier::external_body]
pub(crate) fn deserialize_text(block: &IpldBlock) -> (r: Result<String, String>)
    ensures
        text_of_block(block.codec, block.data@) == match r {
            Ok(text) => Ok::<Seq<char>, Seq<char>>(text@),
            Err(reason) => Err::<Seq<char>, Seq<char>>(reason@),
        },
{
    let b = fvm_ipld_encoding::ipld_block::IpldBlock { codec: block.codec, data: block.data.clone() };
    match b.deserialize::<String>() {
        Ok(text) => Ok(text),
        Err(e) => Err(e.to_string()),
    }
}

} // verus!
