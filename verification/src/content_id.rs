//! Content identifiers of code objects, held by their parts.

use vstd::prelude::*;

verus! {

/// The identifier of a stored object: the CID version, the codec of the
/// object, and the code and digest of the hash of its content.
#[derive(Clone, Debug, PartialEq, Eq)]
pub struct Cid {
    pub version: u64,
    pub codec: u64,
    pub hash_code: u64,
    pub digest: Vec<u8>,
}

/// What a [`Cid`] holds.
pub struct CidView {
    pub version: u64,
    pub codec: u64,
    pub hash_code: u64,
    pub digest: Seq<u8>,
}

impl View for Cid {
    type V = CidView;

    open spec fn view(&self) -> CidView {
        CidView {
            version: self.version,
            codec: self.codec,
            hash_code: self.hash_code,
            digest: self.digest@,
        }
    }
}

/// The identifier that stands for "none": version 1, codec 0, and an empty
/// digest of hash code 0.
pub open spec fn default_cid() -> CidView {
    CidView { version: 1, codec: 0, hash_code: 0, digest: Seq::empty() }
}

/// The text form of the identifier with these parts, or nothing where the
/// parts make no valid identifier.
pub uninterp spec fn cid_text(version: u64, codec: u64, hash_code: u64, digest: Seq<u8>) -> Option<
    Seq<char>,
>;

/// Calls `cid::Cid::default` and reads the parts of the result. The contract
/// claims what the source of `Default for Cid` and of `Default for Multihash`
/// shows: version 1, codec 0, hash code 0, no digest bytes.
#[verifier::external_body]
fn default_parts() -> (c: Cid)
    ensures
        c@ == default_cid(),
{
    let c = cid::Cid::default();
    Cid {
        version: c.version().into(),
        codec: c.codec(),
        hash_code: c.hash().code(),
        digest: c.hash().digest().to_vec(),
    }
}

/// Builds a `cid::Cid` from the parts with `Multihash::wrap`,
/// `Version::try_from` and `Cid::new`, and calls `to_string` on it. Gives
/// nothing where one of the three refuses the parts. The contract claims only
/// that the outcome is a function of the parts.
#[verifier::external_body]
pub(crate) fn text_of_parts(c: &Cid) -> (text: Option<String>)
    ensures
        cid_text(c.version, c.codec, c.hash_code, c.digest@) == match text {
            Some(t) => Some(t@),
            None => None::<Seq<char>>,
        },
{
    let hash = cid::multihash::Multihash::<64>::wrap(c.hash_code, &c.digest).ok()?;
    let version = cid::Version::try_from(c.version).ok()?;
    let outside = cid::Cid::new(version, c.codec, hash).ok()?;
    Some(outside.to_string())
}

impl Default for Cid {
    /// The identifier that stands for "none".
    fn default() -> (c: Cid)
        ensures
            c@ == default_cid(),
    {
        default_parts()
    }
}

impl Cid {
    /// Whether the two identifiers have the same parts.
    pub fn same_as(&self, other: &Cid) -> (same: bool)
        ensures
            same == (self@ == other@),
    {
        let digests = self.digest == other.digest;
        proof {
            if digests {
                assert(self.digest@ =~= other.digest@);
            }
        }
        self.version == other.version && self.codec == other.codec && self.hash_code
            == other.hash_code && digests
    }

    /// A copy of the identifier.
    pub fn duplicate(&self) -> (c: Cid)
        ensures
            c@ == self@,
    {
        Cid {
            version: self.version,
            codec: self.codec,
            hash_code: self.hash_code,
            digest: self.digest.clone(),
        }
    }
}

} // verus!
