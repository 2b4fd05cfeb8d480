//! A content-addressed store client. Storage itself is simulated: content
//! ids are derived from the content's digest and fetched content is a fixed
//! rendering of the id.

use vstd::prelude::*;
use vstd::string::*;
use vstd::utf8::encode_utf8;
use crate::blockchain::unix_now_secs;
use crate::crypto::{digest_hex, hash_sha256};

verus! {

/// The text that `String::from_utf8_lossy` reads from bytes.
pub uninterp spec fn utf8_lossy(b: Seq<u8>) -> Seq<char>;

/// Relies on `String::from_utf8_lossy`: the bytes read as UTF-8, each
/// invalid sequence replaced by U+FFFD.
#[verifier::external_body]
fn lossy_text(content: &[u8]) -> (r: String)
    ensures
        r@ == utf8_lossy(content@),
{
    String::from_utf8_lossy(content).into_owned()
}

/// Why a store operation failed.
#[derive(Debug, Clone, Copy, PartialEq, Eq, Structural)]
pub enum IpfsError {
    /// The content id does not start with `Qm`.
    InvalidCid,
}

/// Whether a content id has the expected `Qm` prefix.
pub open spec fn cid_well_formed(cid: Seq<char>) -> bool {
    cid.len() >= 2 && cid[0] == 'Q' && cid[1] == 'm'
}

/// The content id of a text: `Qm` and the first 38 digits of its digest.
pub open spec fn cid_of(text: Seq<char>) -> Seq<char> {
    "Qm"@ + digest_hex(text).subrange(0, 38)
}

/// The gateway address of a content id.
pub open spec fn gateway_address(gateway: Seq<char>, cid: Seq<char>) -> Seq<char> {
    gateway + "/ipfs/"@ + cid
}

/// Describes stored content.
#[derive(Debug, Clone, PartialEq, Eq)]
pub struct IPFSMetadata {
    pub content_type: String,
    pub name: String,
    pub size: usize,
    pub created_at: u64,
    pub encrypted: bool,
    pub encryption_algorithm: Option<String>,
    pub tags: Vec<String>,
}

/// A client for a store node and its gateway.
#[derive(Debug, Clone)]
pub struct IPFSClient {
    api_url: String,
    gateway_url: String,
}

fn is_well_formed_cid(cid: &str) -> (r: bool)
    ensures
        r == cid_well_formed(cid@),
{
    if cid.unicode_len() < 2 {
        return false;
    }
    cid.get_char(0) == 'Q' && cid.get_char(1) == 'm'
}

impl IPFSClient {
    /// The node's API address.
    pub closed spec fn api(&self) -> Seq<char> {
        self.api_url@
    }

    /// The gateway's address.
    pub closed spec fn gateway(&self) -> Seq<char> {
        self.gateway_url@
    }

    pub fn new(api_url: &str, gateway_url: &str) -> (r: Self)
        ensures
            r.api() == api_url@,
            r.gateway() == gateway_url@,
    {
        IPFSClient { api_url: String::from_str(api_url), gateway_url: String::from_str(gateway_url) }
    }

    /// Store content; returns its content id.
    pub fn add(&self, content: &[u8], metadata: &IPFSMetadata) -> (r: Result<String, IpfsError>)
        ensures
            r matches Ok(cid) && cid@ == cid_of(utf8_lossy(content@)),
    {
        let _ = metadata;
        let text = lossy_text(content);
        let digest = hash_sha256(text.as_str());
        let cid = String::from_str("Qm").concat(digest.as_str().substring_char(0, 38));
        Ok(cid)
    }

    /// Fetch content by id: a fixed rendering of the id.
    pub fn get(&self, cid: &str) -> (r: Result<Vec<u8>, IpfsError>)
        ensures
            cid_well_formed(cid@) ==> (r matches Ok(b) && b@ == encode_utf8(
                "Mock content for CID: "@ + cid@,
            )),
            !cid_well_formed(cid@) ==> r == Err::<Vec<u8>, IpfsError>(IpfsError::InvalidCid),
    {
        if !is_well_formed_cid(cid) {
            return Err(IpfsError::InvalidCid);
        }
        let text = String::from_str("Mock content for CID: ").concat(cid);
        Ok(text.as_str().as_bytes_vec())
    }

    /// The address of a content id on this client's gateway.
    pub fn get_gateway_url(&self, cid: &str) -> (r: String)
        ensures
            r@ == gateway_address(self.gateway(), cid@),
    {
        self.gateway_url.clone().concat("/ipfs/").concat(cid)
    }

    /// Keep content available.
    pub fn pin(&self, cid: &str) -> (r: Result<(), IpfsError>)
        ensures
            r is Ok <==> cid_well_formed(cid@),
            r is Err ==> r == Err::<(), IpfsError>(IpfsError::InvalidCid),
    {
        if !is_well_formed_cid(cid) {
            return Err(IpfsError::InvalidCid);
        }
        Ok(())
    }

    /// Let content be collected.
    pub fn unpin(&self, cid: &str) -> (r: Result<(), IpfsError>)
        ensures
            r is Ok <==> cid_well_formed(cid@),
            r is Err ==> r == Err::<(), IpfsError>(IpfsError::InvalidCid),
    {
        if !is_well_formed_cid(cid) {
            return Err(IpfsError::InvalidCid);
        }
        Ok(())
    }
}

/// Metadata for content, stamped with the current time.
pub fn create_metadata(
    content_type: &str,
    name: &str,
    size: usize,
    encrypted: bool,
    encryption_algorithm: Option<&str>,
    tags: Vec<String>,
) -> (r: IPFSMetadata)
    ensures
        r.content_type@ == content_type@,
        r.name@ == name@,
        r.size == size,
        r.encrypted == encrypted,
        match encryption_algorithm {
            Some(a) => r.encryption_algorithm matches Some(s) && s@ == a@,
            None => r.encryption_algorithm is None,
        },
        r.tags@ == tags@,
{
    let algorithm = match encryption_algorithm {
        Some(a) => Some(String::from_str(a)),
        None => None,
    };
    IPFSMetadata {
        content_type: String::from_str(content_type),
        name: String::from_str(name),
        size,
        created_at: unix_now_secs(),
        encrypted,
        encryption_algorithm: algorithm,
        tags,
    }
}

/// The gateway address of a content id.
pub fn cid_to_url(cid: &str, gateway: &str) -> (r: String)
    ensures
        r@ == gateway_address(gateway@, cid@),
{
    String::from_str(gateway).concat("/ipfs/").concat(cid)
}

} // verus!
