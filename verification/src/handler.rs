//! What each endpoint decides once its input is at hand.

use crate::error::Error;
use crate::signature_validation::{
    extract_interaction, verdict, VerifiedBody, SIGNATURE_HEADER, TIMESTAMP_HEADER,
};
use crate::state::AppState;
use vstd::prelude::*;
use vstd::view::View as _;
use vstd::string::StringExecFns;

verus! {

/// Seconds for which a link to a stored image stays good.
pub const PRESIGN_SECS: u32 = 10;

/// What the front page shows.
#[derive(Debug, Clone, PartialEq, Eq)]
pub struct Index {
    pub root_url: String,
    pub application_id: u64,
    pub nonce: String,
}

/// What the page of one upload shows.
#[derive(Debug, Clone, PartialEq, Eq)]
pub struct View {
    pub root_url: String,
    pub img_srcs: Vec<String>,
    pub application_id: u64,
    pub nonce: String,
}

/// The answer to a direct upload.
#[derive(Debug, Clone, PartialEq, Eq)]
pub struct Upload {
    pub id: String,
}

/// The front page for a response that carries the script nonce `nonce`.
pub fn index(state: &AppState, nonce: String) -> (page: Index)
    ensures
        page.root_url@ == state@.root_url,
        page.application_id == state@.discord.application_id,
        page.nonce@ == nonce@,
{
    Index {
        root_url: state.root_url().clone(),
        application_id: state.discord().application_id(),
        nonce,
    }
}

/// The prefix under which the images of upload `id` are stored.
pub fn listing_prefix(id: &str) -> (prefix: String)
    ensures
        prefix@ == id@ + "/"@,
{
    String::from_str(id).concat("/")
}

/// The page of an upload whose images can be fetched from `img_srcs`.
/// An upload without images does not exist: that is `NotFound`.
pub fn view(state: &AppState, img_srcs: Vec<String>, nonce: String) -> (page: Result<View, Error>)
    ensures
        match page {
            Ok(p) => img_srcs@.len() > 0 && p.img_srcs == img_srcs && p.root_url@
                == state@.root_url && p.application_id == state@.discord.application_id
                && p.nonce@ == nonce@,
            Err(e) => e == Error::NotFound && img_srcs@.len() == 0,
        },
{
    if img_srcs.len() == 0 {
        return Err(Error::NotFound);
    }
    Ok(
        View {
            root_url: state.root_url().clone(),
            img_srcs,
            application_id: state.discord().application_id(),
            nonce,
        },
    )
}

/// The answer to a direct upload that was stored as `id`.
pub fn upload(id: String) -> (answer: Upload)
    ensures
        answer.id == id,
{
    Upload { id }
}

/// What becomes of a webhook request: without a signature header it is
/// refused for that, without a timestamp header for that, and otherwise
/// it is judged by its signature.
pub open spec fn admitted(
    key: Seq<u8>,
    signature: Option<&[u8]>,
    timestamp: Option<&[u8]>,
    body: Seq<u8>,
) -> Result<(), Error> {
    match (signature, timestamp) {
        (None, _) => Err(Error::MissingHeader(SIGNATURE_HEADER)),
        (Some(_), None) => Err(Error::MissingHeader(TIMESTAMP_HEADER)),
        (Some(s), Some(t)) => match verdict(key, s@, t@, body) {
            Ok(_) => Ok(()),
            Err(failure) => Err(Error::InvalidSignature(failure)),
        },
    }
}

/// A webhook request is admitted if and only if it carries both
/// headers and its signature is valid; a request that lacks a header is
/// refused with `MissingHeader`, the signature header being looked for
/// first, and never with `InvalidSignature`.
pub proof fn law_admits_signed_requests_only(
    key: Seq<u8>,
    signature: Option<&[u8]>,
    timestamp: Option<&[u8]>,
    body: Seq<u8>,
)
    ensures
        admitted(key, signature, timestamp, body) is Ok <==> (signature matches Some(s)
            && timestamp matches Some(t) && verdict(key, s@, t@, body) is Ok),
        signature is None ==> admitted(key, signature, timestamp, body) == Err::<(), Error>(
            Error::MissingHeader(SIGNATURE_HEADER),
        ),
        signature is Some && timestamp is None ==> admitted(key, signature, timestamp, body)
            == Err::<(), Error>(Error::MissingHeader(TIMESTAMP_HEADER)),
{
}

/// Admits a webhook request for interpretation. `signature` and
/// `timestamp` are the values of the two signature headers, where present.
/// The body is handed on only if the platform signed it; a request that
/// lacks a header is turned away before any signature is looked at.
pub fn interaction(
    state: &AppState,
    signature: Option<&[u8]>,
    timestamp: Option<&[u8]>,
    body: &[u8],
) -> (outcome: Result<VerifiedBody, Error>)
    ensures
        match outcome {
            Ok(verified) => admitted(state@.discord.verify_key, signature, timestamp, body@) is Ok
                && verified@ == body@,
            Err(e) => admitted(state@.discord.verify_key, signature, timestamp, body@) == Err::<
                (),
                Error,
            >(e),
        },
{
    let signature = match signature {
        Some(s) => s,
        None => {
            return Err(Error::MissingHeader(SIGNATURE_HEADER));
        },
    };
    let timestamp = match timestamp {
        Some(t) => t,
        None => {
            return Err(Error::MissingHeader(TIMESTAMP_HEADER));
        },
    };
    match extract_interaction(signature, timestamp, body, state.discord().verify_key()) {
        Ok(verified) => Ok(verified),
        Err(failure) => Err(Error::InvalidSignature(failure)),
    }
}

} // verus!
