use vstd::prelude::*;

use crate::hexcode::hex_decode;
use crate::hexcode::hex_decode_spec;
use crate::hexcode::hex_encode;
use crate::hexcode::hex_encode_spec;
use crate::store::strip_0x;
use crate::TxError;
use base64::Engine;
use sha2::Digest;
use vstd::string::StringExecFns;

verus! {

/// What the standard base64 alphabet (with padding) decodes a string to,
/// if it decodes at all.
pub uninterp spec fn base64_of(s: Seq<char>) -> Option<Seq<u8>>;

/// The SHA-256 digest of a byte string.
pub uninterp spec fn sha256_of(bytes: Seq<u8>) -> Seq<u8>;

/// What a gzip stream decompresses to, if it is a well-formed stream.
pub uninterp spec fn gunzip_of(bytes: Seq<u8>) -> Option<Seq<u8>>;

/// The two fields of a transaction envelope that the decoder reads, as
/// parsing the envelope bytes as a JSON document yields them: the top-level
/// `type` field and the `body.data` field, each present exactly when the
/// document holds a string there.
pub uninterp spec fn envelope_of(bytes: Seq<u8>) -> Option<EnvelopeView>;

/// The parsed structured form of a raw transaction, reduced to the fields
/// the decoder reads.
pub struct Envelope {
    /// The top-level `type` field, where the document holds a string there.
    pub kind: Option<String>,
    /// The `body.data` field, where the document holds a string there.
    pub data: Option<String>,
}

pub struct EnvelopeView {
    pub kind: Option<Seq<char>>,
    pub data: Option<Seq<char>>,
}

impl View for Envelope {
    type V = EnvelopeView;

    open spec fn view(&self) -> EnvelopeView {
        EnvelopeView {
            kind: match self.kind {
                Some(k) => Some(k@),
                None => None,
            },
            data: match self.data {
                Some(d) => Some(d@),
                None => None,
            },
        }
    }
}

/// Relies on base64's STANDARD engine: whether a string decodes, and to
/// which bytes, depends on its characters alone.
#[verifier::external_body]
fn base64_decode(s: &str) -> (r: Option<Vec<u8>>)
    ensures
        r is Some <==> base64_of(s@) is Some,
        r is Some ==> r->0@ == base64_of(s@)->0,
{
    base64::engine::general_purpose::STANDARD.decode(s).ok()
}

/// Relies on serde_json::from_slice and serde_json::Value's `get` and
/// `as_str`: whether the bytes parse as JSON, and which strings stand at the
/// top-level `type` field and at `body.data`, depend on the bytes alone.
#[verifier::external_body]
fn parse_envelope(bytes: &Vec<u8>) -> (r: Option<Envelope>)
    ensures
        r is Some <==> envelope_of(bytes@) is Some,
        r is Some ==> r->0@ == envelope_of(bytes@)->0,
{
    let v: serde_json::Value = match serde_json::from_slice(bytes.as_slice()) {
        Ok(v) => v,
        Err(_) => return None,
    };
    let kind = v.get("type").and_then(|t| t.as_str()).map(|s| s.to_string());
    let data = v.get("body").and_then(|b| b.get("data")).and_then(|d| d.as_str()).map(
        |s| s.to_string(),
    );
    Some(Envelope { kind, data })
}

/// Relies on sha2::Sha256: a 32-byte digest depending on the input alone.
#[verifier::external_body]
fn sha256(bytes: &Vec<u8>) -> (r: Vec<u8>)
    ensures
        r@ == sha256_of(bytes@),
        r@.len() == 32,
{
    sha2::Sha256::digest(bytes.as_slice()).to_vec()
}

/// Relies on flate2's write-side GzDecoder: whether a gzip stream inflates,
/// and to which bytes, depends on the compressed bytes alone.
#[verifier::external_body]
fn gunzip(bytes: &Vec<u8>) -> (r: Option<Vec<u8>>)
    ensures
        r is Some <==> gunzip_of(bytes@) is Some,
        r is Some ==> r->0@ == gunzip_of(bytes@)->0,
{
    let mut d = flate2::write::GzDecoder::new(Vec::new());
    if std::io::Write::write_all(&mut d, bytes.as_slice()).is_err() {
        return None;
    }
    d.finish().ok()
}

/// One decoded blob transaction: the content id it is stored under, and the
/// decompressed payload bytes.
#[derive(Debug)]
pub struct BlobRecord {
    pub content_id: String,
    pub payload: Vec<u8>,
}

pub struct BlobRecordView {
    pub content_id: Seq<char>,
    pub payload: Seq<u8>,
}

impl View for BlobRecord {
    type V = BlobRecordView;

    open spec fn view(&self) -> BlobRecordView {
        BlobRecordView { content_id: self.content_id@, payload: self.payload@ }
    }
}

impl DeepView for BlobRecord {
    type V = BlobRecordView;

    open spec fn deep_view(&self) -> BlobRecordView {
        self.view()
    }
}

/// The content id of a transaction: the lowercase hex encoding of the
/// SHA-256 digest of the envelope bytes. Identity is bound to the on-chain
/// transaction, not to the decompressed payload.
pub open spec fn content_id_spec(env: Seq<u8>) -> Seq<char> {
    hex_encode_spec(sha256_of(env))
}

/// What extracting a blob record from a parsed envelope yields:
/// - a document whose `type` is not exactly "blob" yields no record;
/// - a blob document without a `body.data` string is missing a field;
/// - `body.data` must hex-decode and then inflate as a gzip stream;
/// - the record pairs the content id of the envelope bytes with the
///   decompressed payload.
pub open spec fn extract_spec(doc: EnvelopeView, env: Seq<u8>) -> Result<
    Option<BlobRecordView>,
    TxError,
> {
    if doc.kind != Some("blob"@) {
        Ok(None)
    } else {
        match doc.data {
            None => Err(TxError::MissingField),
            Some(d) => match hex_decode_spec(d) {
                None => Err(TxError::DecodeError),
                Some(comp) => match gunzip_of(comp) {
                    None => Err(TxError::DecodeError),
                    Some(p) => Ok(
                        Some(BlobRecordView { content_id: content_id_spec(env), payload: p }),
                    ),
                },
            },
        }
    }
}

/// What decoding a raw transaction yields: the raw string must base64-decode
/// to envelope bytes, the bytes must parse as a JSON document, and the
/// record is then extracted as `extract_spec` says.
pub open spec fn decode_spec(raw: Seq<char>) -> Result<Option<BlobRecordView>, TxError> {
    match base64_of(raw) {
        None => Err(TxError::DecodeError),
        Some(env) => match envelope_of(env) {
            None => Err(TxError::DecodeError),
            Some(doc) => extract_spec(doc, env),
        },
    }
}

/// The decode result, seen at the spec level.
pub open spec fn decode_result_view(r: Result<Option<BlobRecord>, TxError>) -> Result<
    Option<BlobRecordView>,
    TxError,
> {
    match r {
        Ok(Some(rec)) => Ok(Some(rec@)),
        Ok(None) => Ok(None),
        Err(e) => Err(e),
    }
}

/// Decodes one raw transaction, exactly as `decode_spec` says: `Ok(None)`
/// for a well-formed non-blob transaction, a record for a well-formed blob
/// transaction, and an error for anything malformed.
pub fn decode(raw: &str) -> (r: Result<Option<BlobRecord>, TxError>)
    ensures
        decode_result_view(r) == decode_spec(raw@),
        (r matches Ok(Some(rec)) ==> rec@.content_id.len() == 64),
        (r matches Ok(Some(rec)) ==> strip_0x(rec@.content_id) == rec@.content_id),
{
    let env = match base64_decode(raw) {
        Some(b) => b,
        None => return Err(TxError::DecodeError),
    };
    let doc = match parse_envelope(&env) {
        Some(d) => d,
        None => return Err(TxError::DecodeError),
    };
    let blobword = String::from_str("blob");
    let is_blob: bool = match &doc.kind {
        Some(k) => *k == blobword,
        None => false,
    };
    proof {
        reveal_strlit("blob");
    }
    if !is_blob {
        return Ok(None);
    }
    let data = match doc.data {
        Some(d) => d,
        None => return Err(TxError::MissingField),
    };
    let comp = match hex_decode(data.as_str()) {
        Some(c) => c,
        None => return Err(TxError::DecodeError),
    };
    let payload = match gunzip(&comp) {
        Some(p) => p,
        None => return Err(TxError::DecodeError),
    };
    let digest = sha256(&env);
    let content_id = hex_encode(&digest);
    proof {
        lemma_content_id_never_stripped(env@);
    }
    Ok(Some(BlobRecord { content_id, payload }))
}

/// A content id needs no stripping: its second character is a hex digit,
/// never 'x', so the blob store files it under the id itself.
pub proof fn lemma_content_id_never_stripped(env: Seq<u8>)
    ensures
        strip_0x(content_id_spec(env)) == content_id_spec(env),
{
    let cid = content_id_spec(env);
    if cid.len() >= 2 {
        assert(cid[1] != 'x');
    }
}

/// Content addressing determinism: two decodes of the same raw transaction
/// yield the same outcome — in particular the same content id and the same
/// payload bytes. `decode` pins each result to `decode_spec`, a function of
/// the raw characters alone, so no two runs can disagree.
pub proof fn lemma_decode_deterministic(
    r1: Result<Option<BlobRecord>, TxError>,
    r2: Result<Option<BlobRecord>, TxError>,
    raw: Seq<char>,
)
    requires
        decode_result_view(r1) == decode_spec(raw),
        decode_result_view(r2) == decode_spec(raw),
    ensures
        decode_result_view(r1) == decode_result_view(r2),
{
}

/// Non-blob exclusion: an envelope whose `type` field is not exactly "blob"
/// yields no record, whatever the rest of the document or the payload holds.
pub proof fn lemma_non_blob_yields_none(doc: EnvelopeView, env: Seq<u8>)
    requires
        doc.kind != Some("blob"@),
    ensures
        extract_spec(doc, env) == Ok::<Option<BlobRecordView>, TxError>(None),
{
}

} // verus!
