//! Object keys, the public address of an object, and the one write that puts
//! it into the store.

use crate::source::{text_of, ContentMetadata, ResolvedSource, UploadSource};
use uuid::Uuid;
use vstd::prelude::*;

verus! {

/// A digit or one of the letters `a` to `f`.
pub open spec fn is_lower_hex(c: char) -> bool {
    ('0' <= c && c <= '9') || ('a' <= c && c <= 'f')
}

/// The written form of a random identifier: 32 lower-case hexadecimal digits
/// in groups of 8, 4, 4, 4 and 12, with hyphens between the groups. The third
/// group begins with the version, 4.
pub open spec fn is_upload_id(id: Seq<char>) -> bool {
    &&& id.len() == 36
    &&& forall|i: int|
        0 <= i < 36 ==> if i == 8 || i == 13 || i == 18 || i == 23 {
            #[trigger] id[i] == '-'
        } else {
            is_lower_hex(id[i])
        }
    &&& id[14] == '4'
}

/// Calls `uuid::Uuid::new_v4` and writes the identifier out as its `Display`
/// does. The identifier is random, so the contract states only the shape
/// that every outcome has.
#[verifier::external_body]
fn fresh_id() -> (id: String)
    ensures
        is_upload_id(id@),
{
    Uuid::new_v4().to_string()
}

/// Calls `Iterator::next` on a `gpw::PasswordGenerator::default()`, which
/// makes up a pronounceable word or gives nothing. The word is random, so
/// nothing is claimed of it. The generator always finds a start for its
/// word: the entries of its table add up to 125729, the very bound below
/// which it draws.
#[verifier::external_body]
fn fresh_token() -> (token: Option<String>) {
    gpw::PasswordGenerator::default().next()
}

/// Key of an uploaded object: `u/<id>`, followed by `.<extension>` where an
/// extension is known.
pub open spec fn upload_key_text(id: Seq<char>, extension: Option<Seq<char>>) -> Seq<char> {
    match extension {
        Some(e) => "u/"@ + id + "."@ + e,
        None => "u/"@ + id,
    }
}

/// Key of a redirect page: `s/<token>`.
pub open spec fn short_key_text(token: Seq<char>) -> Seq<char> {
    "s/"@ + token
}

/// Public address of an object: `https://<bucket>/<key>`.
pub open spec fn object_url_text(bucket: Seq<char>, key: Seq<char>) -> Seq<char> {
    "https://"@ + bucket + "/"@ + key
}

/// A page that sends the browser on to `url` at once.
pub open spec fn redirect_page_text(url: Seq<char>) -> Seq<char> {
    "<meta http-equiv=\"refresh\" content=\"0; URL="@ + url + "\" />"@
}

/// Composes the key of an uploaded object.
pub fn upload_key(id: &str, extension: &Option<String>) -> (key: String)
    ensures
        key@ == upload_key_text(id@, text_of(*extension)),
{
    let stem = String::from_str("u/").concat(id);
    match extension {
        Some(e) => stem.concat(".").concat(e.as_str()),
        None => stem,
    }
}

/// Composes the key of a redirect page.
pub fn short_key(token: &str) -> (key: String)
    ensures
        key@ == short_key_text(token@),
{
    String::from_str("s/").concat(token)
}

/// Composes the public address of an object.
pub fn object_url(bucket: &str, key: &str) -> (url: String)
    ensures
        url@ == object_url_text(bucket@, key@),
{
    String::from_str("https://").concat(bucket).concat("/").concat(key)
}

/// Composes the page that redirects to `url`.
pub fn redirect_page(url: &str) -> (page: String)
    ensures
        page@ == redirect_page_text(url@),
{
    String::from_str("<meta http-equiv=\"refresh\" content=\"0; URL=").concat(url).concat("\" />")
}

/// The address to shorten, from the command line. Without one there is
/// nothing to do.
pub fn redirect_target(arg: Option<String>) -> (target: Result<String, UsageError>)
    ensures
        target == match arg {
            Some(url) => Ok::<String, UsageError>(url),
            None => Err::<String, UsageError>(UsageError::NoUrlGiven),
        },
{
    match arg {
        Some(url) => Ok(url),
        None => Err(UsageError::NoUrlGiven),
    }
}

/// A command line that cannot be served.
#[derive(Clone, Copy, Debug, PartialEq, Eq, Structural)]
pub enum UsageError {
    NoUrlGiven,
}

impl UsageError {
    /// The line shown to the user.
    pub fn message(&self) -> (text: String)
        ensures
            text@ == "no url given"@,
    {
        String::from_str("no url given")
    }
}

/// The bytes that a write sends.
#[derive(Clone, Debug, PartialEq, Eq)]
pub enum Body {
    /// The content of a file, read chunk by chunk while it is sent. The
    /// chunks cannot be had a second time.
    Chunked { path: String, length: usize },
    /// One chunk that is held in memory.
    Single(Vec<u8>),
}

/// What a `Body` holds.
pub enum BodyView {
    Chunked { path: Seq<char>, length: nat },
    Single(Seq<u8>),
}

impl BodyView {
    /// The number of bytes that the body sends.
    pub open spec fn length(self) -> nat {
        match self {
            BodyView::Chunked { length, .. } => length,
            BodyView::Single(bytes) => bytes.len(),
        }
    }
}

impl View for Body {
    type V = BodyView;

    open spec fn view(&self) -> BodyView {
        match self {
            Body::Chunked { path, length } => BodyView::Chunked {
                path: path@,
                length: *length as nat,
            },
            Body::Single(bytes) => BodyView::Single(bytes@),
        }
    }
}

/// The body that a source gives.
pub open spec fn body_of(source: UploadSource) -> BodyView {
    match source {
        UploadSource::FileSource { path, known_size } => BodyView::Chunked {
            path: path@,
            length: known_size as nat,
        },
        UploadSource::StdinSource { buffered_bytes } => BodyView::Single(buffered_bytes@),
    }
}

/// Turns a source into the body of a write.
pub fn into_body(source: UploadSource) -> (body: Body)
    ensures
        body@ == body_of(source),
        body@.length() == source.length(),
{
    match source {
        UploadSource::FileSource { path, known_size } => Body::Chunked { path, length: known_size },
        UploadSource::StdinSource { buffered_bytes } => Body::Single(buffered_bytes),
    }
}

/// One write to the store: an object under a key, with its declared length
/// and, where one is known, its media type.
#[derive(Clone, Debug, PartialEq, Eq)]
pub struct PutRequest {
    pub bucket: String,
    pub key: String,
    pub content_type: Option<String>,
    pub content_length: usize,
    pub body: Body,
}

/// What a `PutRequest` holds.
pub struct PutRequestView {
    pub bucket: Seq<char>,
    pub key: Seq<char>,
    pub content_type: Option<Seq<char>>,
    pub content_length: nat,
    pub body: BodyView,
}

impl View for PutRequest {
    type V = PutRequestView;

    open spec fn view(&self) -> PutRequestView {
        PutRequestView {
            bucket: self.bucket@,
            key: self.key@,
            content_type: text_of(self.content_type),
            content_length: self.content_length as nat,
            body: self.body@,
        }
    }
}

/// A write together with the address under which the object will be found.
/// The address is shown before the write is made.
#[derive(Clone, Debug, PartialEq, Eq)]
pub struct Upload {
    pub url: String,
    pub request: PutRequest,
}

/// What an `Upload` holds.
pub struct UploadView {
    pub url: Seq<char>,
    pub request: PutRequestView,
}

impl View for Upload {
    type V = UploadView;

    open spec fn view(&self) -> UploadView {
        UploadView { url: self.url@, request: self.request@ }
    }
}

/// The upload of a source into `bucket` under the identifier `id`.
pub open spec fn upload_of(bucket: Seq<char>, source: UploadSource, id: Seq<char>) -> UploadView {
    let key = upload_key_text(id, source.metadata().extension);
    UploadView {
        url: object_url_text(bucket, key),
        request: PutRequestView {
            bucket,
            key,
            content_type: source.metadata().mime,
            content_length: source.metadata().length,
            body: body_of(source),
        },
    }
}

/// The upload of a page that redirects to `url`, under the token `token`.
pub open spec fn short_upload_of(bucket: Seq<char>, url: Seq<char>, token: Seq<char>) -> UploadView {
    let key = short_key_text(token);
    let page = vstd::utf8::encode_utf8(redirect_page_text(url));
    UploadView {
        url: object_url_text(bucket, key),
        request: PutRequestView {
            bucket,
            key,
            content_type: Some("text/html"@),
            content_length: page.len(),
            body: BodyView::Single(page),
        },
    }
}

/// Plans the upload of a resolved source under a given identifier.
pub fn upload_with_id(bucket: String, resolved: ResolvedSource, id: &str) -> (upload: Upload)
    ensures
        upload@ == upload_of(bucket@, resolved.source(), id@),
{
    let (source, metadata) = resolved.into_parts();
    let ContentMetadata { extension, mime, length } = metadata;
    let key = upload_key(id, &extension);
    let url = object_url(bucket.as_str(), key.as_str());
    let body = into_body(source);
    Upload {
        url,
        request: PutRequest { bucket, key, content_type: mime, content_length: length, body },
    }
}

/// Plans the upload of a resolved source under a fresh random identifier.
pub fn plan_upload(bucket: String, resolved: ResolvedSource) -> (upload: Upload)
    ensures
        exists|id: Seq<char>|
            is_upload_id(id) && #[trigger] upload_of(bucket@, resolved.source(), id) == upload@,
{
    let id = fresh_id();
    upload_with_id(bucket, resolved, id.as_str())
}

/// Plans the upload of a redirect page under a given token.
pub fn short_with_token(bucket: String, url: &str, token: &str) -> (upload: Upload)
    ensures
        upload@ == short_upload_of(bucket@, url@, token@),
{
    let key = short_key(token);
    let address = object_url(bucket.as_str(), key.as_str());
    let page = redirect_page(url).as_str().as_bytes_vec();
    Upload {
        url: address,
        request: PutRequest {
            bucket,
            key,
            content_type: Some(String::from_str("text/html")),
            content_length: page.len(),
            body: Body::Single(page),
        },
    }
}

/// What becomes of the generator's answer: with a token the upload of the
/// redirect page under that token, without one no upload.
pub fn short_outcome(bucket: String, url: &str, token: Option<String>) -> (upload: Option<Upload>)
    ensures
        match token {
            Some(t) => upload matches Some(u) && u@ == short_upload_of(bucket@, url@, t@),
            None => upload is None,
        },
{
    match token {
        Some(t) => Some(short_with_token(bucket, url, t.as_str())),
        None => None,
    }
}

/// Plans the upload of a redirect page under a fresh random token. There is
/// no upload where the generator gives no token.
pub fn plan_short(bucket: String, url: &str) -> (upload: Option<Upload>)
    ensures
        upload matches Some(u) ==> exists|token: Seq<char>| #[trigger]
            short_upload_of(bucket@, url@, token) == u@,
{
    short_outcome(bucket, url, fresh_token())
}

/// In every planned upload the declared length is the number of bytes that
/// the body sends.
pub proof fn declared_length_is_body_length(bucket: Seq<char>, source: UploadSource, id: Seq<char>)
    ensures
        upload_of(bucket, source, id).request.content_length == upload_of(
            bucket,
            source,
            id,
        ).request.body.length(),
        upload_of(bucket, source, id).request.content_length == source.length(),
{
}

/// The same holds of a redirect page.
pub proof fn declared_length_is_page_length(bucket: Seq<char>, url: Seq<char>, token: Seq<char>)
    ensures
        short_upload_of(bucket, url, token).request.content_length == short_upload_of(
            bucket,
            url,
            token,
        ).request.body.length(),
{
}

/// The address that is shown ends in the key under which the object is
/// written.
pub proof fn shown_address_ends_in_key(bucket: Seq<char>, source: UploadSource, id: Seq<char>)
    ensures
        upload_of(bucket, source, id).url == "https://"@ + bucket + "/"@ + upload_of(
            bucket,
            source,
            id,
        ).request.key,
{
}

/// Content without a known type is written under the bare identifier, and
/// without a media type.
pub proof fn untyped_content_has_bare_key(bucket: Seq<char>, source: UploadSource, id: Seq<char>)
    requires
        source.metadata().extension is None,
    ensures
        upload_of(bucket, source, id).request.key == "u/"@ + id,
{
}

} // verus!
