//! Uploading a snapshot to the remote WebDAV store: one authenticated PUT,
//! and what the store's answer means.

use crate::clock::{moment_at, Timestamp};
use crate::error::{UploadError, UploadErrorView};
use crate::text::{join2, join3, optional_text};
use base64::Engine;
use vstd::prelude::*;
use vstd::utf8::encode_utf8;

verus! {

/// The text that the standard base64 engine, with padding, encodes bytes to.
pub uninterp spec fn base64_standard(bytes: Seq<u8>) -> Seq<char>;

/// Input lengths whose encoded length fits in a `usize`.
pub open spec fn encodable(length: nat) -> bool {
    length / 3 * 4 + 4 <= usize::MAX
}

/// Calls `encode` on `base64::engine::general_purpose::STANDARD`. Trusted: the
/// text is a function of the bytes alone, named [`base64_standard`]. The
/// engine does not return where the encoded length overflows `usize`, so such
/// inputs are left out.
#[verifier::external_body]
pub(crate) fn base64_encode(bytes: &[u8]) -> (text: String)
    requires
        encodable(bytes@.len()),
    ensures
        text@ == base64_standard(bytes@),
{
    base64::engine::general_purpose::STANDARD.encode(bytes)
}

/// Where backups go and who puts them there. Read once per run, not changed
/// by it.
#[derive(Debug, PartialEq, Eq)]
pub struct RemoteCredential {
    pub user: String,
    pub pass: String,
    pub base_path: String,
}

/// Mathematical value of a [`RemoteCredential`].
pub struct RemoteCredentialView {
    pub user: Seq<char>,
    pub pass: Seq<char>,
    pub base_path: Seq<char>,
}

impl View for RemoteCredential {
    type V = RemoteCredentialView;

    open spec fn view(&self) -> RemoteCredentialView {
        RemoteCredentialView { user: self.user@, pass: self.pass@, base_path: self.base_path@ }
    }
}

/// The directory that backups go to where none is configured.
pub open spec fn default_base_path() -> Seq<char> {
    "/dav/warden-backup"@
}

/// The credential made of a user, a password, and the configured directory
/// or, for want of one, the default.
pub open spec fn credential_of(user: Seq<char>, pass: Seq<char>, path: Option<Seq<char>>)
    -> RemoteCredentialView {
    RemoteCredentialView {
        user,
        pass,
        base_path: match path {
            Some(p) => p,
            None => default_base_path(),
        },
    }
}

/// The secret that holds the remote store's user.
pub open spec fn user_secret() -> Seq<char> {
    "JIANGUOYUN_USER"@
}

/// The secret that holds the remote store's password.
pub open spec fn pass_secret() -> Seq<char> {
    "JIANGUOYUN_PASS"@
}

/// The variable that may hold the directory on the remote store.
pub open spec fn path_variable() -> Seq<char> {
    "JIANGUOYUN_PATH"@
}

/// The credential that a configuration gives, or the name of the secret
/// that is wanting: user and password are required, the user being looked
/// at first; the directory is optional.
pub open spec fn configuration(
    user: Option<Seq<char>>,
    pass: Option<Seq<char>>,
    path: Option<Seq<char>>,
) -> Result<RemoteCredentialView, Seq<char>> {
    match (user, pass) {
        (None, _) => Err(user_secret()),
        (Some(_), None) => Err(pass_secret()),
        (Some(user), Some(pass)) => Ok(credential_of(user, pass, path)),
    }
}

/// Mathematical value of a credential or the name of a wanting secret.
pub open spec fn configuration_view(configured: Result<RemoteCredential, String>) -> Result<
    RemoteCredentialView,
    Seq<char>,
> {
    match configured {
        Ok(credential) => Ok(credential@),
        Err(name) => Err(name@),
    }
}

impl RemoteCredential {
    /// Makes a credential from what is configured, or names the secret that
    /// is wanting.
    pub fn from_configuration(
        user: Option<String>,
        pass: Option<String>,
        path: Option<String>,
    ) -> (configured: Result<RemoteCredential, String>)
        ensures
            configuration_view(configured) == configuration(
                optional_text(user),
                optional_text(pass),
                optional_text(path),
            ),
    {
        match (user, pass) {
            (None, _) => Err(String::from_str("JIANGUOYUN_USER")),
            (Some(_), None) => Err(String::from_str("JIANGUOYUN_PASS")),
            (Some(user), Some(pass)) => Ok(RemoteCredential::new(user, pass, path)),
        }
    }

    /// Makes a credential from the configured values.
    pub fn new(user: String, pass: String, path: Option<String>) -> (credential: RemoteCredential)
        ensures
            credential@ == credential_of(user@, pass@, optional_text(path)),
    {
        let base_path: String = match path {
            Some(p) => p,
            None => String::from_str("/dav/warden-backup"),
        };
        RemoteCredential { user, pass, base_path }
    }
}

/// User and password as Basic authentication joins them.
pub open spec fn credential_pair(user: Seq<char>, pass: Seq<char>) -> Seq<char> {
    user + ":"@ + pass
}

/// The `Authorization` header value around an encoded credential.
pub open spec fn basic_header(encoded: Seq<char>) -> Seq<char> {
    "Basic "@ + encoded
}

/// The `Authorization` header value for a user and a password: the word
/// `Basic` and the base64 form of the pair's UTF-8 bytes.
pub open spec fn basic_authorization(user: Seq<char>, pass: Seq<char>) -> Seq<char> {
    basic_header(base64_standard(encode_utf8(credential_pair(user, pass))))
}

/// Whether a user and a password are short enough to be encoded.
pub open spec fn authorizable(user: Seq<char>, pass: Seq<char>) -> bool {
    encodable(encode_utf8(credential_pair(user, pass)).len())
}

/// Puts the word `Basic` before an encoded credential.
pub fn authorization_header(encoded: &str) -> (header: String)
    ensures
        header@ == basic_header(encoded@),
{
    join2("Basic ", encoded)
}

/// The `Authorization` header value for a credential; `None` exactly where
/// user and password together are too long to be encoded.
pub fn authorization_for(credential: &RemoteCredential) -> (header: Option<String>)
    ensures
        header matches Some(h) ==> h@ == basic_authorization(credential@.user, credential@.pass),
        header is Some <==> authorizable(credential@.user, credential@.pass),
{
    let pair: String = join3(credential.user.as_str(), ":", credential.pass.as_str());
    let bytes: &[u8] = pair.as_str().as_bytes();
    if bytes.len() / 3 <= (usize::MAX - 4) / 4 {
        let encoded: String = base64_encode(bytes);
        Some(authorization_header(encoded.as_str()))
    } else {
        None
    }
}

/// The name of the backup file for a compact time stamp. The stamp has the
/// granularity of a second, so two backups of one second share a name.
pub open spec fn filename_for(stamp: Seq<char>) -> Seq<char> {
    "warden_backup_"@ + stamp + ".json"@
}

/// The address of a backup file in a directory of the remote store.
pub open spec fn url_for(base_path: Seq<char>, filename: Seq<char>) -> Seq<char> {
    "https://dav.jianguoyun.com"@ + base_path + "/"@ + filename
}

/// The name of the backup file for a compact time stamp.
pub fn backup_filename(stamp: &str) -> (filename: String)
    ensures
        filename@ == filename_for(stamp@),
{
    join3("warden_backup_", stamp, ".json")
}

/// The address of a backup file in a directory of the remote store.
pub fn upload_url(base_path: &str, filename: &str) -> (url: String)
    ensures
        url@ == url_for(base_path@, filename@),
{
    let mut url: String = join3("https://dav.jianguoyun.com", base_path, "/");
    url.append(filename);
    url
}

/// The single request of an upload.
#[derive(Debug, PartialEq, Eq)]
pub struct UploadRequest {
    pub method: String,
    pub url: String,
    pub authorization: String,
    pub content_type: String,
    pub body: String,
}

/// Mathematical value of an [`UploadRequest`].
pub struct UploadRequestView {
    pub method: Seq<char>,
    pub url: Seq<char>,
    pub authorization: Seq<char>,
    pub content_type: Seq<char>,
    pub body: Seq<char>,
}

impl View for UploadRequest {
    type V = UploadRequestView;

    open spec fn view(&self) -> UploadRequestView {
        UploadRequestView {
            method: self.method@,
            url: self.url@,
            authorization: self.authorization@,
            content_type: self.content_type@,
            body: self.body@,
        }
    }
}

/// The request that puts a body under a file name: a PUT of JSON to the
/// file's address, with the given `Authorization` header.
pub open spec fn request_for(
    authorization: Seq<char>,
    base_path: Seq<char>,
    filename: Seq<char>,
    body: Seq<char>,
) -> UploadRequestView {
    UploadRequestView {
        method: "PUT"@,
        url: url_for(base_path, filename),
        authorization,
        content_type: "application/json"@,
        body,
    }
}

/// Builds the request that puts a body under a file name.
pub fn upload_request(
    authorization: String,
    base_path: &str,
    filename: &str,
    body: String,
) -> (request: UploadRequest)
    ensures
        request@ == request_for(authorization@, base_path@, filename@, body@),
{
    UploadRequest {
        method: String::from_str("PUT"),
        url: upload_url(base_path, filename),
        authorization,
        content_type: String::from_str("application/json"),
        body,
    }
}

/// Proof of an accepted upload.
#[derive(Debug, PartialEq, Eq)]
pub struct UploadReceipt {
    pub filename: String,
    pub status: u16,
}

/// Mathematical value of an [`UploadReceipt`].
pub struct UploadReceiptView {
    pub filename: Seq<char>,
    pub status: u16,
}

impl View for UploadReceipt {
    type V = UploadReceiptView;

    open spec fn view(&self) -> UploadReceiptView {
        UploadReceiptView { filename: self.filename@, status: self.status }
    }
}

/// The statuses with which the remote store accepts an upload.
pub open spec fn accepted(status: u16) -> bool {
    200 <= status < 300
}

/// What a status means for the upload of a file.
pub open spec fn status_outcome(status: u16, filename: Seq<char>) -> Result<
    UploadReceiptView,
    UploadErrorView,
> {
    if accepted(status) {
        Ok(UploadReceiptView { filename, status })
    } else {
        Err(UploadErrorView::Http(status))
    }
}

/// Mathematical value of an upload's outcome.
pub open spec fn upload_outcome_view(outcome: Result<UploadReceipt, UploadError>) -> Result<
    UploadReceiptView,
    UploadErrorView,
> {
    match outcome {
        Ok(receipt) => Ok(receipt@),
        Err(e) => Err(e@),
    }
}

/// Reads the store's answer to the upload of a file: a status from 200 to
/// 299 is a receipt, any other the failure `Http` with that status.
pub fn interpret_status(status: u16, filename: String) -> (outcome: Result<
    UploadReceipt,
    UploadError,
>)
    ensures
        upload_outcome_view(outcome) == status_outcome(status, filename@),
{
    if status >= 200 && status < 300 {
        Ok(UploadReceipt { filename, status })
    } else {
        Err(UploadError::Http(status))
    }
}

/// The text that reports an accepted upload.
pub open spec fn success_message(receipt: UploadReceiptView) -> Seq<char> {
    "Backup successful: "@ + receipt.filename
}

impl UploadReceipt {
    /// The text that reports the accepted upload.
    pub fn message(&self) -> (text: String)
        ensures
            text@ == success_message(self@),
    {
        join2("Backup successful: ", self.filename.as_str())
    }
}

/// Two backups whose file names are made within the same second get the
/// same name: the later one overwrites the earlier.
pub proof fn lemma_same_second_same_filename(a: Timestamp, b: Timestamp)
    requires
        a.seconds == b.seconds,
    ensures
        moment_at(a) matches Some(first) ==> (moment_at(b) matches Some(second) ==> filename_for(
            first.compact,
        ) == filename_for(second.compact)),
{
}

/// A status is turned into a receipt exactly if it lies from 200 to 299;
/// every other status comes back as the failure `Http` with that status.
pub proof fn lemma_status_mapping(status: u16, filename: Seq<char>)
    ensures
        200 <= status <= 299 <==> status_outcome(status, filename) is Ok,
        status_outcome(status, filename) matches Ok(receipt) ==> receipt.status == status
            && receipt.filename == filename,
        status_outcome(status, filename) matches Err(e) ==> e == UploadErrorView::Http(status),
{
}

} // verus!
