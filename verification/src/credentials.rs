//! The certificate chain and private key by which a server proves who it is.
//!
//! They come from two files that the user names, in DER or in PEM form, or from
//! the local store of the program. A store that is not there yet is filled with
//! a self-signed certificate.
use vstd::prelude::*;
use vstd::utf8::is_ascii_chars;

use crate::text::same_text;

verus! {

/// `std::io::Error`: why a PEM text cannot be read. It is only passed on.
#[verifier::external_type_specification]
#[verifier::external_body]
pub struct ExIoError(std::io::Error);

/// `rcgen::RcgenError`: why no certificate could be made. It is only passed on.
#[verifier::external_type_specification]
#[verifier::external_body]
pub struct ExRcgenError(rcgen::RcgenError);

/// The contents of a list of byte strings.
pub open spec fn byte_strings(list: Seq<Vec<u8>>) -> Seq<Seq<u8>> {
    list.map_values(|bytes: Vec<u8>| bytes@)
}

/// The contents of a list of byte strings that may be missing.
pub open spec fn byte_strings_option(list: Option<Vec<Vec<u8>>>) -> Option<Seq<Seq<u8>>> {
    match list {
        Some(l) => Some(byte_strings(l@)),
        None => None,
    }
}

/// The PKCS #8 private keys among the sections of a PEM text, or `None` where
/// the text is malformed.
pub uninterp spec fn pem_pkcs8_keys(text: Seq<u8>) -> Option<Seq<Seq<u8>>>;

/// The PKCS #1 (RSA) private keys among the sections of a PEM text, or `None`
/// where the text is malformed.
pub uninterp spec fn pem_rsa_keys(text: Seq<u8>) -> Option<Seq<Seq<u8>>>;

/// The certificates among the sections of a PEM text, or `None` where the text
/// is malformed.
pub uninterp spec fn pem_certificates(text: Seq<u8>) -> Option<Seq<Seq<u8>>>;

/// `rustls_pemfile::pkcs8_private_keys` on bytes in memory. What it returns, an
/// error included, depends on the bytes alone.
#[verifier::external_body]
fn read_pkcs8_keys(text: &Vec<u8>) -> (r: Result<Vec<Vec<u8>>, std::io::Error>)
    ensures
        match r {
            Ok(keys) => pem_pkcs8_keys(text@) == Some(byte_strings(keys@)),
            Err(_) => pem_pkcs8_keys(text@) is None,
        },
{
    rustls_pemfile::pkcs8_private_keys(&mut text.as_slice())
}

/// `rustls_pemfile::rsa_private_keys` on bytes in memory. What it returns, an
/// error included, depends on the bytes alone.
#[verifier::external_body]
fn read_rsa_keys(text: &Vec<u8>) -> (r: Result<Vec<Vec<u8>>, std::io::Error>)
    ensures
        match r {
            Ok(keys) => pem_rsa_keys(text@) == Some(byte_strings(keys@)),
            Err(_) => pem_rsa_keys(text@) is None,
        },
{
    rustls_pemfile::rsa_private_keys(&mut text.as_slice())
}

/// `rustls_pemfile::certs` on bytes in memory. What it returns, an error
/// included, depends on the bytes alone.
#[verifier::external_body]
fn read_certificates(text: &Vec<u8>) -> (r: Result<Vec<Vec<u8>>, std::io::Error>)
    ensures
        match r {
            Ok(certificates) => pem_certificates(text@) == Some(byte_strings(certificates@)),
            Err(_) => pem_certificates(text@) is None,
        },
{
    rustls_pemfile::certs(&mut text.as_slice())
}

/// The contents of a list of texts.
pub open spec fn texts(list: Seq<String>) -> Seq<Seq<char>> {
    list.map_values(|text: String| text@)
}

/// Whether the bytes are a certificate for the names, in DER form, and the
/// private key, in DER form, by which that certificate is signed and whose public
/// key it carries.
pub uninterp spec fn is_self_signed(names: Seq<Seq<char>>, certificate: Seq<u8>, key: Seq<u8>) -> bool;

/// `rcgen::generate_simple_self_signed`: the DER form of a certificate for the
/// names, as `serialize_der` gives it, and that of its private key, as
/// `serialize_private_key_der` gives it. The key is drawn at random: which key it
/// is, and whether one can be drawn, is left open. A name that is not ASCII makes
/// `serialize_der` panic.
#[verifier::external_body]
fn self_signed(names: Vec<String>) -> (r: Result<(Vec<u8>, Vec<u8>), rcgen::RcgenError>)
    requires
        forall|i: int| 0 <= i < names@.len() ==> is_ascii_chars(#[trigger] names@[i]@),
    ensures
        r matches Ok(pair) ==> is_self_signed(texts(names@), pair.0@, pair.1@),
{
    let certificate = rcgen::generate_simple_self_signed(names)?;
    let key = certificate.serialize_private_key_der();
    Ok((certificate.serialize_der()?, key))
}

/// Why the files that the user names give no credentials.
#[derive(Debug, Clone, Copy, PartialEq, Eq, Structural)]
pub enum CredentialError {
    /// The key file is malformed where a PKCS #8 key is looked for.
    MalformedPkcs8,
    /// The key file is malformed where a PKCS #1 key is looked for.
    MalformedPkcs1,
    /// The key file holds no private key.
    NoPrivateKeys,
    /// The certificate file is malformed.
    InvalidCertificate,
}

impl CredentialError {
    /// The text of the error.
    pub open spec fn text(self) -> Seq<char> {
        match self {
            CredentialError::MalformedPkcs8 => "malformed PKCS #8 private key"@,
            CredentialError::MalformedPkcs1 => "malformed PKCS #1 private key"@,
            CredentialError::NoPrivateKeys => "no private keys found"@,
            CredentialError::InvalidCertificate => "invalid PEM-encoded certificate"@,
        }
    }

    /// The text of the error, for the user.
    pub fn message(self) -> (r: &'static str)
        ensures
            r@ == self.text(),
    {
        match self {
            CredentialError::MalformedPkcs8 => "malformed PKCS #8 private key",
            CredentialError::MalformedPkcs1 => "malformed PKCS #1 private key",
            CredentialError::NoPrivateKeys => "no private keys found",
            CredentialError::InvalidCertificate => "invalid PEM-encoded certificate",
        }
    }
}

/// Where the credentials come from. `P` is a path.
#[derive(Debug, PartialEq, Eq)]
pub enum CredentialSource<P> {
    /// From the two files that the user names.
    Files { key: P, certificate: P },
    /// From the local store.
    Local,
}

/// Where the credentials come from, given the files that the user names: both
/// have to be there.
pub fn credential_source<P>(key: Option<P>, certificate: Option<P>) -> (r: CredentialSource<P>)
    ensures
        r == (match (key, certificate) {
            (Some(k), Some(c)) => CredentialSource::Files { key: k, certificate: c },
            _ => CredentialSource::Local,
        }),
{
    match (key, certificate) {
        (Some(k), Some(c)) => CredentialSource::Files { key: k, certificate: c },
        _ => CredentialSource::Local,
    }
}

/// Whether a file with this extension holds DER; any other holds PEM.
pub open spec fn is_der(extension: Option<Seq<char>>) -> bool {
    extension == Some("der"@)
}

/// The text of an extension, if there is one.
pub open spec fn extension_view(extension: Option<String>) -> Option<Seq<char>> {
    match extension {
        Some(e) => Some(e@),
        None => None,
    }
}

fn has_der_extension(extension: &Option<String>) -> (r: bool)
    ensures
        r == is_der(extension_view(*extension)),
{
    match extension {
        Some(e) => same_text(e.as_str(), "der"),
        None => false,
    }
}

/// The private key that is used of those in a PEM text: the first PKCS #8 key,
/// or the first PKCS #1 key where there is none.
pub open spec fn chosen_key(
    pkcs8: Option<Seq<Seq<u8>>>,
    rsa: Option<Seq<Seq<u8>>>,
) -> Result<Seq<u8>, CredentialError> {
    match pkcs8 {
        None => Err(CredentialError::MalformedPkcs8),
        Some(keys) => if keys.len() > 0 {
            Ok(keys[0])
        } else {
            match rsa {
                None => Err(CredentialError::MalformedPkcs1),
                Some(others) => if others.len() > 0 {
                    Ok(others[0])
                } else {
                    Err(CredentialError::NoPrivateKeys)
                },
            }
        },
    }
}

/// The private key in a file with the given extension and contents.
pub open spec fn key_in(extension: Option<Seq<char>>, contents: Seq<u8>) -> Result<Seq<u8>, CredentialError> {
    if is_der(extension) {
        Ok(contents)
    } else {
        chosen_key(pem_pkcs8_keys(contents), pem_rsa_keys(contents))
    }
}

/// The certificate chain in a file with the given extension and contents.
pub open spec fn chain_in(extension: Option<Seq<char>>, contents: Seq<u8>) -> Result<
    Seq<Seq<u8>>,
    CredentialError,
> {
    if is_der(extension) {
        Ok(seq![contents])
    } else {
        match pem_certificates(contents) {
            Some(chain) => Ok(chain),
            None => Err(CredentialError::InvalidCertificate),
        }
    }
}

/// The view of a key that may have been refused.
pub open spec fn key_result(r: Result<Vec<u8>, CredentialError>) -> Result<Seq<u8>, CredentialError> {
    match r {
        Ok(key) => Ok(key@),
        Err(e) => Err(e),
    }
}

/// The view of a chain that may have been refused.
pub open spec fn chain_result(r: Result<Vec<Vec<u8>>, CredentialError>) -> Result<
    Seq<Seq<u8>>,
    CredentialError,
> {
    match r {
        Ok(chain) => Ok(byte_strings(chain@)),
        Err(e) => Err(e),
    }
}

/// The private key that is used of those that were found in a PEM text. The
/// PKCS #1 keys matter only where no PKCS #8 key was found.
pub fn choose_key(pkcs8: Option<Vec<Vec<u8>>>, rsa: Option<Vec<Vec<u8>>>) -> (r: Result<
    Vec<u8>,
    CredentialError,
>)
    ensures
        key_result(r) == chosen_key(byte_strings_option(pkcs8), byte_strings_option(rsa)),
{
    let mut keys = match pkcs8 {
        Some(keys) => keys,
        None => return Err(CredentialError::MalformedPkcs8),
    };
    if keys.len() > 0 {
        return Ok(keys.remove(0));
    }
    let mut others = match rsa {
        Some(others) => others,
        None => return Err(CredentialError::MalformedPkcs1),
    };
    if others.len() > 0 {
        Ok(others.remove(0))
    } else {
        Err(CredentialError::NoPrivateKeys)
    }
}

/// The private key in a file with the given extension and contents.
pub fn load_key(extension: Option<String>, contents: Vec<u8>) -> (r: Result<Vec<u8>, CredentialError>)
    ensures
        key_result(r) == key_in(extension_view(extension), contents@),
        (extension matches Some(e) && e@ == "der"@) ==> (r matches Ok(key) && key@ == contents@),
{
    if has_der_extension(&extension) {
        return Ok(contents);
    }
    let pkcs8 = match read_pkcs8_keys(&contents) {
        Ok(keys) => Some(keys),
        Err(_) => None,
    };
    let rsa = match &pkcs8 {
        Some(keys) => if keys.len() == 0 {
            match read_rsa_keys(&contents) {
                Ok(others) => Some(others),
                Err(_) => None,
            }
        } else {
            None
        },
        None => None,
    };
    choose_key(pkcs8, rsa)
}

/// The certificates of a PEM text, given those that were found in it.
pub fn pem_chain(found: Option<Vec<Vec<u8>>>) -> (r: Result<Vec<Vec<u8>>, CredentialError>)
    ensures
        chain_result(r) == (match byte_strings_option(found) {
            Some(chain) => Ok(chain),
            None => Err(CredentialError::InvalidCertificate),
        }),
{
    match found {
        Some(chain) => Ok(chain),
        None => Err(CredentialError::InvalidCertificate),
    }
}

/// The certificate chain in a file with the given extension and contents.
pub fn load_chain(extension: Option<String>, contents: Vec<u8>) -> (r: Result<
    Vec<Vec<u8>>,
    CredentialError,
>)
    ensures
        chain_result(r) == chain_in(extension_view(extension), contents@),
        (extension matches Some(e) && e@ == "der"@) ==> (r matches Ok(chain) && chain@.len() == 1 && chain@[0]@
            == contents@),
{
    if has_der_extension(&extension) {
        let mut chain: Vec<Vec<u8>> = Vec::new();
        chain.push(contents);
        assert(byte_strings(chain@) =~= seq![contents@]);
        return Ok(chain);
    }
    let found = match read_certificates(&contents) {
        Ok(chain) => Some(chain),
        Err(_) => None,
    };
    pem_chain(found)
}

/// What came of reading a file.
#[derive(Debug, PartialEq, Eq)]
pub enum FileRead {
    /// The file holds these bytes.
    Contents(Vec<u8>),
    /// There is no such file.
    NotFound,
    /// The file cannot be read, for this reason.
    Failed(String),
}

/// The content of a `FileRead`.
pub enum FileReadView {
    Contents(Seq<u8>),
    NotFound,
    Failed(Seq<char>),
}

impl View for FileRead {
    type V = FileReadView;

    open spec fn view(&self) -> FileReadView {
        match *self {
            FileRead::Contents(bytes) => FileReadView::Contents(bytes@),
            FileRead::NotFound => FileReadView::NotFound,
            FileRead::Failed(reason) => FileReadView::Failed(reason@),
        }
    }
}

/// Why a file cannot be read.
#[derive(Debug, PartialEq, Eq)]
pub enum FileProblem {
    /// There is no such file.
    NotFound,
    /// The file cannot be read, for this reason.
    Failed(String),
}

/// The content of a `FileProblem`.
pub enum FileProblemView {
    NotFound,
    Failed(Seq<char>),
}

impl View for FileProblem {
    type V = FileProblemView;

    open spec fn view(&self) -> FileProblemView {
        match *self {
            FileProblem::NotFound => FileProblemView::NotFound,
            FileProblem::Failed(reason) => FileProblemView::Failed(reason@),
        }
    }
}

/// Why the two files that the user names give no credentials.
#[derive(Debug, PartialEq, Eq)]
pub enum NamedFilesError {
    /// The key file cannot be read.
    ReadKey(FileProblem),
    /// The certificate file cannot be read.
    ReadChain(FileProblem),
    /// A file does not hold what is looked for in it.
    Credential(CredentialError),
}

/// The content of a `NamedFilesError`.
pub enum NamedFilesErrorView {
    ReadKey(FileProblemView),
    ReadChain(FileProblemView),
    Credential(CredentialError),
}

impl View for NamedFilesError {
    type V = NamedFilesErrorView;

    open spec fn view(&self) -> NamedFilesErrorView {
        match *self {
            NamedFilesError::ReadKey(problem) => NamedFilesErrorView::ReadKey(problem@),
            NamedFilesError::ReadChain(problem) => NamedFilesErrorView::ReadChain(problem@),
            NamedFilesError::Credential(e) => NamedFilesErrorView::Credential(e),
        }
    }
}

impl NamedFilesErrorView {
    /// The text of the error.
    pub open spec fn text(self) -> Seq<char> {
        match self {
            NamedFilesErrorView::ReadKey(_) => "failed to read private key"@,
            NamedFilesErrorView::ReadChain(_) => "failed to read certificate chain"@,
            NamedFilesErrorView::Credential(e) => e.text(),
        }
    }
}

impl NamedFilesError {
    /// The text of the error, for the user. Why a file cannot be read is told
    /// apart from it.
    pub fn message(&self) -> (r: &'static str)
        ensures
            r@ == self@.text(),
    {
        match self {
            NamedFilesError::ReadKey(_) => "failed to read private key",
            NamedFilesError::ReadChain(_) => "failed to read certificate chain",
            NamedFilesError::Credential(e) => e.message(),
        }
    }
}

/// What is done next with the two files that the user names.
#[derive(Debug, PartialEq, Eq)]
pub enum NamedFiles {
    /// The key file is read.
    ReadKey,
    /// The certificate file is read.
    ReadChain { key: Vec<u8> },
    /// Nothing: these are the credentials.
    Ready { credentials: Credentials },
    /// Nothing: there are no credentials.
    Failed { error: NamedFilesError },
}

/// The content of `NamedFiles`.
pub enum NamedFilesView {
    ReadKey,
    ReadChain { key: Seq<u8> },
    Ready { chain: Seq<Seq<u8>>, key: Seq<u8> },
    Failed { error: NamedFilesErrorView },
}

impl View for NamedFiles {
    type V = NamedFilesView;

    open spec fn view(&self) -> NamedFilesView {
        match *self {
            NamedFiles::ReadKey => NamedFilesView::ReadKey,
            NamedFiles::ReadChain { key } => NamedFilesView::ReadChain { key: key@ },
            NamedFiles::Ready { credentials } => NamedFilesView::Ready {
                chain: byte_strings(credentials.chain@),
                key: credentials.key@,
            },
            NamedFiles::Failed { error } => NamedFilesView::Failed { error: error@ },
        }
    }
}

impl NamedFilesView {
    /// What follows once a file with the given extension has been read. The
    /// certificate file is looked at only once the key has been found.
    pub open spec fn after_read(self, extension: Option<Seq<char>>, read: FileReadView) -> NamedFilesView {
        match self {
            NamedFilesView::ReadKey => match read {
                FileReadView::Contents(contents) => match key_in(extension, contents) {
                    Ok(key) => NamedFilesView::ReadChain { key },
                    Err(e) => NamedFilesView::Failed { error: NamedFilesErrorView::Credential(e) },
                },
                FileReadView::NotFound => NamedFilesView::Failed {
                    error: NamedFilesErrorView::ReadKey(FileProblemView::NotFound),
                },
                FileReadView::Failed(reason) => NamedFilesView::Failed {
                    error: NamedFilesErrorView::ReadKey(FileProblemView::Failed(reason)),
                },
            },
            NamedFilesView::ReadChain { key } => match read {
                FileReadView::Contents(contents) => match chain_in(extension, contents) {
                    Ok(chain) => NamedFilesView::Ready { chain, key },
                    Err(e) => NamedFilesView::Failed { error: NamedFilesErrorView::Credential(e) },
                },
                FileReadView::NotFound => NamedFilesView::Failed {
                    error: NamedFilesErrorView::ReadChain(FileProblemView::NotFound),
                },
                FileReadView::Failed(reason) => NamedFilesView::Failed {
                    error: NamedFilesErrorView::ReadChain(FileProblemView::Failed(reason)),
                },
            },
            _ => self,
        }
    }
}

impl NamedFiles {
    /// The first thing to do.
    pub fn open() -> (r: NamedFiles)
        ensures
            r@ == NamedFilesView::ReadKey,
    {
        NamedFiles::ReadKey
    }

    /// Takes in what came of reading a file with the given extension.
    pub fn file_read(self, extension: Option<String>, read: FileRead) -> (r: NamedFiles)
        ensures
            r@ == self@.after_read(extension_view(extension), read@),
    {
        match self {
            NamedFiles::ReadKey => match read {
                FileRead::Contents(contents) => match load_key(extension, contents) {
                    Ok(key) => NamedFiles::ReadChain { key },
                    Err(e) => NamedFiles::Failed { error: NamedFilesError::Credential(e) },
                },
                FileRead::NotFound => NamedFiles::Failed {
                    error: NamedFilesError::ReadKey(FileProblem::NotFound),
                },
                FileRead::Failed(reason) => NamedFiles::Failed {
                    error: NamedFilesError::ReadKey(FileProblem::Failed(reason)),
                },
            },
            NamedFiles::ReadChain { key } => match read {
                FileRead::Contents(contents) => match load_chain(extension, contents) {
                    Ok(chain) => NamedFiles::Ready { credentials: Credentials { chain, key } },
                    Err(e) => NamedFiles::Failed { error: NamedFilesError::Credential(e) },
                },
                FileRead::NotFound => NamedFiles::Failed {
                    error: NamedFilesError::ReadChain(FileProblem::NotFound),
                },
                FileRead::Failed(reason) => NamedFiles::Failed {
                    error: NamedFilesError::ReadChain(FileProblem::Failed(reason)),
                },
            },
            other => other,
        }
    }
}

/// Why the local store gives no credentials.
#[derive(Debug, PartialEq, Eq)]
pub enum StoreError {
    /// A file is there and cannot be read, for this reason.
    Read(String),
    /// No certificate could be made.
    Generate,
    /// The directory of the store could not be made.
    CreateDirectory,
    /// The certificate could not be written.
    WriteCertificate,
    /// The private key could not be written.
    WriteKey,
}

/// The content of a `StoreError`.
pub enum StoreErrorView {
    Read(Seq<char>),
    Generate,
    CreateDirectory,
    WriteCertificate,
    WriteKey,
}

impl View for StoreError {
    type V = StoreErrorView;

    open spec fn view(&self) -> StoreErrorView {
        match *self {
            StoreError::Read(reason) => StoreErrorView::Read(reason@),
            StoreError::Generate => StoreErrorView::Generate,
            StoreError::CreateDirectory => StoreErrorView::CreateDirectory,
            StoreError::WriteCertificate => StoreErrorView::WriteCertificate,
            StoreError::WriteKey => StoreErrorView::WriteKey,
        }
    }
}

impl StoreErrorView {
    /// The text of the error.
    pub open spec fn text(self) -> Seq<char> {
        match self {
            StoreErrorView::Read(reason) => "failed to read certificate: "@ + reason,
            StoreErrorView::Generate => "failed to generate certificate"@,
            StoreErrorView::CreateDirectory => "failed to create certificate directory"@,
            StoreErrorView::WriteCertificate => "failed to write certificate"@,
            StoreErrorView::WriteKey => "failed to write private key"@,
        }
    }
}

impl StoreError {
    /// The text of the error, for the user.
    pub fn message(&self) -> (r: String)
        ensures
            r@ == self@.text(),
    {
        match self {
            StoreError::Read(reason) => {
                let mut r = "failed to read certificate: ".to_owned();
                r.append(reason.as_str());
                r
            },
            StoreError::Generate => "failed to generate certificate".to_owned(),
            StoreError::CreateDirectory => "failed to create certificate directory".to_owned(),
            StoreError::WriteCertificate => "failed to write certificate".to_owned(),
            StoreError::WriteKey => "failed to write private key".to_owned(),
        }
    }
}

/// What is done next with the local store.
#[derive(Debug, PartialEq, Eq)]
pub enum LocalStore {
    /// The certificate is read.
    ReadCertificate,
    /// The private key is read.
    ReadKey { certificate: Vec<u8> },
    /// A certificate is made.
    Generate,
    /// The directory of the store is made.
    CreateDirectory { certificate: Vec<u8>, key: Vec<u8> },
    /// The certificate is written.
    WriteCertificate { certificate: Vec<u8>, key: Vec<u8> },
    /// The private key is written.
    WriteKey { certificate: Vec<u8>, key: Vec<u8> },
    /// Nothing: these are the credentials.
    Ready { certificate: Vec<u8>, key: Vec<u8> },
    /// Nothing: there are no credentials.
    Failed { error: StoreError },
}

/// The content of a `LocalStore`.
pub enum LocalStoreView {
    ReadCertificate,
    ReadKey { certificate: Seq<u8> },
    Generate,
    CreateDirectory { certificate: Seq<u8>, key: Seq<u8> },
    WriteCertificate { certificate: Seq<u8>, key: Seq<u8> },
    WriteKey { certificate: Seq<u8>, key: Seq<u8> },
    Ready { certificate: Seq<u8>, key: Seq<u8> },
    Failed { error: StoreErrorView },
}

impl View for LocalStore {
    type V = LocalStoreView;

    open spec fn view(&self) -> LocalStoreView {
        match *self {
            LocalStore::ReadCertificate => LocalStoreView::ReadCertificate,
            LocalStore::ReadKey { certificate } => LocalStoreView::ReadKey { certificate: certificate@ },
            LocalStore::Generate => LocalStoreView::Generate,
            LocalStore::CreateDirectory { certificate, key } => LocalStoreView::CreateDirectory {
                certificate: certificate@,
                key: key@,
            },
            LocalStore::WriteCertificate { certificate, key } => LocalStoreView::WriteCertificate {
                certificate: certificate@,
                key: key@,
            },
            LocalStore::WriteKey { certificate, key } => LocalStoreView::WriteKey {
                certificate: certificate@,
                key: key@,
            },
            LocalStore::Ready { certificate, key } => LocalStoreView::Ready {
                certificate: certificate@,
                key: key@,
            },
            LocalStore::Failed { error } => LocalStoreView::Failed { error: error@ },
        }
    }
}

/// The view of a certificate and key that may be missing.
pub open spec fn pair_view(pair: Option<(Vec<u8>, Vec<u8>)>) -> Option<(Seq<u8>, Seq<u8>)> {
    match pair {
        Some((certificate, key)) => Some((certificate@, key@)),
        None => None,
    }
}

impl LocalStoreView {
    /// What follows once a file has been read. A file that is missing, be it the
    /// key of a certificate that is there, leads to a new certificate.
    pub open spec fn after_read(self, read: FileReadView) -> LocalStoreView {
        match self {
            LocalStoreView::ReadCertificate => match read {
                FileReadView::Contents(certificate) => LocalStoreView::ReadKey { certificate },
                FileReadView::NotFound => LocalStoreView::Generate,
                FileReadView::Failed(reason) => LocalStoreView::Failed {
                    error: StoreErrorView::Read(reason),
                },
            },
            LocalStoreView::ReadKey { certificate } => match read {
                FileReadView::Contents(key) => LocalStoreView::Ready { certificate, key },
                FileReadView::NotFound => LocalStoreView::Generate,
                FileReadView::Failed(reason) => LocalStoreView::Failed {
                    error: StoreErrorView::Read(reason),
                },
            },
            _ => self,
        }
    }

    /// What follows once a certificate and its key have been made, or could not
    /// be made.
    pub open spec fn after_generated(self, made: Option<(Seq<u8>, Seq<u8>)>) -> LocalStoreView {
        match self {
            LocalStoreView::Generate => match made {
                Some((certificate, key)) => LocalStoreView::CreateDirectory { certificate, key },
                None => LocalStoreView::Failed { error: StoreErrorView::Generate },
            },
            _ => self,
        }
    }

    /// What follows once the directory or a file has been written, or could not
    /// be written.
    pub open spec fn after_written(self, ok: bool) -> LocalStoreView {
        match self {
            LocalStoreView::CreateDirectory { certificate, key } => if ok {
                LocalStoreView::WriteCertificate { certificate, key }
            } else {
                LocalStoreView::Failed { error: StoreErrorView::CreateDirectory }
            },
            LocalStoreView::WriteCertificate { certificate, key } => if ok {
                LocalStoreView::WriteKey { certificate, key }
            } else {
                LocalStoreView::Failed { error: StoreErrorView::WriteCertificate }
            },
            LocalStoreView::WriteKey { certificate, key } => if ok {
                LocalStoreView::Ready { certificate, key }
            } else {
                LocalStoreView::Failed { error: StoreErrorView::WriteKey }
            },
            _ => self,
        }
    }
}

/// A certificate chain and the private key of its first certificate.
#[derive(Debug, PartialEq, Eq)]
pub struct Credentials {
    pub chain: Vec<Vec<u8>>,
    pub key: Vec<u8>,
}

impl LocalStore {
    /// The first thing to do.
    pub fn open() -> (r: LocalStore)
        ensures
            r@ == LocalStoreView::ReadCertificate,
    {
        LocalStore::ReadCertificate
    }

    /// Takes in what came of reading a file.
    pub fn file_read(self, read: FileRead) -> (r: LocalStore)
        ensures
            r@ == self@.after_read(read@),
    {
        match self {
            LocalStore::ReadCertificate => match read {
                FileRead::Contents(certificate) => LocalStore::ReadKey { certificate },
                FileRead::NotFound => LocalStore::Generate,
                FileRead::Failed(reason) => LocalStore::Failed { error: StoreError::Read(reason) },
            },
            LocalStore::ReadKey { certificate } => match read {
                FileRead::Contents(key) => LocalStore::Ready { certificate, key },
                FileRead::NotFound => LocalStore::Generate,
                FileRead::Failed(reason) => LocalStore::Failed { error: StoreError::Read(reason) },
            },
            other => other,
        }
    }

    /// Takes in a certificate and its key, if they could be made.
    pub fn generated(self, made: Option<(Vec<u8>, Vec<u8>)>) -> (r: LocalStore)
        ensures
            r@ == self@.after_generated(pair_view(made)),
    {
        match self {
            LocalStore::Generate => match made {
                Some((certificate, key)) => LocalStore::CreateDirectory { certificate, key },
                None => LocalStore::Failed { error: StoreError::Generate },
            },
            other => other,
        }
    }

    /// Makes a self-signed certificate for `localhost`, where that is what is to
    /// be done. Its key is random.
    pub fn generate(self) -> (r: LocalStore)
        ensures
            exists|made: Option<(Seq<u8>, Seq<u8>)>|
                {
                    &&& r@ == #[trigger] self@.after_generated(made)
                    &&& self@ is Generate ==> (made matches Some(pair) ==> is_self_signed(
                        seq!["localhost"@],
                        pair.0,
                        pair.1,
                    ))
                },
    {
        if let LocalStore::Generate = self {
            let mut names: Vec<String> = Vec::new();
            names.push("localhost".to_owned());
            proof {
                reveal_strlit("localhost");
                assert(texts(names@) =~= seq!["localhost"@]);
            }
            let made = match self_signed(names) {
                Ok(pair) => Some(pair),
                Err(_) => None,
            };
            let r = self.generated(made);
            assert(r@ == self@.after_generated(pair_view(made)));
            r
        } else {
            assert(self@ == self@.after_generated(None));
            self
        }
    }

    /// Takes in whether the directory or a file could be written.
    pub fn written(self, ok: bool) -> (r: LocalStore)
        ensures
            r@ == self@.after_written(ok),
    {
        match self {
            LocalStore::CreateDirectory { certificate, key } => if ok {
                LocalStore::WriteCertificate { certificate, key }
            } else {
                LocalStore::Failed { error: StoreError::CreateDirectory }
            },
            LocalStore::WriteCertificate { certificate, key } => if ok {
                LocalStore::WriteKey { certificate, key }
            } else {
                LocalStore::Failed { error: StoreError::WriteCertificate }
            },
            LocalStore::WriteKey { certificate, key } => if ok {
                LocalStore::Ready { certificate, key }
            } else {
                LocalStore::Failed { error: StoreError::WriteKey }
            },
            other => other,
        }
    }

    /// The credentials, once they are ready: a chain of one certificate.
    pub fn credentials(self) -> (r: Option<Credentials>)
        ensures
            match r {
                Some(c) => byte_strings(c.chain@).len() == 1 && self@ == (LocalStoreView::Ready {
                    certificate: byte_strings(c.chain@)[0],
                    key: c.key@,
                }),
                None => !(self@ is Ready),
            },
    {
        match self {
            LocalStore::Ready { certificate, key } => {
                let mut chain: Vec<Vec<u8>> = Vec::new();
                chain.push(certificate);
                Some(Credentials { chain, key })
            },
            _ => None,
        }
    }
}

/// Two named files give the credentials that they hold. The first thing that is
/// wrong with the key file is reported before anything that is wrong with the
/// certificate file.
pub proof fn named_files_are_served(
    key_extension: Option<Seq<char>>,
    key_file: Seq<u8>,
    chain_extension: Option<Seq<char>>,
    chain_file: FileReadView,
)
    ensures
        NamedFilesView::ReadKey.after_read(key_extension, FileReadView::Contents(key_file)).after_read(
            chain_extension,
            chain_file,
        ) == (match key_in(key_extension, key_file) {
            Err(e) => NamedFilesView::Failed { error: NamedFilesErrorView::Credential(e) },
            Ok(key) => match chain_file {
                FileReadView::NotFound => NamedFilesView::Failed {
                    error: NamedFilesErrorView::ReadChain(FileProblemView::NotFound),
                },
                FileReadView::Failed(reason) => NamedFilesView::Failed {
                    error: NamedFilesErrorView::ReadChain(FileProblemView::Failed(reason)),
                },
                FileReadView::Contents(contents) => match chain_in(chain_extension, contents) {
                    Ok(chain) => NamedFilesView::Ready { chain, key },
                    Err(e) => NamedFilesView::Failed { error: NamedFilesErrorView::Credential(e) },
                },
            },
        }),
{
}

/// A key file that cannot be read is reported, whatever the certificate file
/// holds.
pub proof fn unread_key_serves_nothing(
    key_extension: Option<Seq<char>>,
    key_file: FileReadView,
    chain_extension: Option<Seq<char>>,
    chain_file: FileReadView,
)
    requires
        !(key_file is Contents),
    ensures
        NamedFilesView::ReadKey.after_read(key_extension, key_file).after_read(chain_extension, chain_file) matches
            NamedFilesView::Failed { error: NamedFilesErrorView::ReadKey(_) },
{
}

/// A store in which a file is missing is filled with what was made, and what was
/// made is served.
pub proof fn new_credentials_are_served(reading: LocalStoreView, certificate: Seq<u8>, key: Seq<u8>)
    requires
        reading is ReadCertificate || reading is ReadKey,
    ensures
        reading.after_read(FileReadView::NotFound).after_generated(
            Some((certificate, key)),
        ).after_written(true).after_written(true).after_written(true) == (LocalStoreView::Ready {
            certificate,
            key,
        }),
{
}

/// What one run has written, the next run reads back and serves.
pub proof fn written_credentials_are_served_again(before: LocalStoreView, certificate: Seq<u8>, key: Seq<u8>)
    requires
        before == (LocalStoreView::WriteKey { certificate, key }),
    ensures
        LocalStoreView::ReadCertificate.after_read(FileReadView::Contents(certificate)).after_read(
            FileReadView::Contents(key),
        ) == before.after_written(true),
{
}

/// Where a write fails, there are no credentials, whatever follows.
pub proof fn failed_write_serves_nothing(
    before: LocalStoreView,
    read: FileReadView,
    made: Option<(Seq<u8>, Seq<u8>)>,
    ok: bool,
)
    requires
        before is CreateDirectory || before is WriteCertificate || before is WriteKey,
    ensures
        before.after_written(false) is Failed,
        outcome_is_final(before.after_written(false), read, made, ok),
{
}

/// No event changes the store.
pub open spec fn outcome_is_final(
    store: LocalStoreView,
    read: FileReadView,
    made: Option<(Seq<u8>, Seq<u8>)>,
    ok: bool,
) -> bool {
    &&& store.after_read(read) == store
    &&& store.after_generated(made) == store
    &&& store.after_written(ok) == store
}

/// Credentials that are ready, and a failure, are final.
pub proof fn outcomes_are_final(
    store: LocalStoreView,
    read: FileReadView,
    made: Option<(Seq<u8>, Seq<u8>)>,
    ok: bool,
)
    requires
        store is Ready || store is Failed,
    ensures
        outcome_is_final(store, read, made, ok),
{
}

} // verus!
