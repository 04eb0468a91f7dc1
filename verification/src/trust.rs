//! The certificates that a client trusts.
use vstd::prelude::*;

use crate::credentials::{FileProblem, FileProblemView, FileRead, FileReadView};

verus! {

/// `rustls::RootCertStore`: a list of trust anchors.
#[verifier::external_type_specification]
#[verifier::external_body]
pub struct ExRootCertStore(rustls::RootCertStore);

/// `rustls::Error`: why a certificate or a key is refused. It is only passed on.
#[verifier::external_type_specification]
#[verifier::external_body]
pub struct ExRustlsError(rustls::Error);

/// The trust anchor in a DER certificate: its subject, its public key and its
/// name constraints. `None` where the bytes are no certificate.
pub uninterp spec fn trust_anchor(der: Seq<u8>) -> Option<(Seq<u8>, Seq<u8>, Option<Seq<u8>>)>;

/// The trust anchors in a store, in the order in which they were added.
pub uninterp spec fn trust_anchors(store: rustls::RootCertStore) -> Seq<
    (Seq<u8>, Seq<u8>, Option<Seq<u8>>),
>;

/// `rustls::RootCertStore::empty`: a store without trust anchors.
#[verifier::external_body]
fn empty_store() -> (r: rustls::RootCertStore)
    ensures
        trust_anchors(r) == Seq::<(Seq<u8>, Seq<u8>, Option<Seq<u8>>)>::empty(),
{
    rustls::RootCertStore::empty()
}

/// `rustls::RootCertStore::add`: adds the trust anchor in a DER certificate
/// behind those that are there. Bytes that are no certificate are an error, and
/// leave the store as it was.
#[verifier::external_body]
fn add_certificate(store: &mut rustls::RootCertStore, der: Vec<u8>) -> (r: Result<(), rustls::Error>)
    ensures
        match trust_anchor(der@) {
            Some(anchor) => r is Ok && trust_anchors(*final(store)) == trust_anchors(*old(store)).push(anchor),
            None => r is Err && trust_anchors(*final(store)) == trust_anchors(*old(store)),
        },
{
    store.add(&rustls::Certificate(der))
}

/// Why there is no store of trusted certificates.
#[derive(Debug, PartialEq, Eq)]
pub enum TrustError {
    /// The certificate that the user names cannot be read.
    CannotRead(FileProblem),
    /// The file holds no certificate.
    BadCertificate,
}

/// The content of a `TrustError`.
pub enum TrustErrorView {
    CannotRead(FileProblemView),
    BadCertificate,
}

impl View for TrustError {
    type V = TrustErrorView;

    open spec fn view(&self) -> TrustErrorView {
        match *self {
            TrustError::CannotRead(problem) => TrustErrorView::CannotRead(problem@),
            TrustError::BadCertificate => TrustErrorView::BadCertificate,
        }
    }
}

/// Where the trusted certificate comes from. `P` is a path.
#[derive(Debug, PartialEq, Eq)]
pub enum TrustSource<P> {
    /// From the file that the user names.
    File(P),
    /// From the local store.
    Local,
}

/// Where the trusted certificate comes from, given the file that the user names.
pub fn trust_source<P>(trusted_ca: Option<P>) -> (r: TrustSource<P>)
    ensures
        r == (match trusted_ca {
            Some(path) => TrustSource::File(path),
            None => TrustSource::Local,
        }),
{
    match trusted_ca {
        Some(path) => TrustSource::File(path),
        None => TrustSource::Local,
    }
}

/// What a client trusts, given what came of reading the certificate. Without a
/// certificate in the local store nothing is trusted; one that the user names
/// has to be there. In either case the file has to hold a certificate.
pub open spec fn trusted(named: bool, read: FileReadView) -> Result<
    Seq<(Seq<u8>, Seq<u8>, Option<Seq<u8>>)>,
    TrustErrorView,
> {
    match read {
        FileReadView::Contents(der) => match trust_anchor(der) {
            Some(anchor) => Ok(seq![anchor]),
            None => Err(TrustErrorView::BadCertificate),
        },
        FileReadView::NotFound => if named {
            Err(TrustErrorView::CannotRead(FileProblemView::NotFound))
        } else {
            Ok(Seq::empty())
        },
        FileReadView::Failed(reason) => if named {
            Err(TrustErrorView::CannotRead(FileProblemView::Failed(reason)))
        } else {
            Ok(Seq::empty())
        },
    }
}

/// The store of trusted certificates, given whether the user has named the
/// certificate and what came of reading it.
pub fn trusted_roots(named: bool, read: FileRead) -> (r: Result<rustls::RootCertStore, TrustError>)
    ensures
        match r {
            Ok(store) => trusted(named, read@) == Ok::<
                Seq<(Seq<u8>, Seq<u8>, Option<Seq<u8>>)>,
                TrustErrorView,
            >(trust_anchors(store)),
            Err(e) => trusted(named, read@) == Err::<
                Seq<(Seq<u8>, Seq<u8>, Option<Seq<u8>>)>,
                TrustErrorView,
            >(e@),
        },
{
    let mut roots = empty_store();
    match read {
        FileRead::Contents(der) => match add_certificate(&mut roots, der) {
            Ok(_) => {
                assert(trust_anchors(roots) =~= seq![trust_anchor(der@)->0]);
                Ok(roots)
            },
            Err(_) => Err(TrustError::BadCertificate),
        },
        FileRead::NotFound => if named {
            Err(TrustError::CannotRead(FileProblem::NotFound))
        } else {
            Ok(roots)
        },
        FileRead::Failed(reason) => if named {
            Err(TrustError::CannotRead(FileProblem::Failed(reason)))
        } else {
            Ok(roots)
        },
    }
}

/// A client trusts at most one certificate, and the one that it reads.
pub proof fn only_the_certificate_read_is_trusted(named: bool, read: FileReadView)
    ensures
        trusted(named, read) matches Ok(anchors) ==> forall|i: int|
            0 <= i < anchors.len() ==> (read matches FileReadView::Contents(der) && trust_anchor(der) == Some(
                #[trigger] anchors[i],
            )),
{
}

} // verus!
