//! Authentication and authorization data structures, and a permissive stub
//! authenticator that grants a fixed identity to every request.

use crate::context::Push;
use crate::xspan::lookup_header;
use crate::xspan::readable_header;
use core::marker::PhantomData;
use vstd::prelude::*;

verus! {

/// Declares headers' `Basic` credentials so that [`AuthData`] can hold them;
/// opaque here.
#[verifier::external_type_specification]
#[verifier::external_body]
pub struct ExBasic(headers::authorization::Basic);

/// Declares headers' `Bearer` credentials so that [`AuthData`] can hold
/// them; opaque here.
#[verifier::external_type_specification]
#[verifier::external_body]
pub struct ExBearer(headers::authorization::Bearer);

/// Relies on the derived `Clone` of headers' `Basic`; the credential value is
/// opaque here, so nothing is assumed of the copy.
pub assume_specification[ <headers::authorization::Basic as Clone>::clone ](
    b: &headers::authorization::Basic,
) -> headers::authorization::Basic;

/// Relies on the derived `Clone` of headers' `Bearer`; the credential value
/// is opaque here, so nothing is assumed of the copy.
pub assume_specification[ <headers::authorization::Bearer as Clone>::clone ](
    b: &headers::authorization::Bearer,
) -> headers::authorization::Bearer;

/// Authorization scopes.
#[derive(Clone, Debug, PartialEq)]
pub enum Scopes {
    /// An explicit set of scopes, each named once.
    Listed(Vec<String>),
    /// All possible scopes, authorization checking disabled.
    All,
}

impl Scopes {
    /// An explicit scope list is well formed when no name repeats.
    pub open spec fn well_formed(&self) -> bool {
        match *self {
            Scopes::Listed(ref names) => forall|i: int, j: int|
                0 <= i < j < names@.len() ==> names@[i]@ != names@[j]@,
            Scopes::All => true,
        }
    }
}

/// Storage of authorization parameters for an incoming request, used for
/// REST API authorization.
#[derive(Clone, Debug, PartialEq)]
pub struct Authorization {
    /// Subject for which authorization is granted
    /// (i.e., what may be accessed).
    pub subject: String,
    /// Scopes for which authorization is granted
    /// (i.e., what types of access are permitted).
    pub scopes: Scopes,
    /// Identity of the party to whom authorization was granted, if available
    /// (i.e., who is responsible for the access).
    pub issuer: Option<String>,
}

/// The record that the stub authenticator grants: the configured subject, all
/// scopes, and no issuer.
pub open spec fn granted_record(record: Authorization, subject: Seq<char>) -> bool {
    &&& record.subject@ == subject
    &&& record.scopes == Scopes::All
    &&& record.issuer is None
}

/// Storage of raw authentication data, used both for storing incoming
/// request authentication, and for authenticating outgoing client requests.
#[derive(Clone, Debug, PartialEq)]
pub enum AuthData {
    /// Http Basic authentication data.
    Basic(headers::authorization::Basic),
    /// Http Bearer authentication data.
    Bearer(headers::authorization::Bearer),
    /// API key authentication data.
    ApiKey(String),
}

/// Relies on headers' `Authorization::basic`, which builds Basic credentials
/// out of any username and password and never fails.
#[verifier::external_body]
fn make_basic(username: &str, password: &str) -> headers::authorization::Basic {
    headers::authorization::Authorization::basic(username, password).0
}

/// Relies on headers' `Authorization::bearer`, which fails exactly when some
/// byte of `Bearer {token}` is a control byte: below space (tab excepted) or
/// DEL. Every character this function's requires admits — tab, or at least
/// space and not DEL — encodes only as legal bytes (a character above DEL
/// encodes as bytes of 0x80 and above), so the call returns credentials.
#[verifier::external_body]
fn make_bearer(token: &str) -> headers::authorization::Bearer
    requires
        forall|i: int|
            0 <= i < token@.len() ==> (token@[i] == '\t' || ' ' <= token@[i]) && token@[i]
                != '\u{7f}',
{
    headers::authorization::Authorization::bearer(token).unwrap().0
}

impl AuthData {
    /// Set basic auth.
    pub fn basic(username: &str, password: &str) -> (r: Self)
        ensures
            r is Basic,
    {
        AuthData::Basic(make_basic(username, password))
    }

    /// Set bearer auth. The token must hold no control character (below
    /// space, tab excepted) and no DEL: on such a token the original call
    /// panics, so it is left out here.
    pub fn bearer(token: &str) -> (r: Self)
        requires
            forall|i: int|
                0 <= i < token@.len() ==> (token@[i] == '\t' || ' ' <= token@[i]) && token@[i]
                    != '\u{7f}',
        ensures
            r is Bearer,
    {
        AuthData::Bearer(make_bearer(token))
    }

    /// Set ApiKey authentication.
    pub fn apikey(apikey: &str) -> (r: Self)
        ensures
            r matches AuthData::ApiKey(k) && k@ == apikey@,
    {
        AuthData::ApiKey(apikey.to_owned())
    }
}

/// Bound for the request context of the stub authenticator's wrappers: a
/// container that accepts an optional authorization frame.
pub trait RcBound: Push<Option<Authorization>> + Send + 'static {

}

impl<T> RcBound for T where T: Push<Option<Authorization>> + Send + 'static {

}

/// Dummy authenticator factory, that produces services blindly inserting
/// authorization data, allowing all access to an endpoint with the specified
/// subject.
#[derive(Debug)]
pub struct MakeAllowAllAuthenticator<Inner, RC>
where RC: RcBound {
    /// The wrapped inner factory.
    pub inner: Inner,
    /// The subject granted to every request.
    pub subject: String,
    /// Carries the context type the produced services work on.
    pub marker: PhantomData<RC>,
}

impl<Inner, RC> MakeAllowAllAuthenticator<Inner, RC> where RC: RcBound {
    /// Create a middleware factory that authorizes with the configured subject.
    pub fn new(inner: Inner, subject: &str) -> (r: Self)
        ensures
            r.inner == inner,
            r.subject@ == subject@,
    {
        MakeAllowAllAuthenticator { inner, subject: subject.to_owned(), marker: PhantomData }
    }

    /// The factory step applied to what the inner factory produced: a
    /// produced inner service is wrapped in the request-level middleware with
    /// this factory's subject, and an inner error is propagated unchanged.
    pub fn wrap<S, E>(&self, produced: Result<S, E>) -> (r: Result<
        AllowAllAuthenticator<S, RC>,
        E,
    >)
        ensures
            match produced {
                Ok(s) => r matches Ok(w) && w.inner == s && w.subject@ == self.subject@,
                Err(e) => r matches Err(e2) && e2 == e,
            },
    {
        match produced {
            Ok(s) => Ok(AllowAllAuthenticator::new(s, self.subject.as_str())),
            Err(e) => Err(e),
        }
    }
}

/// Dummy authenticator, that blindly inserts authorization data, allowing all
/// access to an endpoint with the specified subject.
#[derive(Debug)]
pub struct AllowAllAuthenticator<Inner, RC>
where RC: RcBound {
    /// The wrapped inner service.
    pub inner: Inner,
    /// The subject granted to every request.
    pub subject: String,
    /// Carries the context type this service works on.
    pub marker: PhantomData<RC>,
}

impl<Inner, RC> Clone for AllowAllAuthenticator<Inner, RC> where
    Inner: Clone,
    RC: RcBound,
 {
    fn clone(&self) -> (r: Self)
        ensures
            r.subject@ == self.subject@,
            cloned(self.inner, r.inner),
    {
        AllowAllAuthenticator {
            inner: self.inner.clone(),
            subject: self.subject.clone(),
            marker: PhantomData,
        }
    }
}

impl<Inner, RC> AllowAllAuthenticator<Inner, RC> where RC: RcBound {
    /// Create a middleware that authorizes with the configured subject.
    pub fn new(inner: Inner, subject: &str) -> (r: Self)
        ensures
            r.inner == inner,
            r.subject@ == subject@,
    {
        AllowAllAuthenticator { inner, subject: subject.to_owned(), marker: PhantomData }
    }

    /// The request-level step of the stub authenticator: unconditionally push
    /// onto the context an authorization record granting this service's
    /// subject all scopes with no issuer. The request itself is never
    /// inspected, and this step never fails.
    pub fn authorize(&self, context: RC) -> (r: <RC as Push<Option<Authorization>>>::Result)
        ensures
            exists|record: Authorization|
                granted_record(record, self.subject@) && r == #[trigger] context.pushed(
                    Option::Some(record),
                ),
    {
        let record = Authorization {
            subject: self.subject.clone(),
            scopes: Scopes::All,
            issuer: Option::None,
        };
        context.push(Option::Some(record))
    }
}

/// Retrieve an API key from a header. The key is the first value under the
/// given header name, when that value reads as a string.
pub fn api_key_from_header(headers: &hyper::HeaderMap, header: &str) -> (r: Option<String>)
    ensures
        match (r, readable_header(*headers, header@)) {
            (Option::Some(s), Option::Some(v)) => s@ == v,
            (Option::None, Option::None) => true,
            _ => false,
        },
{
    lookup_header(headers, header)
}

} // verus!
