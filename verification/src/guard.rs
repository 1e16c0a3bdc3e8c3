//! The guard that authenticates one request.
//!
//! A request claims a name and a secret. The guard takes the two, is handed what
//! the credential store holds under that name, verifies the secret against the
//! stored hash and yields the principal or a typed failure. It changes nothing.

use vstd::prelude::*;
use crate::permission::Permission;
use crate::secret::{bcrypt_verdict, verify_secret, Verdict};

verus! {

/// Length of a principal's identifier in bytes.
pub const ID_LEN: usize = 12;

/// Why a request was not authenticated.
#[derive(Clone, Copy, Debug, PartialEq, Eq, Structural)]
pub enum AuthError {
    /// The request names no principal.
    MissingIdentity,
    /// The request carries no secret.
    MissingSecret,
    /// The credential store could not be asked.
    BackendUnavailable,
    /// The store holds no principal of that name.
    UnknownPrincipal,
    /// The verification of the secret failed by itself.
    VerificationError,
    /// The secret is not the principal's.
    InvalidSecret,
}

/// How a failure is shown to the caller of the service.
#[derive(Clone, Copy, Debug, PartialEq, Eq, Structural)]
pub enum FailureClass {
    /// The request is malformed.
    BadInput,
    /// The credentials were not accepted.
    Unauthenticated,
    /// The service failed.
    ServerFault,
}

impl FailureClass {
    /// The status code of the class.
    pub open spec fn code(self) -> int {
        match self {
            FailureClass::BadInput => 400,
            FailureClass::Unauthenticated => 401,
            FailureClass::ServerFault => 500,
        }
    }

    /// The status code of the class.
    pub fn status(self) -> (code: u16)
        ensures
            code == self.code(),
    {
        match self {
            FailureClass::BadInput => 400,
            FailureClass::Unauthenticated => 401,
            FailureClass::ServerFault => 500,
        }
    }
}

impl AuthError {
    /// The class under which the failure is shown.
    pub open spec fn shown_as(self) -> FailureClass {
        match self {
            AuthError::MissingIdentity => FailureClass::BadInput,
            AuthError::MissingSecret => FailureClass::BadInput,
            AuthError::UnknownPrincipal => FailureClass::Unauthenticated,
            AuthError::InvalidSecret => FailureClass::Unauthenticated,
            AuthError::BackendUnavailable => FailureClass::ServerFault,
            AuthError::VerificationError => FailureClass::ServerFault,
        }
    }

    /// The text with which the failure is shown.
    pub open spec fn shown_text(self) -> Seq<char> {
        match self {
            AuthError::MissingIdentity => "No name given."@,
            AuthError::MissingSecret => "No password given."@,
            AuthError::UnknownPrincipal => "Wrong name or password."@,
            AuthError::InvalidSecret => "Wrong name or password."@,
            AuthError::BackendUnavailable => "Database error whilst trying to find."@,
            AuthError::VerificationError => "Bcrypt error whilst trying to verify user."@,
        }
    }

    /// The class under which the failure is shown.
    pub fn class(&self) -> (class: FailureClass)
        ensures
            class == self.shown_as(),
    {
        match self {
            AuthError::MissingIdentity => FailureClass::BadInput,
            AuthError::MissingSecret => FailureClass::BadInput,
            AuthError::UnknownPrincipal => FailureClass::Unauthenticated,
            AuthError::InvalidSecret => FailureClass::Unauthenticated,
            AuthError::BackendUnavailable => FailureClass::ServerFault,
            AuthError::VerificationError => FailureClass::ServerFault,
        }
    }

    /// The status code under which the failure is shown.
    pub fn status(&self) -> (code: u16)
        ensures
            code == self.shown_as().code(),
    {
        self.class().status()
    }

    /// The text with which the failure is shown. An unknown name and a wrong
    /// secret read the same.
    pub fn message(&self) -> (text: &'static str)
        ensures
            text@ == self.shown_text(),
    {
        match self {
            AuthError::MissingIdentity => "No name given.",
            AuthError::MissingSecret => "No password given.",
            AuthError::UnknownPrincipal => "Wrong name or password.",
            AuthError::InvalidSecret => "Wrong name or password.",
            AuthError::BackendUnavailable => "Database error whilst trying to find.",
            AuthError::VerificationError => "Bcrypt error whilst trying to verify user.",
        }
    }
}

/// The name and the secret that a request claims.
#[derive(Clone, Debug, PartialEq, Eq)]
pub struct Credentials {
    pub name: String,
    pub secret: String,
}

/// An actor known to the service.
#[derive(Clone, Debug, PartialEq, Eq)]
pub struct Principal {
    /// Identifier given by the store when the principal was created.
    pub id: [u8; ID_LEN],
    /// Unique handle; upper and lower case differ.
    pub name: String,
    /// Hash of the principal's secret.
    pub secret_hash: String,
    /// What the principal may do.
    pub permissions: Permission,
}

/// What the credential store answered to the question for a name.
#[derive(Clone, Debug, PartialEq, Eq)]
pub enum Lookup {
    /// The principal stored under the name.
    Found(Principal),
    /// No principal has the name.
    Absent,
    /// The store failed.
    Unavailable,
}

impl Credentials {
    /// What `extract` returns: the name is looked at first, then the secret.
    pub open spec fn extracted(name: Option<String>, secret: Option<String>) -> Result<
        Credentials,
        AuthError,
    > {
        match name {
            None => Err(AuthError::MissingIdentity),
            Some(n) => match secret {
                None => Err(AuthError::MissingSecret),
                Some(s) => Ok(Credentials { name: n, secret: s }),
            },
        }
    }

    /// Takes the claimed name and secret from the fields of a request. An empty
    /// string is a value like any other; only an absent field is missing.
    pub fn extract(name: Option<String>, secret: Option<String>) -> (r: Result<
        Credentials,
        AuthError,
    >)
        ensures
            r == Credentials::extracted(name, secret),
            name is None ==> r == Err::<Credentials, AuthError>(AuthError::MissingIdentity),
            name is Some && secret is None ==> r == Err::<Credentials, AuthError>(
                AuthError::MissingSecret,
            ),
            r is Ok <==> name is Some && secret is Some,
    {
        match name {
            None => Err(AuthError::MissingIdentity),
            Some(n) => match secret {
                None => Err(AuthError::MissingSecret),
                Some(s) => Ok(Credentials { name: n, secret: s }),
            },
        }
    }
}

/// What the guard decides once the store has answered and, for a principal that
/// was found, the secret has been held against the stored hash.
pub open spec fn decision(lookup: Lookup, verdict: Verdict) -> Result<Principal, AuthError> {
    match lookup {
        Lookup::Unavailable => Err(AuthError::BackendUnavailable),
        Lookup::Absent => Err(AuthError::UnknownPrincipal),
        Lookup::Found(principal) => match verdict {
            Verdict::Malformed => Err(AuthError::VerificationError),
            Verdict::Mismatch => Err(AuthError::InvalidSecret),
            Verdict::Match => Ok(principal),
        },
    }
}

/// The verdict on the secret of `credentials` against what the store answered.
/// Where no principal was found there is no hash to hold it against, and the
/// verdict plays no part in the decision.
pub open spec fn verdict_on(credentials: Credentials, lookup: Lookup) -> Verdict {
    match lookup {
        Lookup::Found(principal) => Verdict::of(
            bcrypt_verdict(credentials.secret@, principal.secret_hash@),
        ),
        _ => Verdict::Malformed,
    }
}

/// Closes the authentication of a principal that the store returned, given the
/// verdict on the claimed secret.
pub fn conclude(principal: Principal, verdict: Verdict) -> (r: Result<Principal, AuthError>)
    ensures
        r == decision(Lookup::Found(principal), verdict),
        r is Ok <==> verdict == Verdict::Match,
{
    match verdict {
        Verdict::Malformed => Err(AuthError::VerificationError),
        Verdict::Mismatch => Err(AuthError::InvalidSecret),
        Verdict::Match => Ok(principal),
    }
}

/// Authenticates a request whose credentials were extracted, given what the
/// store answered for the claimed name. The principal is returned exactly when
/// it was found and its stored hash accepts the secret.
pub fn authorize(credentials: &Credentials, lookup: Lookup) -> (r: Result<Principal, AuthError>)
    ensures
        r == decision(lookup, verdict_on(*credentials, lookup)),
        lookup is Unavailable ==> r == Err::<Principal, AuthError>(AuthError::BackendUnavailable),
        lookup is Absent ==> r == Err::<Principal, AuthError>(AuthError::UnknownPrincipal),
{
    match lookup {
        Lookup::Unavailable => Err(AuthError::BackendUnavailable),
        Lookup::Absent => Err(AuthError::UnknownPrincipal),
        Lookup::Found(principal) => {
            let verdict = verify_secret(credentials.secret.as_str(), principal.secret_hash.as_str());
            conclude(principal, verdict)
        },
    }
}

/// A request without a name fails as one without identity, whether or not it
/// carries a secret; a request with a name and without a secret fails as one
/// without secret.
pub proof fn law_missing_fields(name: Option<String>, secret: Option<String>)
    ensures
        name is None ==> Credentials::extracted(name, secret) == Err::<Credentials, AuthError>(
            AuthError::MissingIdentity,
        ),
        name is Some && secret is None ==> Credentials::extracted(name, secret) == Err::<
            Credentials,
            AuthError,
        >(AuthError::MissingSecret),
{
}

/// A name that the store does not hold and a wrong secret for a name that it
/// holds fail alike to the outside: the two requests are refused with failures
/// of one class, one status code and one text.
pub proof fn law_no_enumeration(unknown: Credentials, known: Credentials, principal: Principal)
    requires
        verdict_on(known, Lookup::Found(principal)) == Verdict::Mismatch,
    ensures
        ({
            let absent = decision(Lookup::Absent, verdict_on(unknown, Lookup::Absent));
            let wrong = decision(
                Lookup::Found(principal),
                verdict_on(known, Lookup::Found(principal)),
            );
            &&& absent is Err
            &&& wrong is Err
            &&& absent.unwrap_err().shown_as() == wrong.unwrap_err().shown_as()
            &&& absent.unwrap_err().shown_as().code() == wrong.unwrap_err().shown_as().code()
            &&& absent.unwrap_err().shown_text() == wrong.unwrap_err().shown_text()
        }),
{
}

} // verus!
