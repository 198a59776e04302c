//! The authentication guard: the decisions taken for each request before its
//! handler runs. The guard reads the `Authorization` header, has the user
//! looked up once, and then rejects the request, or forwards it with or
//! without a principal.

use vstd::prelude::*;

use crate::credentials::{extract_identifier_and_password, parse_spec};
use crate::password::{
    bcrypt_verdict, verification_spec, verify_credentials, StoreFailure, StoredUser, Verification, VerifyError,
};

verus! {

/// Whether a request without credentials is turned away or let through.
#[derive(Clone, Copy, Debug, PartialEq, Eq, Structural)]
pub enum GuardMode {
    Required,
    Optional,
}

/// The `Authorization` header of a request, as the guard sees it.
#[derive(Clone, Debug)]
pub enum AuthHeader {
    /// The request has no such header.
    Absent,
    /// The header is there but is not visible ASCII text.
    Unreadable,
    /// The header's text.
    Value(String),
}

/// Why the guard turned a request away.
#[derive(Clone, Copy, Debug, PartialEq, Eq, Structural)]
pub enum GuardRejection {
    /// No header where one is required.
    MissingHeader,
    /// The header is not well-formed Basic credentials.
    MalformedHeader,
    /// No user has the given name.
    UnknownUser,
    /// The store or the hash engine failed.
    Internal,
}

impl GuardRejection {
    pub open spec fn spec_status(self) -> u16 {
        match self {
            GuardRejection::MissingHeader => 401,
            GuardRejection::MalformedHeader => 400,
            GuardRejection::UnknownUser => 404,
            GuardRejection::Internal => 500,
        }
    }

    /// The HTTP status code of the response.
    pub fn status(&self) -> (r: u16)
        ensures
            r == self.spec_status(),
    {
        match self {
            GuardRejection::MissingHeader => 401,
            GuardRejection::MalformedHeader => 400,
            GuardRejection::UnknownUser => 404,
            GuardRejection::Internal => 500,
        }
    }

    /// The short text of the error body; it holds no internal detail.
    pub fn message(&self) -> (r: &'static str)
        ensures
            *self == GuardRejection::MissingHeader ==> r@ == "supply an authorization header"@,
            *self == GuardRejection::MalformedHeader ==> r@ == "bad request"@,
            *self == GuardRejection::UnknownUser ==> r@ == "resource not found"@,
            *self == GuardRejection::Internal ==> r@ == "internal server error"@,
    {
        match self {
            GuardRejection::MissingHeader => "supply an authorization header",
            GuardRejection::MalformedHeader => "bad request",
            GuardRejection::UnknownUser => "resource not found",
            GuardRejection::Internal => "internal server error",
        }
    }

    /// The `WWW-Authenticate` challenge that goes with the response, if any.
    pub fn challenge(&self) -> (r: Option<&'static str>)
        ensures
            r is Some <==> *self == GuardRejection::MissingHeader,
            r matches Some(c) ==> c@ == "Basic"@,
    {
        match self {
            GuardRejection::MissingHeader => Some("Basic"),
            _ => None,
        }
    }
}

/// An identifier and a secret read from a header.
#[derive(Clone, Debug)]
pub struct Credentials {
    pub identifier: String,
    pub secret: String,
}

/// What the guard does once it has read the header.
#[derive(Clone, Debug)]
pub enum HeaderStep {
    /// Respond with the rejection; the handler does not run.
    Reject(GuardRejection),
    /// Run the handler with no principal.
    ForwardAnonymous,
    /// Look the identifier up in the user store, then verify the secret.
    Verify(Credentials),
}

/// How the guard ends for a request.
#[derive(Clone, Copy, Debug, PartialEq, Eq, Structural)]
pub enum GuardOutcome {
    /// Respond with the rejection; the handler does not run.
    Reject(GuardRejection),
    /// Run the handler, with the principal where there is one.
    Forward(Option<i64>),
}

/// How the guard ends after a verification.
pub open spec fn outcome_of_verification(v: Result<Verification, VerifyError>) -> GuardOutcome {
    match v {
        Err(_) => GuardOutcome::Reject(GuardRejection::Internal),
        Ok(Verification::UnknownUser) => GuardOutcome::Reject(GuardRejection::UnknownUser),
        Ok(Verification::WrongPassword) => GuardOutcome::Forward(None),
        Ok(Verification::Matched(id)) => GuardOutcome::Forward(Some(id)),
    }
}

/// The authentication guard, in one of its two modes.
#[derive(Clone, Copy, Debug, PartialEq, Eq, Structural)]
pub struct Auth {
    pub mode: GuardMode,
}

impl Auth {
    /// A guard that rejects requests without credentials.
    pub fn required() -> (r: Auth)
        ensures
            r.mode == GuardMode::Required,
    {
        Auth { mode: GuardMode::Required }
    }

    /// A guard that lets requests without credentials through anonymously.
    pub fn optional() -> (r: Auth)
        ensures
            r.mode == GuardMode::Optional,
    {
        Auth { mode: GuardMode::Optional }
    }

    /// The guard's first decision, on the `Authorization` header. A missing
    /// header is rejected with 401 in required mode and let through in
    /// optional mode; a header that does not parse is rejected with 400 in
    /// both modes; parsed credentials go on to verification.
    pub fn on_header(&self, header: &AuthHeader) -> (r: HeaderStep)
        ensures
            match *header {
                AuthHeader::Absent => if self.mode == GuardMode::Required {
                    r == HeaderStep::Reject(GuardRejection::MissingHeader)
                } else {
                    r == HeaderStep::ForwardAnonymous
                },
                AuthHeader::Unreadable => r == HeaderStep::Reject(GuardRejection::MalformedHeader),
                AuthHeader::Value(text) => match parse_spec(text@) {
                    None => r == HeaderStep::Reject(GuardRejection::MalformedHeader),
                    Some((id, secret)) => r matches HeaderStep::Verify(c) && c.identifier@ == id
                        && c.secret@ == secret,
                },
            },
    {
        match header {
            AuthHeader::Absent => match self.mode {
                GuardMode::Required => HeaderStep::Reject(GuardRejection::MissingHeader),
                GuardMode::Optional => HeaderStep::ForwardAnonymous,
            },
            AuthHeader::Unreadable => HeaderStep::Reject(GuardRejection::MalformedHeader),
            AuthHeader::Value(text) => {
                let parsed = extract_identifier_and_password(text.as_str());
                match parsed {
                    None => HeaderStep::Reject(GuardRejection::MalformedHeader),
                    Some((identifier, secret)) => {
                        HeaderStep::Verify(Credentials { identifier, secret })
                    },
                }
            },
        }
    }

    /// The guard's last decision, on the outcome of verification. A store or
    /// hash failure is rejected with 500 and an unknown user with 404; a wrong
    /// secret forwards the request with no principal; a matching secret
    /// forwards it with the user's id as principal.
    pub fn on_verification(&self, verification: Result<Verification, VerifyError>) -> (r: GuardOutcome)
        ensures
            r == outcome_of_verification(verification),
    {
        match verification {
            Err(_) => GuardOutcome::Reject(GuardRejection::Internal),
            Ok(Verification::UnknownUser) => GuardOutcome::Reject(GuardRejection::UnknownUser),
            Ok(Verification::WrongPassword) => GuardOutcome::Forward(None),
            Ok(Verification::Matched(id)) => GuardOutcome::Forward(Some(id)),
        }
    }

    /// Verifies `secret` for what the store returned for the identifier, and
    /// decides how the guard ends.
    pub fn on_user_lookup(
        &self,
        secret: &str,
        lookup: Result<Option<StoredUser>, StoreFailure>,
    ) -> (r: GuardOutcome)
        ensures
            r == outcome_of_verification(verification_spec(secret@, lookup)),
    {
        let verification = verify_credentials(secret, lookup);
        self.on_verification(verification)
    }
}

/// A request goes on with a principal only where the store returned a user
/// whose hash accepts the secret, and the principal is that user's id. A user
/// whose hash rejects the secret goes on without a principal.
pub proof fn lemma_principal_is_verified_user(
    secret: Seq<char>,
    lookup: Result<Option<StoredUser>, StoreFailure>,
)
    ensures
        outcome_of_verification(verification_spec(secret, lookup)) matches GuardOutcome::Forward(
            Some(id),
        ) ==> (lookup matches Ok(Some(u)) && u.id == id && bcrypt_verdict(secret, u.password_hash@)
            == Some(true)),
        (lookup matches Ok(Some(u)) && bcrypt_verdict(secret, u.password_hash@) == Some(false))
            ==> outcome_of_verification(verification_spec(secret, lookup)) == GuardOutcome::Forward(
            None,
        ),
        lookup == Ok::<Option<StoredUser>, StoreFailure>(None) ==> outcome_of_verification(
            verification_spec(secret, lookup),
        ) == GuardOutcome::Reject(GuardRejection::UnknownUser),
{
}

} // verus!
