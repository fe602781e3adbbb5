//! The auth gate: who may call what.
//!
//! Public methods are open to everyone. Every other method needs the
//! configured credential; a wrong one is counted against the caller's
//! address, a missing one is not.

use vstd::prelude::*;
use crate::client::IpAddress;
use crate::limiter::{after_failure, RateLimiter};
use crate::text::str_eq;

verus! {

/// Why a request was not authorized.
#[derive(Clone, Copy, Debug, PartialEq, Eq, Structural)]
pub enum AuthError {
    /// A protected method was called without a credential.
    CredentialMissing,
    /// The credential supplied is not the configured one.
    IncorrectCredential,
}

/// The names of the methods that need no credential. The set is fixed when
/// it is made.
pub struct PublicMethodSet {
    names: Vec<String>,
}

impl View for PublicMethodSet {
    type V = Set<Seq<char>>;

    closed spec fn view(&self) -> Set<Seq<char>> {
        name_set(self.names@)
    }
}

/// The texts of a list of names, as a set.
pub open spec fn name_set(names: Seq<String>) -> Set<Seq<char>> {
    Set::new(|name: Seq<char>| exists|i: int| 0 <= i < names.len() && #[trigger] names[i]@ == name)
}

impl PublicMethodSet {
    /// The set of the given names.
    pub fn new(names: Vec<String>) -> (set: PublicMethodSet)
        ensures
            set@ == name_set(names@),
    {
        PublicMethodSet { names }
    }

    /// Whether `method` is public.
    pub fn contains(&self, method: &str) -> (r: bool)
        ensures
            r == self@.contains(method@),
    {
        let mut i: usize = 0;
        while i < self.names.len()
            invariant
                i <= self.names@.len(),
                forall|k: int| 0 <= k < i ==> (#[trigger] self.names@[k])@ != method@,
            decreases self.names@.len() - i,
        {
            if str_eq(self.names[i].as_str(), method) {
                return true;
            }
            i += 1;
        }
        false
    }
}

/// The credential that is expected when the configuration holds `configured`:
/// the empty text when it holds none.
pub open spec fn expected_credential(configured: Option<Seq<char>>) -> Seq<char> {
    match configured {
        Some(text) => text,
        None => Seq::empty(),
    }
}

/// Whether a call of `method` with `credential` is authorized. The rules, in
/// order: a public method is authorized whatever comes with it; a credential
/// equal to the expected one is authorized; any other credential is
/// incorrect; none at all is missing.
pub open spec fn verdict(
    public: Set<Seq<char>>,
    configured: Option<Seq<char>>,
    method: Seq<char>,
    credential: Option<Seq<char>>,
) -> Result<(), AuthError> {
    if public.contains(method) {
        Ok(())
    } else {
        match credential {
            Some(supplied) => if supplied == expected_credential(configured) {
                Ok(())
            } else {
                Err(AuthError::IncorrectCredential)
            },
            None => Err(AuthError::CredentialMissing),
        }
    }
}

/// Whether deciding on a call of `method` with `credential` takes a
/// comparison of credentials.
pub open spec fn compares(
    public: Set<Seq<char>>,
    method: Seq<char>,
    credential: Option<Seq<char>>,
) -> bool {
    !public.contains(method) && credential is Some
}

/// `n + 1`, held at the largest count when it does not fit.
pub open spec fn one_more_check(n: u64) -> u64 {
    if n == u64::MAX {
        n
    } else {
        (n + 1) as u64
    }
}

/// The auth gate of one server. It counts the credential comparisons it has
/// made.
pub struct AuthGate {
    public: PublicMethodSet,
    configured: Option<String>,
    comparisons: u64,
}

impl AuthGate {
    /// The methods that need no credential.
    pub closed spec fn public_methods(&self) -> Set<Seq<char>> {
        self.public@
    }

    /// The credential that the configuration holds, if it holds one.
    pub closed spec fn configured(&self) -> Option<Seq<char>> {
        match self.configured {
            Some(text) => Some(text@),
            None => None,
        }
    }

    /// The number of credential comparisons made so far.
    pub closed spec fn comparisons(&self) -> u64 {
        self.comparisons
    }

    /// A gate with the given public methods and configured credential, which
    /// has compared nothing yet.
    pub fn new(public: PublicMethodSet, configured: Option<String>) -> (gate: AuthGate)
        ensures
            gate.public_methods() == public@,
            gate.configured() == crate::envelope::optional_text(configured),
            gate.comparisons() == 0,
    {
        AuthGate { public, configured, comparisons: 0 }
    }

    /// Whether `method` needs no credential.
    pub fn is_public(&self, method: &str) -> (r: bool)
        ensures
            r == self.public_methods().contains(method@),
    {
        self.public.contains(method)
    }

    /// The number of credential comparisons made so far.
    pub fn comparison_count(&self) -> (n: u64)
        ensures
            n == self.comparisons(),
    {
        self.comparisons
    }

    /// Decides on a call of `method` by the caller at `address`, with the
    /// credential it supplied. Only a wrong credential touches the limiter:
    /// it is counted as one failure of `address` at `now`.
    pub fn authorize(
        &mut self,
        method: &str,
        credential: Option<&str>,
        address: IpAddress,
        limiter: &mut RateLimiter,
        now: u64,
    ) -> (r: Result<(), AuthError>)
        requires
            old(limiter).wf(),
        ensures
            final(limiter).wf(),
            final(limiter).config() == old(limiter).config(),
            final(self).public_methods() == old(self).public_methods(),
            final(self).configured() == old(self).configured(),
            r == verdict(
                old(self).public_methods(),
                old(self).configured(),
                method@,
                optional_str(credential),
            ),
            final(limiter)@ == (if r == Err::<(), AuthError>(AuthError::IncorrectCredential) {
                old(limiter)@.insert(
                    address,
                    after_failure(old(limiter).record(address), old(limiter).config(), now),
                )
            } else {
                old(limiter)@
            }),
            final(self).comparisons() == (if compares(
                old(self).public_methods(),
                method@,
                optional_str(credential),
            ) {
                one_more_check(old(self).comparisons())
            } else {
                old(self).comparisons()
            }),
    {
        if self.public.contains(method) {
            return Ok(());
        }
        match credential {
            None => Err(AuthError::CredentialMissing),
            Some(supplied) => {
                if self.comparisons < u64::MAX {
                    self.comparisons = self.comparisons + 1;
                }
                let matches = match &self.configured {
                    Some(expected) => str_eq(supplied, expected.as_str()),
                    None => supplied.is_empty(),
                };
                assert(matches == (supplied@ =~= expected_credential(old(self).configured())));
                if matches {
                    Ok(())
                } else {
                    limiter.record_failure(address, now);
                    Err(AuthError::IncorrectCredential)
                }
            },
        }
    }
}

/// The text of an optional string slice.
pub open spec fn optional_str(s: Option<&str>) -> Option<Seq<char>> {
    match s {
        Some(s) => Some(s@),
        None => None,
    }
}

} // verus!
