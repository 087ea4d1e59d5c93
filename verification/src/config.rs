use vstd::prelude::*;

use crate::util::str_eq;

verus! {

/// The names under which a configuration selects backends.
#[derive(Clone, Copy, Debug, PartialEq, Eq, Structural)]
pub enum BackendName {
    Nitrokey,
    Keyring,
}

/// The backend identifier that a configuration token selects, if any.
/// Tokens outside the closed set select no backend and are skipped.
pub open spec fn spec_parse_backend(name: Seq<char>) -> Option<BackendName> {
    if name == "nitrokey"@ {
        Some(BackendName::Nitrokey)
    } else if name == "keyring"@ {
        Some(BackendName::Keyring)
    } else {
        None
    }
}

impl BackendName {
    /// Recognise a configured backend identifier; unknown identifiers
    /// yield `None` and are skipped by the orchestrator.
    pub fn parse(name: &str) -> (r: Option<BackendName>)
        ensures
            r == spec_parse_backend(name@),
    {
        if str_eq(name, "nitrokey") {
            Some(BackendName::Nitrokey)
        } else if str_eq(name, "keyring") {
            Some(BackendName::Keyring)
        } else {
            None
        }
    }
}

/// Which backends to activate, in the order they are to be consulted.
#[derive(Clone, Debug, Default)]
pub struct General {
    /// The configured backend identifiers, in fallback order.
    pub backends: Vec<String>,
}

/// A declarative password-generation policy: the exact length, which
/// character classes are allowed, and whether every enabled class must
/// be represented (`strict`).
#[derive(Clone, Copy, Debug, Default)]
pub struct Password {
    pub length: usize,
    pub numbers: bool,
    pub lowercase_letters: bool,
    pub uppercase_letters: bool,
    pub symbols: bool,
    pub strict: bool,
}

/// A user's configuration: backend selection, password policy, and the
/// default username per service.
#[derive(Clone, Debug, Default)]
pub struct Config {
    pub general: General,
    pub password: Password,
    /// A mapping from services to default usernames, kept as pairs with
    /// unique service keys; insertion order carries no meaning.
    pub default: Vec<(String, String)>,
}

impl Config {
    /// The default-username pairs form a mapping: service keys are unique.
    pub open spec fn wf(&self) -> bool {
        forall|i: int, j: int|
            0 <= i < j < self.default@.len() ==> self.default@[i].0@ != self.default@[j].0@
    }

    /// Whether a default username is configured for `service`.
    pub open spec fn spec_has_default(&self, service: Seq<char>) -> bool {
        exists|i: int| 0 <= i < self.default@.len() && self.default@[i].0@ == service
    }

    /// Whether (service, username) is one of the configured default pairs.
    pub open spec fn spec_default_entry(&self, service: Seq<char>, username: Seq<char>) -> bool {
        exists|i: int|
            0 <= i < self.default@.len() && self.default@[i].0@ == service && self.default@[i].1@
                == username
    }

    /// Look up the default username configured for `service`.
    pub fn default_username(&self, service: &str) -> (r: Option<&String>)
        ensures
            r is Some <==> self.spec_has_default(service@),
            r matches Some(u) ==> self.spec_default_entry(service@, u@),
    {
        let n = self.default.len();
        for k in 0..n
            invariant
                n == self.default@.len(),
                forall|i: int| 0 <= i < k ==> self.default@[i].0@ != service@,
        {
            if str_eq(self.default[k].0.as_str(), service) {
                return Some(&self.default[k].1);
            }
        }
        None
    }

    /// Set the default username for `service`, replacing any earlier
    /// entry for the same service; the mapping stays a mapping.
    pub fn insert_default(&mut self, service: String, username: String)
        requires
            old(self).wf(),
        ensures
            final(self).wf(),
            final(self).general == old(self).general,
            final(self).password == old(self).password,
            final(self).spec_has_default(service@),
            !old(self).spec_has_default(service@) ==> final(self).default@ == old(
                self,
            ).default@.push((service, username)),
            old(self).spec_has_default(service@) ==> exists|k: int|
                0 <= k < old(self).default@.len() && old(self).default@[k].0@ == service@
                    && final(self).default@ == old(self).default@.remove(k).push(
                    (service, username),
                ),
    {
        let n = self.default.len();
        for k in 0..n
            invariant
                n == self.default@.len(),
                *self == *old(self),
                old(self).wf(),
                forall|i: int| 0 <= i < k ==> self.default@[i].0@ != service@,
        {
            if str_eq(self.default[k].0.as_str(), service.as_str()) {
                let ghost prior = self.default@;
                self.default.remove(k);
                self.default.push((service, username));
                proof {
                    prior.remove_ensures(k as int);
                    let shortened = prior.remove(k as int);
                    assert forall|i: int, j: int|
                        0 <= i < j < self.default@.len() implies self.default@[i].0@
                        != self.default@[j].0@ by {
                        let x = if i < k { i } else { i + 1 };
                        assert(self.default@[i] == shortened[i]);
                        assert(shortened[i] == prior[x]);
                        assert(prior == old(self).default@);
                        if j < self.default@.len() - 1 {
                            let y = if j < k { j } else { j + 1 };
                            assert(self.default@[j] == shortened[j]);
                            assert(shortened[j] == prior[y]);
                            assert(old(self).default@[x].0@ != old(self).default@[y].0@);
                        } else {
                            assert(self.default@[j].0@ == prior[k as int].0@);
                            if x < k {
                                assert(old(self).default@[x].0@ != old(self).default@[k as int].0@);
                            } else {
                                assert(old(self).default@[k as int].0@ != old(self).default@[x].0@);
                            }
                        }
                    }
                    assert(self.default@[self.default@.len() - 1].0@ == service@);
                }
                return ;
            }
        }
        self.default.push((service, username));
        proof {
            assert(self.default@[self.default@.len() - 1].0@ == service@);
        }
    }
}

} // verus!
