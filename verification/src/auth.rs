//! The access gate: decides whether a request's credentials admit it before
//! it reaches the search facade. The set of accepted credential pairs is
//! supplied at start-up; the module embeds none itself.

use vstd::prelude::*;
use vstd::string::StringExecFns;

verus! {

/// Why a request was refused.
#[derive(Debug)]
pub enum AuthError {
    /// The supplied credentials match no accepted pair.
    Unauthorized,
}

/// One accepted credential pair.
#[derive(Clone)]
pub struct Credential {
    pub user: String,
    pub password: String,
}

/// Mathematical image of `Credential`.
pub struct CredentialView {
    pub user: Seq<char>,
    pub password: Seq<char>,
}

impl View for Credential {
    type V = CredentialView;

    open spec fn view(&self) -> CredentialView {
        CredentialView { user: self.user@, password: self.password@ }
    }
}

impl DeepView for Credential {
    type V = CredentialView;

    open spec fn deep_view(&self) -> CredentialView {
        self.view()
    }
}

/// Whether the table holds this exact user and password pair.
pub open spec fn credentials_accepted(
    table: Seq<CredentialView>,
    user: Seq<char>,
    password: Seq<char>,
) -> bool {
    exists|i: int|
        0 <= i < table.len() && table[i].user == user && table[i].password == password
}

/// Authenticates requests against a table of accepted credential pairs,
/// fixed at start-up.
#[derive(Clone)]
pub struct AccessGate {
    table: Vec<Credential>,
}

impl View for AccessGate {
    type V = Seq<CredentialView>;

    closed spec fn view(&self) -> Seq<CredentialView> {
        self.table.deep_view()
    }
}

impl AccessGate {
    /// A gate that admits nobody.
    pub fn new() -> (g: Self)
        ensures
            g@ == Seq::<CredentialView>::empty(),
    {
        let g = AccessGate { table: Vec::new() };
        proof {
            assert(g@ =~= Seq::<CredentialView>::empty());
        }
        g
    }

    /// Accepts one more credential pair.
    pub fn grant(&mut self, user: &str, password: &str)
        ensures
            final(self)@ == old(self)@.push(
                CredentialView { user: user@, password: password@ },
            ),
    {
        let ghost prev = self.table@;
        let ghost prevdv = self@;
        self.table.push(
            Credential { user: user.to_owned(), password: password.to_owned() },
        );
        proof {
            let dv = self@;
            let goal = prevdv.push(CredentialView { user: user@, password: password@ });
            assert(prevdv.len() == prev.len());
            assert(dv.len() == self.table@.len());
            assert forall|k: int| 0 <= k < dv.len() implies dv[k] == goal[k] by {
                assert(dv[k] == self.table@[k].deep_view());
                if k < prev.len() {
                    assert(self.table@[k] == prev[k]);
                    assert(prevdv[k] == prev[k].deep_view());
                }
            }
            assert(dv =~= goal);
        }
    }

    /// Validates a request's credentials: admitted exactly when the pair
    /// was granted beforehand; a missing password counts as empty.
    pub fn validate(&self, user: &str, password: Option<&str>) -> (r: Result<(), AuthError>)
        ensures
            r is Ok <==> credentials_accepted(
                self@,
                user@,
                match password {
                    Option::Some(p) => p@,
                    Option::None => Seq::<char>::empty(),
                },
            ),
    {
        let pass: String = match password {
            Option::Some(p) => p.to_owned(),
            Option::None => String::new(),
        };
        let user_owned = user.to_owned();
        let mut i: usize = 0;
        while i < self.table.len()
            invariant
                i <= self.table.len(),
                user_owned@ == user@,
                pass@ == match password {
                    Option::Some(p) => p@,
                    Option::None => Seq::<char>::empty(),
                },
                forall|k: int|
                    0 <= k < i ==> !((#[trigger] self@[k]).user == user_owned@
                        && self@[k].password == pass@),
            decreases self.table.len() - i,
        {
            proof {
                assert(self@[i as int] == self.table@[i as int].deep_view());
            }
            let entry = &self.table[i];
            if entry.user == user_owned && entry.password == pass {
                return Result::Ok(());
            }
            i += 1;
        }
        Result::Err(AuthError::Unauthorized)
    }
}

} // verus!
