//! The identity under which the game is started.

use vstd::prelude::*;
use crate::text::{capitalized_words, lemma_hyphen_gives_space, same_text, title_case};

verus! {

/// Where an account comes from.
#[derive(Clone, Copy, Debug, PartialEq, Eq, Structural)]
pub enum AccountType {
    Mojang,
    Minecraft,
    Local,
}

/// The account origin that a session's origin word names.
pub open spec fn account_type_of(word: Seq<char>) -> AccountType {
    if word == "MINECRAFT"@ {
        AccountType::Minecraft
    } else if word == "MOJANG"@ || word == "MICROSOFT"@ {
        AccountType::Mojang
    } else {
        AccountType::Local
    }
}

impl From<String> for AccountType {
    fn from(v: String) -> (r: Self) {
        if same_text(v.as_str(), "MINECRAFT") {
            AccountType::Minecraft
        } else if same_text(v.as_str(), "MOJANG") || same_text(v.as_str(), "MICROSOFT") {
            AccountType::Mojang
        } else {
            AccountType::Local
        }
    }
}

impl vstd::std_specs::convert::FromSpecImpl<String> for AccountType {
    open spec fn obeys_from_spec() -> bool {
        true
    }

    open spec fn from_spec(v: String) -> Self {
        account_type_of(v@)
    }
}

/// The session of the user who starts the game.
#[derive(Debug, PartialEq, Eq)]
pub struct UserSession {
    pub name: String,
    pub uuid: String,
    pub access_token: String,
    pub origin: String,
}

/// What a [`UserSession`] stands for.
pub struct SessionView {
    pub name: Seq<char>,
    pub uuid: Seq<char>,
    pub access_token: Seq<char>,
    pub origin: Seq<char>,
}

impl View for UserSession {
    type V = SessionView;

    open spec fn view(&self) -> SessionView {
        SessionView {
            name: self.name@,
            uuid: self.uuid@,
            access_token: self.access_token@,
            origin: self.origin@,
        }
    }
}

/// The word that stands for a uuid or an access token that was never issued.
pub open spec fn unset_word() -> Seq<char> {
    "null"@
}

/// Whether a session belongs to a user who has logged in: it has a name, and
/// both its uuid and its access token were issued.
pub open spec fn logged(s: SessionView) -> bool {
    s.name.len() > 0 && s.uuid != unset_word() && s.access_token != unset_word()
}

/// The session that a fresh installation starts with, under the given name.
pub open spec fn unauthenticated(name: Seq<char>) -> SessionView {
    SessionView {
        name,
        uuid: unset_word(),
        access_token: unset_word(),
        origin: Seq::<char>::empty(),
    }
}

/// Whether a session is one that a fresh installation can start with: it is
/// unauthenticated, and its name is made from a hyphenated pair of words.
pub open spec fn drawn_session(s: SessionView) -> bool {
    exists|slug: Seq<char>|
        slug.contains('-') && s == unauthenticated(#[trigger] capitalized_words(slug, true))
}

/// Calls `Generator::default().next()` of `names`, which draws an adjective
/// and a noun at random and joins them with a hyphen. Trusted: the call
/// returns a name, and the name holds a hyphen; nothing is claimed of which
/// words were drawn.
#[verifier::external_body]
fn random_slug() -> (r: Option<String>)
    ensures
        r.is_some(),
        r->Some_0@.contains('-'),
{
    names::Generator::default().next()
}

impl Clone for UserSession {
    fn clone(&self) -> (r: Self)
        ensures
            r == *self,
    {
        UserSession {
            name: self.name.clone(),
            uuid: self.uuid.clone(),
            access_token: self.access_token.clone(),
            origin: self.origin.clone(),
        }
    }
}

impl Default for UserSession {
    /// An unauthenticated session under a randomly drawn display name: two
    /// capitalised words with a space between them.
    fn default() -> (r: Self)
        ensures
            drawn_session(r@),
            r@.name.len() > 0,
            r@.name.contains(' '),
            r@.uuid == unset_word(),
            r@.access_token == unset_word(),
            r@.origin.len() == 0,
            !logged(r@),
    {
        let slug = random_slug().unwrap();
        proof {
            lemma_hyphen_gives_space(slug@, true);
        }
        UserSession::with_generated_name(slug.as_str())
    }
}

impl UserSession {
    /// The unauthenticated session whose display name is made from `slug`, a
    /// hyphenated pair of words: each word capitalised, a space between them.
    pub fn with_generated_name(slug: &str) -> (r: Self)
        ensures
            r@ == unauthenticated(capitalized_words(slug@, true)),
            !logged(r@),
    {
        UserSession {
            name: title_case(slug),
            origin: String::new(),
            uuid: String::from_str("null"),
            access_token: String::from_str("null"),
        }
    }

    /// Whether the user has logged in.
    pub fn is_logged(&self) -> (r: bool)
        ensures
            r == logged(self@),
    {
        !self.name.as_str().is_empty() && !same_text(self.uuid.as_str(), "null") && !same_text(
            self.access_token.as_str(),
            "null",
        )
    }

    /// The kind of account that the user has logged in with; none for a user
    /// who has not logged in.
    pub fn account_type(&self) -> (r: Option<AccountType>)
        ensures
            r == if logged(self@) {
                Some(
                    account_type_of(
                        if self@.origin.len() == 0 {
                            "LOCAL"@
                        } else {
                            self@.origin
                        },
                    ),
                )
            } else {
                None
            },
    {
        if self.is_logged() {
            Some(AccountType::from(self.account_origin()))
        } else {
            None
        }
    }

    /// The origin of the account, in capitals: the session's own origin for a
    /// logged-in user who has one, and `LOCAL` for everyone else.
    pub fn account_origin(&self) -> (r: String)
        ensures
            r@ == if self@.origin.len() == 0 || !logged(self@) {
                "LOCAL"@
            } else {
                self@.origin
            },
    {
        if self.origin.as_str().is_empty() || !self.is_logged() {
            return String::from_str("LOCAL");
        }
        self.origin.clone()
    }
}

} // verus!
