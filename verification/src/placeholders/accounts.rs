//! How an account signs in.

use vstd::prelude::*;
use vstd::string::StringExecFns;
use crate::text::{lowercase, same_text, to_lowercase};
use crate::traits::IsEmpty;

verus! {

/// The provider through which an account signs in: one of the known ones,
/// or any other by its name.
#[derive(Debug, PartialEq)]
pub enum Account {
    Manual,
    Facebook,
    Google,
    Twitter,
    Linkedin,
    Apple,
    Instagram,
    String(String),
}

/// An account kind as a mathematical value.
pub enum AccountView {
    Manual,
    Facebook,
    Google,
    Twitter,
    Linkedin,
    Apple,
    Instagram,
    String(Seq<char>),
}

impl View for Account {
    type V = AccountView;

    open spec fn view(&self) -> AccountView {
        match self {
            Account::Manual => AccountView::Manual,
            Account::Facebook => AccountView::Facebook,
            Account::Google => AccountView::Google,
            Account::Twitter => AccountView::Twitter,
            Account::Linkedin => AccountView::Linkedin,
            Account::Apple => AccountView::Apple,
            Account::Instagram => AccountView::Instagram,
            Account::String(value) => AccountView::String(value@),
        }
    }
}

impl AccountView {
    /// The kind that `value` names, given `word`, its lower-case form: a
    /// known provider where `word` is its name, and `value` itself as the
    /// name of another.
    pub open spec fn of_word(word: Seq<char>, value: Seq<char>) -> AccountView {
        if word == "manual"@ {
            AccountView::Manual
        } else if word == "facebook"@ {
            AccountView::Facebook
        } else if word == "google"@ {
            AccountView::Google
        } else if word == "twitter"@ {
            AccountView::Twitter
        } else if word == "linkedin"@ {
            AccountView::Linkedin
        } else if word == "apple"@ {
            AccountView::Apple
        } else if word == "instagram"@ {
            AccountView::Instagram
        } else {
            AccountView::String(value)
        }
    }

    /// The name under which the kind is stored.
    pub open spec fn name(self) -> Seq<char> {
        match self {
            AccountView::Manual => "MANUAL"@,
            AccountView::Facebook => "FACEBOOK"@,
            AccountView::Google => "GOOGLE"@,
            AccountView::Twitter => "TWITTER"@,
            AccountView::Linkedin => "LINKEDIN"@,
            AccountView::Apple => "APPLE"@,
            AccountView::Instagram => "INSTAGRAM"@,
            AccountView::String(value) => value,
        }
    }

    /// Whether the kind is another provider without a name.
    pub open spec fn is_empty(self) -> bool {
        self matches AccountView::String(value) && value.len() == 0
    }
}

impl Clone for Account {
    fn clone(&self) -> (copy: Account)
        ensures
            copy == *self,
    {
        match self {
            Account::Manual => Account::Manual,
            Account::Facebook => Account::Facebook,
            Account::Google => Account::Google,
            Account::Twitter => Account::Twitter,
            Account::Linkedin => Account::Linkedin,
            Account::Apple => Account::Apple,
            Account::Instagram => Account::Instagram,
            Account::String(value) => Account::String(value.clone()),
        }
    }
}

impl IsEmpty for Account {
    /// Whether the kind is another provider without a name.
    fn is_empty(&self) -> (empty: bool)
        ensures
            empty == self@.is_empty(),
    {
        match self {
            Account::String(value) => value.as_str().is_empty(),
            _ => false,
        }
    }
}

impl Account {
    /// The kind that `value` names, given `word`, its lower-case form.
    pub fn named(word: &str, value: &str) -> (account: Account)
        ensures
            account@ == AccountView::of_word(word@, value@),
    {
        if same_text(word, "manual") {
            Account::Manual
        } else if same_text(word, "facebook") {
            Account::Facebook
        } else if same_text(word, "google") {
            Account::Google
        } else if same_text(word, "twitter") {
            Account::Twitter
        } else if same_text(word, "linkedin") {
            Account::Linkedin
        } else if same_text(word, "apple") {
            Account::Apple
        } else if same_text(word, "instagram") {
            Account::Instagram
        } else {
            Account::String(value.to_owned())
        }
    }

    /// The kind that `value` names, in any mix of upper and lower case.
    pub fn new(value: &str) -> (account: Account)
        ensures
            account@ == AccountView::of_word(lowercase(value@), value@),
    {
        let word = to_lowercase(value);
        Account::named(word.as_str(), value)
    }

    /// The kind itself, or `None` where it is empty.
    pub fn to_option(&self) -> (kind: Option<Account>)
        ensures
            match kind {
                Some(account) => !self@.is_empty() && account == *self,
                None => self@.is_empty(),
            },
    {
        if self.is_empty() {
            None
        } else {
            Some(self.clone())
        }
    }

    /// The name under which the kind is stored.
    pub fn to_string(&self) -> (name: String)
        ensures
            name@ == self@.name(),
    {
        match self {
            Account::Manual => String::from_str("MANUAL"),
            Account::Facebook => String::from_str("FACEBOOK"),
            Account::Google => String::from_str("GOOGLE"),
            Account::Twitter => String::from_str("TWITTER"),
            Account::Linkedin => String::from_str("LINKEDIN"),
            Account::Apple => String::from_str("APPLE"),
            Account::Instagram => String::from_str("INSTAGRAM"),
            Account::String(value) => value.clone(),
        }
    }
}

} // verus!
