//! The kinds of configuration that a settings envelope can carry.

use vstd::prelude::*;
use vstd::string::StringExecFns;
use crate::text::{lowercase, same_text, to_lowercase};

verus! {

/// Which module a settings envelope configures.
#[derive(Clone, Copy, Debug, PartialEq, Eq, Structural)]
pub enum Module {
    Base,
    Mailer,
    Paseto,
    S3,
}

impl Module {
    /// The tag under which the module is stored.
    pub open spec fn tag(self) -> Seq<char> {
        match self {
            Module::Base => "BASE"@,
            Module::Mailer => "MAILER"@,
            Module::Paseto => "PASETO"@,
            Module::S3 => "S3"@,
        }
    }

    /// The module that a lower-case word names.
    pub open spec fn of_word(word: Seq<char>) -> Option<Module> {
        if word == "base"@ {
            Some(Module::Base)
        } else if word == "mailer"@ {
            Some(Module::Mailer)
        } else if word == "paseto"@ {
            Some(Module::Paseto)
        } else if word == "s3"@ {
            Some(Module::S3)
        } else {
            None
        }
    }

    /// The tag under which the module is stored.
    pub fn to_string(&self) -> (tag: String)
        ensures
            tag@ == self.tag(),
    {
        match self {
            Module::Base => String::from_str("BASE"),
            Module::Mailer => String::from_str("MAILER"),
            Module::Paseto => String::from_str("PASETO"),
            Module::S3 => String::from_str("S3"),
        }
    }

    /// The module that the lower-case `word` names, if it names one.
    pub fn named(word: &str) -> (module: Option<Module>)
        ensures
            module == Module::of_word(word@),
    {
        if same_text(word, "base") {
            Some(Module::Base)
        } else if same_text(word, "mailer") {
            Some(Module::Mailer)
        } else if same_text(word, "paseto") {
            Some(Module::Paseto)
        } else if same_text(word, "s3") {
            Some(Module::S3)
        } else {
            None
        }
    }

    /// The module that `value` names in any mix of upper and lower case, or
    /// `None` where it names none.
    pub fn parse(value: &str) -> (module: Option<Module>)
        ensures
            module == Module::of_word(lowercase(value@)),
    {
        let word = to_lowercase(value);
        Module::named(word.as_str())
    }
}

} // verus!
