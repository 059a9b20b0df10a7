//! Validation of form fields, with the messages to show for a failure.

use vstd::prelude::*;
use vstd::string::StringSliceAdditionalSpecFns;

verus! {

/// The rules for one field, and the messages for breaking them.
#[derive(Debug)]
pub struct Validator {
    pub empty: String,
    pub invalid: String,
    pub min_length: Option<usize>,
}

/// A validator as a mathematical value.
pub struct ValidatorView {
    pub empty: Seq<char>,
    pub invalid: Seq<char>,
    pub min_length: Option<usize>,
}

impl View for Validator {
    type V = ValidatorView;

    open spec fn view(&self) -> ValidatorView {
        ValidatorView { empty: self.empty@, invalid: self.invalid@, min_length: self.min_length }
    }
}

impl ValidatorView {
    /// The message for an empty value: the one set for it, else the one set
    /// for an invalid value, else a general one.
    pub open spec fn empty_message(self) -> Seq<char> {
        if self.empty.len() > 0 {
            self.empty
        } else if self.invalid.len() > 0 {
            self.invalid
        } else {
            "Field is empty"@
        }
    }

    /// The message for an invalid value: the one set for it, else the one
    /// set for an empty value, else a general one.
    pub open spec fn invalid_message(self) -> Seq<char> {
        if self.invalid.len() > 0 {
            self.invalid
        } else if self.empty.len() > 0 {
            self.empty
        } else {
            "Field is invalid"@
        }
    }

    /// The message for a value that is `chars` characters and `bytes` bytes
    /// long, or the empty text where the value passes.
    pub open spec fn message(self, chars: nat, bytes: nat) -> Seq<char> {
        if chars == 0 {
            self.empty_message()
        } else if self.min_length matches Some(size) && size > bytes {
            self.invalid_message()
        } else {
            Seq::empty()
        }
    }
}

impl Validator {
    /// A validator with no rule and no message.
    pub fn builder() -> (validator: Validator)
        ensures
            validator@ == (ValidatorView {
                empty: Seq::empty(),
                invalid: Seq::empty(),
                min_length: None,
            }),
    {
        Validator { empty: String::new(), invalid: String::new(), min_length: None }
    }

    /// Sets the message for an empty value.
    pub fn set_empty(&mut self, message: &str) -> (this: &mut Validator)
        ensures
            this@ == (ValidatorView { empty: message@, ..old(self)@ }),
            *final(self) == *final(this),
    {
        self.empty = message.to_owned();
        self
    }

    /// Sets the message for an invalid value.
    pub fn set_invalid(&mut self, message: &str) -> (this: &mut Validator)
        ensures
            this@ == (ValidatorView { invalid: message@, ..old(self)@ }),
            *final(self) == *final(this),
    {
        self.invalid = message.to_owned();
        self
    }

    /// Sets the least length of a valid value, in bytes.
    pub fn set_min_length(&mut self, size: usize) -> (this: &mut Validator)
        ensures
            this@ == (ValidatorView { min_length: Some(size), ..old(self)@ }),
            *final(self) == *final(this),
    {
        self.min_length = Some(size);
        self
    }

    /// The message for an empty value.
    fn empty_message(&self) -> (message: String)
        ensures
            message@ == self@.empty_message(),
    {
        if self.empty.as_str().is_empty() {
            if self.invalid.as_str().is_empty() {
                String::from_str("Field is empty")
            } else {
                self.invalid.clone()
            }
        } else {
            self.empty.clone()
        }
    }

    /// The message for an invalid value.
    fn invalid_message(&self) -> (message: String)
        ensures
            message@ == self@.invalid_message(),
    {
        if self.invalid.as_str().is_empty() {
            if self.empty.as_str().is_empty() {
                String::from_str("Field is invalid")
            } else {
                self.empty.clone()
            }
        } else {
            self.invalid.clone()
        }
    }

    /// The message for `value`, or the empty string where it passes: an
    /// empty value gets the message for emptiness, and one shorter than the
    /// least length the message for invalidity.
    pub fn validate_string(&self, value: &str) -> (message: String)
        ensures
            message@ == self@.message(value@.len(), value.spec_bytes().len()),
    {
        if value.is_empty() {
            return self.empty_message();
        }
        if let Some(size) = self.min_length {
            if size > value.as_bytes().len() {
                return self.invalid_message();
            }
        }
        String::new()
    }

    /// The message for an optional value, where an absent one counts as
    /// empty, or `None` where the value passes.
    pub fn validate_string_option(&self, value: Option<&str>) -> (message: Option<String>)
        ensures
            match message {
                Some(text) => text@.len() > 0 && text@ == (match value {
                    Some(v) => self@.message(v@.len(), v.spec_bytes().len()),
                    None => self@.message(0, 0),
                }),
                None => (match value {
                    Some(v) => self@.message(v@.len(), v.spec_bytes().len()),
                    None => self@.message(0, 0),
                }).len() == 0,
            },
    {
        let validated = match value {
            Some(value) => self.validate_string(value),
            None => self.empty_message(),
        };
        if validated.as_str().is_empty() {
            None
        } else {
            Some(validated)
        }
    }
}

} // verus!
