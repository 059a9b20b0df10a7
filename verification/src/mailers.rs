//! The account with which mail is sent.

use vstd::prelude::*;
use crate::ciphers::cipher::plain_text;
use crate::ciphers::cipher::{Cipher, CipherView};
use crate::ciphers::fields::sealed_fields;
use crate::ciphers::fields::{all_absent, field_view, opened_field, opened_fields};
use crate::ciphers::fields::{copy_field, fields_view, open_fields, seal_fields};
use crate::ciphers::fields::{or_empty, plain_field};
use crate::configs::settings::Settings;
use crate::keystore::{Keystore, Role};
use crate::traits::{Decrypt, Encrypt, IsEmpty};

verus! {

/// Credentials and host of the outgoing mail account.
#[derive(Debug, PartialEq)]
pub struct Mailer {
    pub username: Option<Cipher>,
    pub password: Option<Cipher>,
    pub smtp_host: Option<Cipher>,
    pub service: Option<Cipher>,
}

/// A `Mailer` record as a mathematical value.
pub struct MailerView {
    pub username: Option<CipherView>,
    pub password: Option<CipherView>,
    pub smtp_host: Option<CipherView>,
    pub service: Option<CipherView>,
}

impl MailerView {
    /// The record with its fields opened, or the record itself where it is
    /// empty.
    pub open spec fn opened_or_same(self, key: Option<Seq<u8>>) -> MailerView {
        match self.opened(key) {
            Some(record) => record,
            None => self,
        }
    }

    /// The protected fields of the record.
    pub open spec fn fields(self) -> Seq<Option<CipherView>> {
        seq![
            self.username,
            self.password,
            self.smtp_host,
            self.service,
        ]
    }

    /// The record with nothing set.
    pub open spec fn empty() -> MailerView {
        MailerView {
            username: None,
            password: None,
            smtp_host: None,
            service: None,
        }
    }

    /// The record, or the empty one where there is none.
    pub open spec fn or_empty(record: Option<MailerView>) -> MailerView {
        match record {
            Some(record) => record,
            None => MailerView::empty(),
        }
    }

    /// Whether nothing in the record is set.
    pub open spec fn is_empty(self) -> bool {
        self.username is None
            && self.password is None
            && self.smtp_host is None
            && self.service is None
    }

    /// `after` is what sealing makes of the record: nothing where the
    /// record is empty, and otherwise the record with each field sealed
    /// that can be.
    pub open spec fn sealed_as(self, key: Option<Seq<u8>>, after: Option<MailerView>) -> bool {
        match after {
            Some(record) => {
                &&& !self.is_empty()
                &&& sealed_fields(self.fields(), key, record.fields())
            },
            None => self.is_empty(),
        }
    }

    /// What opening makes of the record: nothing where the record is
    /// empty, and otherwise the record with each field opened that opens.
    pub open spec fn opened(self, key: Option<Seq<u8>>) -> Option<MailerView> {
        if self.is_empty() {
            None
        } else {
            Some(self.opened_into(key))
        }
    }

    /// The record with each field opened that opens.
    pub open spec fn opened_into(self, key: Option<Seq<u8>>) -> MailerView {
        MailerView {
            username: opened_field(self.username, key),
            password: opened_field(self.password, key),
            smtp_host: opened_field(self.smtp_host, key),
            service: opened_field(self.service, key),
        }
    }

    /// Opening a record opens its protected fields one by one.
    pub proof fn lemma_opened_fields(self, key: Option<Seq<u8>>)
        ensures
            self.opened_into(key).fields() == opened_fields(self.fields(), key),
            self.opened_into(key).is_empty() == self.is_empty(),
    {
        assert(self.opened_into(key).fields() =~= opened_fields(self.fields(), key));
    }
}

impl View for Mailer {
    type V = MailerView;

    open spec fn view(&self) -> MailerView {
        MailerView {
            username: field_view(self.username),
            password: field_view(self.password),
            smtp_host: field_view(self.smtp_host),
            service: field_view(self.service),
        }
    }
}

impl Clone for Mailer {
    fn clone(&self) -> (copy: Mailer)
        ensures
            copy == *self,
    {
        Mailer {
            username: copy_field(&self.username),
            password: copy_field(&self.password),
            smtp_host: copy_field(&self.smtp_host),
            service: copy_field(&self.service),
        }
    }
}

impl Default for Mailer {
    fn default() -> (record: Mailer)
        ensures
            record@ == MailerView::empty(),
    {
        Mailer {
            username: None,
            password: None,
            smtp_host: None,
            service: None,
        }
    }
}

impl Mailer {
    /// The protected fields of the record, each once.
    pub fn get_ciphers(&self) -> (fields: Vec<Option<Cipher>>)
        ensures
            fields_view(fields@) == self@.fields(),
    {
        let mut fields: Vec<Option<Cipher>> = Vec::new();
        fields.push(copy_field(&self.username));
        fields.push(copy_field(&self.password));
        fields.push(copy_field(&self.smtp_host));
        fields.push(copy_field(&self.service));
        fields
    }

    /// The record with the given protected fields.
    fn with_ciphers(&self, fields: Vec<Option<Cipher>>) -> (record: Mailer)
        requires
            fields.len() == 4,
        ensures
            record@.fields() == fields_view(fields@),
    {
        let mut fields = fields;
        let service = fields.pop().unwrap();
        let smtp_host = fields.pop().unwrap();
        let password = fields.pop().unwrap();
        let username = fields.pop().unwrap();
        let record = Mailer {
            username,
            password,
            smtp_host,
            service,
        };
        record
    }
}

impl IsEmpty for Mailer {
    fn is_empty(&self) -> (empty: bool)
        ensures
            empty == self@.is_empty(),
            empty == all_absent(self@.fields()),
    {
        self.username.is_none()
            && self.password.is_none()
            && self.smtp_host.is_none()
            && self.service.is_none()
    }
}

impl Encrypt for Mailer {
    /// Seals every field that can be sealed under the master key. The
    /// result is `None` exactly when the record is empty.
    fn encrypt(&self, keys: &Keystore) -> (sealed: Option<Mailer>)
        ensures
            self@.sealed_as(
                keys.key(Role::Master),
                match sealed {
                    Some(record) => Some(record@),
                    None => None,
                },
            ),
    {
        let sealed = seal_fields(&self.get_ciphers(), keys);
        let data = self.with_ciphers(sealed);
        if data.is_empty() {
            None
        } else {
            Some(data)
        }
    }
}

impl Decrypt for Mailer {
    /// Opens every field that opens under the master key. The result is
    /// `None` exactly when the record is empty.
    fn decrypt(&self, keys: &Keystore) -> (opened: Option<Mailer>)
        ensures
            self@.opened(keys.key(Role::Master)) == (match opened {
                Some(record) => Some(record@),
                None => None,
            }),
    {
        let opened = open_fields(&self.get_ciphers(), keys);
        let data = self.with_ciphers(opened);
        if data.is_empty() {
            None
        } else {
            Some(data)
        }
    }
}

/// What it takes to sign in at the mail host.
#[derive(Debug, PartialEq)]
pub struct MailerLogin {
    pub username: String,
    pub password: String,
    pub smtp_host: String,
}

/// The plain content of a field, read with the master key where it is
/// sealed.
fn read(field: &Option<Cipher>, keys: &Keystore) -> (text: String)
    ensures
        text@ == plain_text(or_empty(field_view(*field)), keys.key(Role::Master)),
{
    match field {
        Some(cipher) => cipher.get_string_from_master(keys),
        None => Cipher::default().get_string_from_master(keys),
    }
}

/// A file to attach to a mail, and the name it is sent under.
#[derive(Debug)]
pub struct MailerAttachment {
    pub filename: String,
    pub name: String,
}

impl Mailer {
    /// Sets the four attributes of the account as plain fields.
    pub fn mutate(&mut self, username: &str, password: &str, smtp_host: &str, service: &str)
        ensures
            final(self)@.username == Some(
                CipherView { content: Some(username@), hash: None, is_encrypted: None },
            ),
            final(self)@.password == Some(
                CipherView { content: Some(password@), hash: None, is_encrypted: None },
            ),
            final(self)@.smtp_host == Some(
                CipherView { content: Some(smtp_host@), hash: None, is_encrypted: None },
            ),
            final(self)@.service == Some(
                CipherView { content: Some(service@), hash: None, is_encrypted: None },
            ),
    {
        self.username = plain_field(username);
        self.password = plain_field(password);
        self.smtp_host = plain_field(smtp_host);
        self.service = plain_field(service);
    }

    /// Removes the four attributes of the account.
    pub fn clear(&mut self)
        ensures
            final(self)@.is_empty(),
    {
        self.username = None;
        self.password = None;
        self.smtp_host = None;
        self.service = None;
    }

    /// The record to start with, given the latest stored entry of the
    /// module, if there is one: the record of the entry, opened, or the empty
    /// record where the entry has none or nothing is left of it.
    pub fn stage(entry: Option<&Settings>, keys: &Keystore) -> (record: Mailer)
        ensures
            record@ == (match entry {
                Some(settings) => match MailerView::or_empty(settings@.mailer).opened(
                    keys.key(Role::Master),
                ) {
                    Some(opened) => opened,
                    None => MailerView::empty(),
                },
                None => MailerView::empty(),
            }),
    {
        if let Some(settings) = entry {
            let stored = match &settings.mailer {
                Some(record) => record.decrypt(keys),
                None => Mailer::default().decrypt(keys),
            };
            if let Some(data) = stored {
                return data;
            }
        }
        Mailer::default()
    }

    /// The account to sign in with at the mail host: user name, password
    /// and host, each read with the master key where it is still sealed.
    pub fn login(&self, keys: &Keystore) -> (login: MailerLogin)
        ensures
            ({
                let key = keys.key(Role::Master);
                let data = self@.opened_or_same(key);
                &&& login.username@ == plain_text(or_empty(data.username), key)
                &&& login.password@ == plain_text(or_empty(data.password), key)
                &&& login.smtp_host@ == plain_text(or_empty(data.smtp_host), key)
            }),
    {
        let data = match self.decrypt(keys) {
            Some(data) => data,
            None => self.clone(),
        };
        MailerLogin {
            username: read(&data.username, keys),
            password: read(&data.password, keys),
            smtp_host: read(&data.smtp_host, keys),
        }
    }
}

} // verus!
