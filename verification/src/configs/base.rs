//! The addresses under which the deployment is reached.

use vstd::prelude::*;
use crate::ciphers::cipher::{Cipher, CipherView};
use crate::ciphers::fields::plain_field;
use crate::ciphers::fields::sealed_fields;
use crate::ciphers::fields::{all_absent, field_view, opened_field, opened_fields};
use crate::ciphers::fields::{copy_field, fields_view, open_fields, seal_fields};
use crate::configs::settings::Settings;
use crate::keystore::{Keystore, Role};
use crate::traits::{Decrypt, Encrypt, IsEmpty};

verus! {

/// Base addresses of the API, the web front end and the administration.
#[derive(Debug, PartialEq)]
pub struct Base {
    pub api_url: Option<Cipher>,
    pub web_url: Option<Cipher>,
    pub admin_url: Option<Cipher>,
}

/// A `Base` record as a mathematical value.
pub struct BaseView {
    pub api_url: Option<CipherView>,
    pub web_url: Option<CipherView>,
    pub admin_url: Option<CipherView>,
}

impl BaseView {
    /// The protected fields of the record.
    pub open spec fn fields(self) -> Seq<Option<CipherView>> {
        seq![
            self.api_url,
            self.web_url,
            self.admin_url,
        ]
    }

    /// The record with nothing set.
    pub open spec fn empty() -> BaseView {
        BaseView {
            api_url: None,
            web_url: None,
            admin_url: None,
        }
    }

    /// The record, or the empty one where there is none.
    pub open spec fn or_empty(record: Option<BaseView>) -> BaseView {
        match record {
            Some(record) => record,
            None => BaseView::empty(),
        }
    }

    /// Whether nothing in the record is set.
    pub open spec fn is_empty(self) -> bool {
        self.api_url is None
            && self.web_url is None
            && self.admin_url is None
    }

    /// `after` is what sealing makes of the record: nothing where the
    /// record is empty, and otherwise the record with each field sealed
    /// that can be.
    pub open spec fn sealed_as(self, key: Option<Seq<u8>>, after: Option<BaseView>) -> bool {
        match after {
            Some(record) => {
                &&& !self.is_empty()
                &&& sealed_fields(self.fields(), key, record.fields())
            },
            None => self.is_empty(),
        }
    }

    /// What opening makes of the record: nothing where the record is
    /// empty, and otherwise the record with each field opened that opens.
    pub open spec fn opened(self, key: Option<Seq<u8>>) -> Option<BaseView> {
        if self.is_empty() {
            None
        } else {
            Some(self.opened_into(key))
        }
    }

    /// The record with each field opened that opens.
    pub open spec fn opened_into(self, key: Option<Seq<u8>>) -> BaseView {
        BaseView {
            api_url: opened_field(self.api_url, key),
            web_url: opened_field(self.web_url, key),
            admin_url: opened_field(self.admin_url, key),
        }
    }

    /// Opening a record opens its protected fields one by one.
    pub proof fn lemma_opened_fields(self, key: Option<Seq<u8>>)
        ensures
            self.opened_into(key).fields() == opened_fields(self.fields(), key),
            self.opened_into(key).is_empty() == self.is_empty(),
    {
        assert(self.opened_into(key).fields() =~= opened_fields(self.fields(), key));
    }
}

impl View for Base {
    type V = BaseView;

    open spec fn view(&self) -> BaseView {
        BaseView {
            api_url: field_view(self.api_url),
            web_url: field_view(self.web_url),
            admin_url: field_view(self.admin_url),
        }
    }
}

impl Clone for Base {
    fn clone(&self) -> (copy: Base)
        ensures
            copy == *self,
    {
        Base {
            api_url: copy_field(&self.api_url),
            web_url: copy_field(&self.web_url),
            admin_url: copy_field(&self.admin_url),
        }
    }
}

impl Default for Base {
    fn default() -> (record: Base)
        ensures
            record@ == BaseView::empty(),
    {
        Base {
            api_url: None,
            web_url: None,
            admin_url: None,
        }
    }
}

impl Base {
    /// The protected fields of the record, each once.
    pub fn get_ciphers(&self) -> (fields: Vec<Option<Cipher>>)
        ensures
            fields_view(fields@) == self@.fields(),
    {
        let mut fields: Vec<Option<Cipher>> = Vec::new();
        fields.push(copy_field(&self.api_url));
        fields.push(copy_field(&self.web_url));
        fields.push(copy_field(&self.admin_url));
        fields
    }

    /// The record with the given protected fields.
    fn with_ciphers(&self, fields: Vec<Option<Cipher>>) -> (record: Base)
        requires
            fields.len() == 3,
        ensures
            record@.fields() == fields_view(fields@),
    {
        let mut fields = fields;
        let admin_url = fields.pop().unwrap();
        let web_url = fields.pop().unwrap();
        let api_url = fields.pop().unwrap();
        let record = Base {
            api_url,
            web_url,
            admin_url,
        };
        record
    }
}

impl IsEmpty for Base {
    fn is_empty(&self) -> (empty: bool)
        ensures
            empty == self@.is_empty(),
            empty == all_absent(self@.fields()),
    {
        self.api_url.is_none()
            && self.web_url.is_none()
            && self.admin_url.is_none()
    }
}

impl Encrypt for Base {
    /// Seals every field that can be sealed under the master key. The
    /// result is `None` exactly when the record is empty.
    fn encrypt(&self, keys: &Keystore) -> (sealed: Option<Base>)
        ensures
            self@.sealed_as(
                keys.key(Role::Master),
                match sealed {
                    Some(record) => Some(record@),
                    None => None,
                },
            ),
    {
        let sealed = seal_fields(&self.get_ciphers(), keys);
        let data = self.with_ciphers(sealed);
        if data.is_empty() {
            None
        } else {
            Some(data)
        }
    }
}

impl Decrypt for Base {
    /// Opens every field that opens under the master key. The result is
    /// `None` exactly when the record is empty.
    fn decrypt(&self, keys: &Keystore) -> (opened: Option<Base>)
        ensures
            self@.opened(keys.key(Role::Master)) == (match opened {
                Some(record) => Some(record@),
                None => None,
            }),
    {
        let opened = open_fields(&self.get_ciphers(), keys);
        let data = self.with_ciphers(opened);
        if data.is_empty() {
            None
        } else {
            Some(data)
        }
    }
}

impl Base {
    /// Sets the three addresses as plain fields.
    pub fn mutate(&mut self, adm: &str, api: &str, web: &str)
        ensures
            final(self)@.admin_url == Some(
                CipherView { content: Some(adm@), hash: None, is_encrypted: None },
            ),
            final(self)@.api_url == Some(
                CipherView { content: Some(api@), hash: None, is_encrypted: None },
            ),
            final(self)@.web_url == Some(
                CipherView { content: Some(web@), hash: None, is_encrypted: None },
            ),
    {
        self.admin_url = plain_field(adm);
        self.api_url = plain_field(api);
        self.web_url = plain_field(web);
    }

    /// Removes the three addresses.
    pub fn clear(&mut self)
        ensures
            final(self)@.is_empty(),
    {
        self.api_url = None;
        self.web_url = None;
        self.admin_url = None;
    }

    /// The record to start with, given the latest stored entry of the
    /// module, if there is one: the record of the entry, opened, or the empty
    /// record where the entry has none or nothing is left of it.
    pub fn stage(entry: Option<&Settings>, keys: &Keystore) -> (record: Base)
        ensures
            record@ == (match entry {
                Some(settings) => match BaseView::or_empty(settings@.base).opened(
                    keys.key(Role::Master),
                ) {
                    Some(opened) => opened,
                    None => BaseView::empty(),
                },
                None => BaseView::empty(),
            }),
    {
        if let Some(settings) = entry {
            let stored = match &settings.base {
                Some(record) => record.decrypt(keys),
                None => Base::default().decrypt(keys),
            };
            if let Some(data) = stored {
                return data;
            }
        }
        Base::default()
    }
}

} // verus!
