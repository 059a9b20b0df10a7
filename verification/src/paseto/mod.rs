//! The settings with which tokens are signed.

pub mod durations;
pub mod impls;
pub mod wire;

use vstd::prelude::*;
use crate::ciphers::cipher::{Cipher, CipherView};
use crate::ciphers::fields::sealed_fields;
use crate::ciphers::fields::{all_absent, field_view, opened_field, opened_fields};
use crate::ciphers::fields::{all_marked, or_empty, plain_field, same_contents};
use crate::ciphers::fields::{copy_field, fields_view, open_fields, seal_fields};
use crate::ciphers::fields::{lemma_opening_restores_sealed_fields, lemma_sealed_fields_are_marked};
use crate::ciphers::generate;
use crate::codec::base64url_bytes;
use crate::configs::modules::Module;
use crate::configs::settings::{Settings, ID_LENGTH};
use crate::keystore::{Keystore, Role};
use crate::secretbox::{KEY_LENGTH, KEY_TEXT_LENGTH};
use crate::traits::{Decrypt, Encrypt, IsEmpty};

verus! {

/// The application's name, and for access and refresh tokens each the
/// signing key and the lifetime, given as a count (`unit`) and the name of a
/// span of time (`time`).
#[derive(Debug, PartialEq)]
pub struct Paseto {
    pub app_name: Option<Cipher>,
    pub access_token_key_unit: Option<Cipher>,
    pub access_token_key_time: Option<Cipher>,
    pub access_token_key_signing: Option<Cipher>,
    pub refresh_token_key_unit: Option<Cipher>,
    pub refresh_token_key_time: Option<Cipher>,
    pub refresh_token_key_signing: Option<Cipher>,
}

/// A `Paseto` record as a mathematical value.
pub struct PasetoView {
    pub app_name: Option<CipherView>,
    pub access_token_key_unit: Option<CipherView>,
    pub access_token_key_time: Option<CipherView>,
    pub access_token_key_signing: Option<CipherView>,
    pub refresh_token_key_unit: Option<CipherView>,
    pub refresh_token_key_time: Option<CipherView>,
    pub refresh_token_key_signing: Option<CipherView>,
}

/// The plain field that holds `content`.
pub open spec fn plain(content: Seq<char>) -> CipherView {
    CipherView { content: Some(content), hash: None, is_encrypted: None }
}

/// The field is a plain one whose content is the text of a 32-byte key,
/// which has 43 characters.
pub open spec fn is_fresh_signing_key(field: Option<CipherView>) -> bool {
    match field {
        Some(cipher) => match cipher.content {
            Some(text) => cipher == plain(text) && text.len() == KEY_TEXT_LENGTH && (
            match base64url_bytes(text) {
                Some(key) => key.len() == KEY_LENGTH,
                None => false,
            }),
            None => false,
        },
        None => false,
    }
}

impl PasetoView {
    /// Whether these are the settings of a new application `name`: plain
    /// fields with signing keys of 32 bytes, access tokens that live five
    /// minutes and refresh tokens that live thirty.
    pub open spec fn is_fresh(self, name: Seq<char>) -> bool {
        self.app_name == Some(plain(name)) && self.access_token_key_unit == Some(plain("5"@))
            && self.access_token_key_time == Some(plain("Minutes"@))
            && self.refresh_token_key_unit == Some(plain("30"@)) && self.refresh_token_key_time
            == Some(plain("Minutes"@)) && is_fresh_signing_key(self.access_token_key_signing)
            && is_fresh_signing_key(self.refresh_token_key_signing)
    }

    /// The protected fields of the record.
    pub open spec fn fields(self) -> Seq<Option<CipherView>> {
        seq![
            self.app_name,
            self.access_token_key_unit,
            self.access_token_key_time,
            self.access_token_key_signing,
            self.refresh_token_key_unit,
            self.refresh_token_key_time,
            self.refresh_token_key_signing,
        ]
    }

    /// The record with nothing set.
    pub open spec fn empty() -> PasetoView {
        PasetoView {
            app_name: None,
            access_token_key_unit: None,
            access_token_key_time: None,
            access_token_key_signing: None,
            refresh_token_key_unit: None,
            refresh_token_key_time: None,
            refresh_token_key_signing: None,
        }
    }

    /// The record, or the empty one where there is none.
    pub open spec fn or_empty(record: Option<PasetoView>) -> PasetoView {
        match record {
            Some(record) => record,
            None => PasetoView::empty(),
        }
    }

    /// Whether nothing in the record is set.
    pub open spec fn is_empty(self) -> bool {
        self.app_name is None
            && self.access_token_key_unit is None
            && self.access_token_key_time is None
            && self.access_token_key_signing is None
            && self.refresh_token_key_unit is None
            && self.refresh_token_key_time is None
            && self.refresh_token_key_signing is None
    }

    /// `after` is what sealing makes of the record: nothing where the
    /// record is empty, and otherwise the record with each field sealed
    /// that can be.
    pub open spec fn sealed_as(self, key: Option<Seq<u8>>, after: Option<PasetoView>) -> bool {
        match after {
            Some(record) => {
                &&& !self.is_empty()
                &&& sealed_fields(self.fields(), key, record.fields())
            },
            None => self.is_empty(),
        }
    }

    /// What opening makes of the record: nothing where the record is
    /// empty, and otherwise the record with each field opened that opens.
    pub open spec fn opened(self, key: Option<Seq<u8>>) -> Option<PasetoView> {
        if self.is_empty() {
            None
        } else {
            Some(self.opened_into(key))
        }
    }

    /// The record with each field opened that opens.
    pub open spec fn opened_into(self, key: Option<Seq<u8>>) -> PasetoView {
        PasetoView {
            app_name: opened_field(self.app_name, key),
            access_token_key_unit: opened_field(self.access_token_key_unit, key),
            access_token_key_time: opened_field(self.access_token_key_time, key),
            access_token_key_signing: opened_field(self.access_token_key_signing, key),
            refresh_token_key_unit: opened_field(self.refresh_token_key_unit, key),
            refresh_token_key_time: opened_field(self.refresh_token_key_time, key),
            refresh_token_key_signing: opened_field(self.refresh_token_key_signing, key),
        }
    }

    /// Opening a record opens its protected fields one by one.
    pub proof fn lemma_opened_fields(self, key: Option<Seq<u8>>)
        ensures
            self.opened_into(key).fields() == opened_fields(self.fields(), key),
            self.opened_into(key).is_empty() == self.is_empty(),
    {
        assert(self.opened_into(key).fields() =~= opened_fields(self.fields(), key));
    }
}

impl View for Paseto {
    type V = PasetoView;

    open spec fn view(&self) -> PasetoView {
        PasetoView {
            app_name: field_view(self.app_name),
            access_token_key_unit: field_view(self.access_token_key_unit),
            access_token_key_time: field_view(self.access_token_key_time),
            access_token_key_signing: field_view(self.access_token_key_signing),
            refresh_token_key_unit: field_view(self.refresh_token_key_unit),
            refresh_token_key_time: field_view(self.refresh_token_key_time),
            refresh_token_key_signing: field_view(self.refresh_token_key_signing),
        }
    }
}

impl Clone for Paseto {
    fn clone(&self) -> (copy: Paseto)
        ensures
            copy == *self,
    {
        Paseto {
            app_name: copy_field(&self.app_name),
            access_token_key_unit: copy_field(&self.access_token_key_unit),
            access_token_key_time: copy_field(&self.access_token_key_time),
            access_token_key_signing: copy_field(&self.access_token_key_signing),
            refresh_token_key_unit: copy_field(&self.refresh_token_key_unit),
            refresh_token_key_time: copy_field(&self.refresh_token_key_time),
            refresh_token_key_signing: copy_field(&self.refresh_token_key_signing),
        }
    }
}

impl Default for Paseto {
    fn default() -> (record: Paseto)
        ensures
            record@ == PasetoView::empty(),
    {
        Paseto {
            app_name: None,
            access_token_key_unit: None,
            access_token_key_time: None,
            access_token_key_signing: None,
            refresh_token_key_unit: None,
            refresh_token_key_time: None,
            refresh_token_key_signing: None,
        }
    }
}

impl Paseto {
    /// The protected fields of the record, each once.
    pub fn get_ciphers(&self) -> (fields: Vec<Option<Cipher>>)
        ensures
            fields_view(fields@) == self@.fields(),
    {
        let mut fields: Vec<Option<Cipher>> = Vec::new();
        fields.push(copy_field(&self.app_name));
        fields.push(copy_field(&self.access_token_key_unit));
        fields.push(copy_field(&self.access_token_key_time));
        fields.push(copy_field(&self.access_token_key_signing));
        fields.push(copy_field(&self.refresh_token_key_unit));
        fields.push(copy_field(&self.refresh_token_key_time));
        fields.push(copy_field(&self.refresh_token_key_signing));
        fields
    }

    /// The record with the given protected fields.
    fn with_ciphers(&self, fields: Vec<Option<Cipher>>) -> (record: Paseto)
        requires
            fields.len() == 7,
        ensures
            record@.fields() == fields_view(fields@),
    {
        let mut fields = fields;
        let refresh_token_key_signing = fields.pop().unwrap();
        let refresh_token_key_time = fields.pop().unwrap();
        let refresh_token_key_unit = fields.pop().unwrap();
        let access_token_key_signing = fields.pop().unwrap();
        let access_token_key_time = fields.pop().unwrap();
        let access_token_key_unit = fields.pop().unwrap();
        let app_name = fields.pop().unwrap();
        let record = Paseto {
            app_name,
            access_token_key_unit,
            access_token_key_time,
            access_token_key_signing,
            refresh_token_key_unit,
            refresh_token_key_time,
            refresh_token_key_signing,
        };
        record
    }
}

impl IsEmpty for Paseto {
    fn is_empty(&self) -> (empty: bool)
        ensures
            empty == self@.is_empty(),
            empty == all_absent(self@.fields()),
    {
        self.app_name.is_none()
            && self.access_token_key_unit.is_none()
            && self.access_token_key_time.is_none()
            && self.access_token_key_signing.is_none()
            && self.refresh_token_key_unit.is_none()
            && self.refresh_token_key_time.is_none()
            && self.refresh_token_key_signing.is_none()
    }
}

impl Encrypt for Paseto {
    /// Seals every field that can be sealed under the master key. The
    /// result is `None` exactly when the record is empty.
    fn encrypt(&self, keys: &Keystore) -> (sealed: Option<Paseto>)
        ensures
            self@.sealed_as(
                keys.key(Role::Master),
                match sealed {
                    Some(record) => Some(record@),
                    None => None,
                },
            ),
    {
        let sealed = seal_fields(&self.get_ciphers(), keys);
        let data = self.with_ciphers(sealed);
        if data.is_empty() {
            None
        } else {
            Some(data)
        }
    }
}

impl Decrypt for Paseto {
    /// Opens every field that opens under the master key. The result is
    /// `None` exactly when the record is empty.
    fn decrypt(&self, keys: &Keystore) -> (opened: Option<Paseto>)
        ensures
            self@.opened(keys.key(Role::Master)) == (match opened {
                Some(record) => Some(record@),
                None => None,
            }),
    {
        let opened = open_fields(&self.get_ciphers(), keys);
        let data = self.with_ciphers(opened);
        if data.is_empty() {
            None
        } else {
            Some(data)
        }
    }
}

impl Paseto {
    /// The settings of a new application `value`: plain fields with fresh
    /// signing keys, access tokens that live five minutes and refresh tokens
    /// that live thirty.
    pub fn from(value: String) -> (paseto: Paseto)
        ensures
            paseto@.is_fresh(value@),
    {
        let access = generate();
        let refresh = generate();
        Paseto {
            app_name: plain_field(value.as_str()),
            access_token_key_unit: plain_field("5"),
            access_token_key_time: plain_field("Minutes"),
            access_token_key_signing: plain_field(access.as_str()),
            refresh_token_key_unit: plain_field("30"),
            refresh_token_key_time: plain_field("Minutes"),
            refresh_token_key_signing: plain_field(refresh.as_str()),
        }
    }

    /// Sealing the settings of a new application with a name under a usable
    /// key marks all seven fields as encrypted, and opening what was sealed
    /// under the same key restores the content of all seven, marked as not
    /// encrypted.
    pub proof fn lemma_fresh_settings_round_trip(
        fresh: PasetoView,
        name: Seq<char>,
        key: Seq<u8>,
        sealed: PasetoView,
    )
        requires
            fresh.is_fresh(name),
            name.len() > 0,
            fresh.sealed_as(Some(key), Some(sealed)),
        ensures
            all_marked(sealed.fields(), true),
            sealed.opened(Some(key)) matches Some(opened) && all_marked(opened.fields(), false)
                && same_contents(opened.fields(), fresh.fields()),
    {
        reveal_strlit("5");
        reveal_strlit("30");
        reveal_strlit("Minutes");
        let before = fresh.fields();
        let after = sealed.fields();
        let opened = sealed.opened_into(Some(key));
        sealed.lemma_opened_fields(Some(key));
        assert forall|i: int| 0 <= i < after.len() implies (match #[trigger] after[i] {
            Some(cipher) => cipher.is_encrypted == Some(true),
            None => false,
        }) by {
            lemma_sealed_fields_are_marked(before, Some(key), after, i);
        }
        assert forall|i: int| 0 <= i < opened.fields().len() implies (match #[trigger] opened.fields()[i] {
            Some(cipher) => cipher.is_encrypted == Some(false),
            None => false,
        }) by {
            lemma_opening_restores_sealed_fields(before, key, after, i);
        }
        assert forall|i: int| 0 <= i < opened.fields().len() implies or_empty(
            #[trigger] opened.fields()[i],
        ).content == or_empty(before[i]).content by {
            lemma_opening_restores_sealed_fields(before, key, after, i);
        }
        assert(after[0] is Some);
    }

    /// The settings to start with, given the latest stored entry of the
    /// module, if there is one: the record of the entry, opened, or `None`
    /// where there is nothing to open and the module has to be set up.
    pub fn stage(entry: Option<&Settings>, keys: &Keystore) -> (record: Option<Paseto>)
        ensures
            (match record {
                Some(paseto) => Some(paseto@),
                None => None,
            }) == (match entry {
                Some(settings) => PasetoView::or_empty(settings@.paseto).opened(
                    keys.key(Role::Master),
                ),
                None => None,
            }),
    {
        match entry {
            Some(settings) => match &settings.paseto {
                Some(record) => record.decrypt(keys),
                None => Paseto::default().decrypt(keys),
            },
            None => None,
        }
    }

    /// The entry to store for a new application `name`: fresh settings,
    /// sealed, under a fresh identifier and the tag of the module.
    pub fn setup(name: &str, keys: &Keystore) -> (entry: Settings)
        ensures
            entry@.id.len() == ID_LENGTH,
            entry@.module == Some(Module::Paseto),
            entry@.base is None && entry@.mailer is None && entry@.s3 is None,
            exists|fresh: PasetoView| #[trigger]
                fresh.is_fresh(name@) && fresh.sealed_as(keys.key(Role::Master), entry@.paseto),
    {
        let paseto = Paseto::from(name.to_owned());
        match Settings::from(paseto).encrypt(keys) {
            Some(entry) => entry,
            None => Settings::default(),
        }
    }

    /// The settings in force after `setup`: those of the entry, opened,
    /// where the entry was stored, and the empty settings where it was not.
    pub fn installed(entry: &Settings, stored: bool, keys: &Keystore) -> (record: Paseto)
        ensures
            record@ == (if stored {
                match entry@.opened(keys.key(Role::Master)) {
                    Some(settings) => PasetoView::or_empty(settings.paseto),
                    None => PasetoView::empty(),
                }
            } else {
                PasetoView::empty()
            }),
    {
        if stored {
            if let Some(settings) = entry.decrypt(keys) {
                if let Some(paseto) = settings.paseto {
                    return paseto;
                }
            }
        }
        Paseto::default()
    }
}

} // verus!
