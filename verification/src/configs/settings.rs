//! The envelope in which configuration records are stored.
//!
//! An entry carries an identifier, the tag of the module it configures, the
//! record of that module, and the instants of its creation and last change.
//! Before an entry is written its records are sealed, and after it is read
//! they are opened.

use vstd::prelude::*;
use crate::clock::{now, Timestamp};
use crate::configs::base::{Base, BaseView};
use crate::configs::modules::Module;
use crate::keystore::{Keystore, Role};
use crate::mailers::{Mailer, MailerView};
use crate::paseto::{Paseto, PasetoView};
use crate::s3::{S3View, S3};
use crate::traits::{Decrypt, Encrypt, IsEmpty};

verus! {

/// Length of the identifier of a new entry.
pub const ID_LENGTH: usize = 21;

/// One stored settings entry.
#[derive(Debug, PartialEq)]
pub struct Settings {
    pub id: String,
    pub base: Option<Base>,
    pub mailer: Option<Mailer>,
    pub paseto: Option<Paseto>,
    pub s3: Option<S3>,
    pub module: Option<Module>,
    pub created_at: Option<Timestamp>,
    pub updated_at: Option<Timestamp>,
}

/// A settings entry as a mathematical value.
pub struct SettingsView {
    pub id: Seq<char>,
    pub base: Option<BaseView>,
    pub mailer: Option<MailerView>,
    pub paseto: Option<PasetoView>,
    pub s3: Option<S3View>,
    pub module: Option<Module>,
    pub created_at: Option<Timestamp>,
    pub updated_at: Option<Timestamp>,
}

impl SettingsView {
    /// Whether the entry has no identifier and nothing else set.
    pub open spec fn is_empty(self) -> bool {
        self.id.len() == 0 && self.base is None && self.mailer is None && self.paseto is None
            && self.s3 is None && self.module is None && self.created_at is None
            && self.updated_at is None
    }

    /// Whether the two entries agree in all but their records.
    pub open spec fn same_frame(self, other: SettingsView) -> bool {
        self.id == other.id && self.module == other.module && self.created_at == other.created_at
            && self.updated_at == other.updated_at
    }

    /// `data` is what sealing makes of the records of the entry: each
    /// record sealed, and dropped where it is empty.
    pub open spec fn sealed_into(self, key: Option<Seq<u8>>, data: SettingsView) -> bool {
        &&& self.same_frame(data)
        &&& BaseView::or_empty(self.base).sealed_as(key, data.base)
        &&& MailerView::or_empty(self.mailer).sealed_as(key, data.mailer)
        &&& PasetoView::or_empty(self.paseto).sealed_as(key, data.paseto)
        &&& S3View::or_empty(self.s3).sealed_as(key, data.s3)
    }

    /// `after` is what sealing makes of the entry: nothing where nothing is
    /// left in it, and otherwise the entry with its records sealed.
    pub open spec fn sealed_as(self, key: Option<Seq<u8>>, after: Option<SettingsView>) -> bool {
        match after {
            Some(data) => self.sealed_into(key, data) && !data.is_empty(),
            None => {
                &&& self.id.len() == 0
                &&& self.module is None
                &&& self.created_at is None
                &&& self.updated_at is None
                &&& BaseView::or_empty(self.base).is_empty()
                &&& MailerView::or_empty(self.mailer).is_empty()
                &&& PasetoView::or_empty(self.paseto).is_empty()
                &&& S3View::or_empty(self.s3).is_empty()
            },
        }
    }

    /// What opening makes of the records of the entry: each record opened,
    /// and dropped where it is empty.
    pub open spec fn opened_into(self, key: Option<Seq<u8>>) -> SettingsView {
        SettingsView {
            base: BaseView::or_empty(self.base).opened(key),
            mailer: MailerView::or_empty(self.mailer).opened(key),
            paseto: PasetoView::or_empty(self.paseto).opened(key),
            s3: S3View::or_empty(self.s3).opened(key),
            ..self
        }
    }

    /// What opening makes of the entry: nothing where nothing is left in
    /// it, and otherwise the entry with its records opened.
    pub open spec fn opened(self, key: Option<Seq<u8>>) -> Option<SettingsView> {
        if self.opened_into(key).is_empty() {
            None
        } else {
            Some(self.opened_into(key))
        }
    }
}

/// A record as a mathematical value.
pub open spec fn base_view(record: Option<Base>) -> Option<BaseView> {
    match record {
        Some(base) => Some(base@),
        None => None,
    }
}

/// A record as a mathematical value.
pub open spec fn mailer_view(record: Option<Mailer>) -> Option<MailerView> {
    match record {
        Some(mailer) => Some(mailer@),
        None => None,
    }
}

/// A record as a mathematical value.
pub open spec fn paseto_view(record: Option<Paseto>) -> Option<PasetoView> {
    match record {
        Some(paseto) => Some(paseto@),
        None => None,
    }
}

/// A record as a mathematical value.
pub open spec fn s3_view(record: Option<S3>) -> Option<S3View> {
    match record {
        Some(s3) => Some(s3@),
        None => None,
    }
}

impl View for Settings {
    type V = SettingsView;

    open spec fn view(&self) -> SettingsView {
        SettingsView {
            id: self.id@,
            base: base_view(self.base),
            mailer: mailer_view(self.mailer),
            paseto: paseto_view(self.paseto),
            s3: s3_view(self.s3),
            module: self.module,
            created_at: self.created_at,
            updated_at: self.updated_at,
        }
    }
}

/// Draws an identifier with `nanoid::format` from the URL-safe alphabet.
/// Trusted: it has 21 characters; nothing is claimed of which.
#[verifier::external_body]
fn fresh_id() -> (id: String)
    ensures
        id@.len() == ID_LENGTH,
{
    nanoid::format(nanoid::rngs::default, &nanoid::alphabet::SAFE, 21)
}

fn copy_base(record: &Option<Base>) -> (copy: Option<Base>)
    ensures
        copy == *record,
{
    match record {
        Some(base) => Some(base.clone()),
        None => None,
    }
}

fn copy_mailer(record: &Option<Mailer>) -> (copy: Option<Mailer>)
    ensures
        copy == *record,
{
    match record {
        Some(mailer) => Some(mailer.clone()),
        None => None,
    }
}

fn copy_paseto(record: &Option<Paseto>) -> (copy: Option<Paseto>)
    ensures
        copy == *record,
{
    match record {
        Some(paseto) => Some(paseto.clone()),
        None => None,
    }
}

fn copy_s3(record: &Option<S3>) -> (copy: Option<S3>)
    ensures
        copy == *record,
{
    match record {
        Some(s3) => Some(s3.clone()),
        None => None,
    }
}

impl Clone for Settings {
    fn clone(&self) -> (copy: Settings)
        ensures
            copy == *self,
    {
        Settings {
            id: self.id.clone(),
            base: copy_base(&self.base),
            mailer: copy_mailer(&self.mailer),
            paseto: copy_paseto(&self.paseto),
            s3: copy_s3(&self.s3),
            module: self.module,
            created_at: self.created_at,
            updated_at: self.updated_at,
        }
    }
}

impl Default for Settings {
    fn default() -> (settings: Settings)
        ensures
            settings@.is_empty(),
    {
        Settings {
            id: String::new(),
            base: None,
            mailer: None,
            paseto: None,
            s3: None,
            module: None,
            created_at: None,
            updated_at: None,
        }
    }
}

impl IsEmpty for Settings {
    fn is_empty(&self) -> (empty: bool)
        ensures
            empty == self@.is_empty(),
    {
        self.id.as_str().is_empty() && self.base.is_none() && self.mailer.is_none()
            && self.paseto.is_none() && self.s3.is_none() && self.module.is_none()
            && self.created_at.is_none() && self.updated_at.is_none()
    }
}

impl Encrypt for Settings {
    /// Seals the records of the entry under the master key. A record that
    /// is absent or empty is absent afterwards. The result is `None` exactly
    /// when nothing is left in the entry.
    fn encrypt(&self, keys: &Keystore) -> (sealed: Option<Settings>)
        ensures
            self@.sealed_as(
                keys.key(Role::Master),
                match sealed {
                    Some(settings) => Some(settings@),
                    None => None,
                },
            ),
    {
        let data = Settings {
            id: self.id.clone(),
            base: match &self.base {
                Some(base) => base.encrypt(keys),
                None => Base::default().encrypt(keys),
            },
            mailer: match &self.mailer {
                Some(mailer) => mailer.encrypt(keys),
                None => Mailer::default().encrypt(keys),
            },
            paseto: match &self.paseto {
                Some(paseto) => paseto.encrypt(keys),
                None => Paseto::default().encrypt(keys),
            },
            s3: match &self.s3 {
                Some(s3) => s3.encrypt(keys),
                None => S3::default().encrypt(keys),
            },
            module: self.module,
            created_at: self.created_at,
            updated_at: self.updated_at,
        };
        if data.is_empty() {
            None
        } else {
            Some(data)
        }
    }
}

impl Decrypt for Settings {
    /// Opens the records of the entry under the master key. A record that
    /// is absent or empty is absent afterwards. The result is `None` exactly
    /// when nothing is left in the entry.
    fn decrypt(&self, keys: &Keystore) -> (opened: Option<Settings>)
        ensures
            self@.opened(keys.key(Role::Master)) == (match opened {
                Some(settings) => Some(settings@),
                None => None,
            }),
    {
        let data = Settings {
            id: self.id.clone(),
            base: match &self.base {
                Some(base) => base.decrypt(keys),
                None => Base::default().decrypt(keys),
            },
            mailer: match &self.mailer {
                Some(mailer) => mailer.decrypt(keys),
                None => Mailer::default().decrypt(keys),
            },
            paseto: match &self.paseto {
                Some(paseto) => paseto.decrypt(keys),
                None => Paseto::default().decrypt(keys),
            },
            s3: match &self.s3 {
                Some(s3) => s3.decrypt(keys),
                None => S3::default().decrypt(keys),
            },
            module: self.module,
            created_at: self.created_at,
            updated_at: self.updated_at,
        };
        if data.is_empty() {
            None
        } else {
            Some(data)
        }
    }
}

impl Settings {
    /// The entry for the token-signing record `paseto`, with the identifier
    /// and the instants given: the record where it is not empty, and the tag
    /// of its module.
    pub fn with_paseto(
        paseto: Paseto,
        id: String,
        created_at: Timestamp,
        updated_at: Timestamp,
    ) -> (settings: Settings)
        ensures
            settings@ == (SettingsView {
                id: id@,
                base: None,
                mailer: None,
                paseto: if paseto@.is_empty() {
                    None
                } else {
                    Some(paseto@)
                },
                s3: None,
                module: Some(Module::Paseto),
                created_at: Some(created_at),
                updated_at: Some(updated_at),
            }),
    {
        let paseto = if paseto.is_empty() {
            None
        } else {
            Some(paseto)
        };
        Settings {
            id,
            base: None,
            mailer: None,
            paseto,
            s3: None,
            module: Some(Module::Paseto),
            created_at: Some(created_at),
            updated_at: Some(updated_at),
        }
    }

    /// A new entry for the token-signing record `paseto`, with a fresh
    /// identifier and the present as the instant of creation and of the last
    /// change.
    pub fn from(paseto: Paseto) -> (settings: Settings)
        ensures
            settings@.id.len() == ID_LENGTH,
            settings@.module == Some(Module::Paseto),
            settings@.paseto == (if paseto@.is_empty() {
                None
            } else {
                Some(paseto@)
            }),
            settings@.base is None && settings@.mailer is None && settings@.s3 is None,
            settings@.created_at is Some && settings@.updated_at is Some,
    {
        let id = fresh_id();
        let created_at = now();
        let updated_at = now();
        Settings::with_paseto(paseto, id, created_at, updated_at)
    }

    /// The entry as it is handed back once it has been stored: with its
    /// records opened, or as it is where nothing is left after opening.
    pub fn created(&self, keys: &Keystore) -> (settings: Settings)
        ensures
            settings@ == (match self@.opened(keys.key(Role::Master)) {
                Some(opened) => opened,
                None => self@,
            }),
    {
        match self.decrypt(keys) {
            Some(settings) => settings,
            None => self.clone(),
        }
    }
}

} // verus!
