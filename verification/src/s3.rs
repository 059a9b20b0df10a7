//! The object store in which files are kept.

use vstd::prelude::*;
use crate::ciphers::cipher::{Cipher, CipherView};
use crate::ciphers::fields::sealed_fields;
use crate::ciphers::fields::{all_absent, field_view, opened_field, opened_fields};
use crate::ciphers::fields::{copy_field, fields_view, open_fields, seal_fields};
use crate::configs::settings::Settings;
use crate::keystore::{Keystore, Role};
use crate::traits::{Decrypt, Encrypt, IsEmpty};

verus! {

/// Credentials and location of the bucket, and the sizes to which images are cut.
#[derive(Debug, PartialEq)]
pub struct S3 {
    pub access_key_id: Option<Cipher>,
    pub secret_access_key: Option<Cipher>,
    pub bucket: Option<Cipher>,
    pub path: Option<Cipher>,
    pub region: Option<Cipher>,
    pub image_thumbnail_small_size: Option<i32>,
    pub image_thumbnail_medium_size: Option<i32>,
    pub image_thumbnail_large_size: Option<i32>,
    pub image_thumbnail_xl_size: Option<i32>,
    pub image_landscape_width_small_size: Option<i32>,
    pub image_landscape_height_small_size: Option<i32>,
    pub image_landscape_width_medium_size: Option<i32>,
    pub image_landscape_height_medium_size: Option<i32>,
    pub image_landscape_width_large_size: Option<i32>,
    pub image_landscape_height_large_size: Option<i32>,
    pub image_landscape_width_xl_size: Option<i32>,
    pub image_landscape_height_xl_size: Option<i32>,
    pub image_landscape_width_xxl_size: Option<i32>,
    pub image_landscape_height_xxl_size: Option<i32>,
    pub image_landscape_width_xxxl_size: Option<i32>,
    pub image_landscape_height_xxxl_size: Option<i32>,
}

/// An `S3` record as a mathematical value.
pub struct S3View {
    pub access_key_id: Option<CipherView>,
    pub secret_access_key: Option<CipherView>,
    pub bucket: Option<CipherView>,
    pub path: Option<CipherView>,
    pub region: Option<CipherView>,
    pub image_thumbnail_small_size: Option<i32>,
    pub image_thumbnail_medium_size: Option<i32>,
    pub image_thumbnail_large_size: Option<i32>,
    pub image_thumbnail_xl_size: Option<i32>,
    pub image_landscape_width_small_size: Option<i32>,
    pub image_landscape_height_small_size: Option<i32>,
    pub image_landscape_width_medium_size: Option<i32>,
    pub image_landscape_height_medium_size: Option<i32>,
    pub image_landscape_width_large_size: Option<i32>,
    pub image_landscape_height_large_size: Option<i32>,
    pub image_landscape_width_xl_size: Option<i32>,
    pub image_landscape_height_xl_size: Option<i32>,
    pub image_landscape_width_xxl_size: Option<i32>,
    pub image_landscape_height_xxl_size: Option<i32>,
    pub image_landscape_width_xxxl_size: Option<i32>,
    pub image_landscape_height_xxxl_size: Option<i32>,
}

impl S3View {
    /// The protected fields of the record.
    pub open spec fn fields(self) -> Seq<Option<CipherView>> {
        seq![
            self.access_key_id,
            self.secret_access_key,
            self.bucket,
            self.path,
            self.region,
        ]
    }

    /// The image sizes of the record, which are stored in the clear.
    pub open spec fn sizes(self) -> Seq<Option<i32>> {
        seq![
            self.image_thumbnail_small_size,
            self.image_thumbnail_medium_size,
            self.image_thumbnail_large_size,
            self.image_thumbnail_xl_size,
            self.image_landscape_width_small_size,
            self.image_landscape_height_small_size,
            self.image_landscape_width_medium_size,
            self.image_landscape_height_medium_size,
            self.image_landscape_width_large_size,
            self.image_landscape_height_large_size,
            self.image_landscape_width_xl_size,
            self.image_landscape_height_xl_size,
            self.image_landscape_width_xxl_size,
            self.image_landscape_height_xxl_size,
            self.image_landscape_width_xxxl_size,
            self.image_landscape_height_xxxl_size,
        ]
    }

    /// The record with nothing set.
    pub open spec fn empty() -> S3View {
        S3View {
            access_key_id: None,
            secret_access_key: None,
            bucket: None,
            path: None,
            region: None,
            image_thumbnail_small_size: None,
            image_thumbnail_medium_size: None,
            image_thumbnail_large_size: None,
            image_thumbnail_xl_size: None,
            image_landscape_width_small_size: None,
            image_landscape_height_small_size: None,
            image_landscape_width_medium_size: None,
            image_landscape_height_medium_size: None,
            image_landscape_width_large_size: None,
            image_landscape_height_large_size: None,
            image_landscape_width_xl_size: None,
            image_landscape_height_xl_size: None,
            image_landscape_width_xxl_size: None,
            image_landscape_height_xxl_size: None,
            image_landscape_width_xxxl_size: None,
            image_landscape_height_xxxl_size: None,
        }
    }

    /// The record, or the empty one where there is none.
    pub open spec fn or_empty(record: Option<S3View>) -> S3View {
        match record {
            Some(record) => record,
            None => S3View::empty(),
        }
    }

    /// Whether nothing in the record is set.
    pub open spec fn is_empty(self) -> bool {
        self.access_key_id is None
            && self.secret_access_key is None
            && self.bucket is None
            && self.path is None
            && self.region is None
            && self.image_thumbnail_small_size is None
            && self.image_thumbnail_medium_size is None
            && self.image_thumbnail_large_size is None
            && self.image_thumbnail_xl_size is None
            && self.image_landscape_width_small_size is None
            && self.image_landscape_height_small_size is None
            && self.image_landscape_width_medium_size is None
            && self.image_landscape_height_medium_size is None
            && self.image_landscape_width_large_size is None
            && self.image_landscape_height_large_size is None
            && self.image_landscape_width_xl_size is None
            && self.image_landscape_height_xl_size is None
            && self.image_landscape_width_xxl_size is None
            && self.image_landscape_height_xxl_size is None
            && self.image_landscape_width_xxxl_size is None
            && self.image_landscape_height_xxxl_size is None
    }

    /// `after` is what sealing makes of the record: nothing where the
    /// record is empty, and otherwise the record with each field sealed
    /// that can be, and the same sizes.
    pub open spec fn sealed_as(self, key: Option<Seq<u8>>, after: Option<S3View>) -> bool {
        match after {
            Some(record) => {
                &&& !self.is_empty()
                &&& sealed_fields(self.fields(), key, record.fields())
                &&& record.sizes() == self.sizes()
            },
            None => self.is_empty(),
        }
    }

    /// What opening makes of the record: nothing where the record is
    /// empty, and otherwise the record with each field opened that opens,
    /// and the same sizes.
    pub open spec fn opened(self, key: Option<Seq<u8>>) -> Option<S3View> {
        if self.is_empty() {
            None
        } else {
            Some(self.opened_into(key))
        }
    }

    /// The record with each field opened that opens, and the same sizes.
    pub open spec fn opened_into(self, key: Option<Seq<u8>>) -> S3View {
        S3View {
            access_key_id: opened_field(self.access_key_id, key),
            secret_access_key: opened_field(self.secret_access_key, key),
            bucket: opened_field(self.bucket, key),
            path: opened_field(self.path, key),
            region: opened_field(self.region, key),
            ..self
        }
    }

    /// Opening a record opens its protected fields one by one and keeps
    /// its sizes.
    pub proof fn lemma_opened_fields(self, key: Option<Seq<u8>>)
        ensures
            self.opened_into(key).fields() == opened_fields(self.fields(), key),
            self.opened_into(key).sizes() == self.sizes(),
            self.opened_into(key).is_empty() == self.is_empty(),
    {
        assert(self.opened_into(key).fields() =~= opened_fields(self.fields(), key));
        assert(self.opened_into(key).sizes() =~= self.sizes());
    }
}

impl View for S3 {
    type V = S3View;

    open spec fn view(&self) -> S3View {
        S3View {
            access_key_id: field_view(self.access_key_id),
            secret_access_key: field_view(self.secret_access_key),
            bucket: field_view(self.bucket),
            path: field_view(self.path),
            region: field_view(self.region),
            image_thumbnail_small_size: self.image_thumbnail_small_size,
            image_thumbnail_medium_size: self.image_thumbnail_medium_size,
            image_thumbnail_large_size: self.image_thumbnail_large_size,
            image_thumbnail_xl_size: self.image_thumbnail_xl_size,
            image_landscape_width_small_size: self.image_landscape_width_small_size,
            image_landscape_height_small_size: self.image_landscape_height_small_size,
            image_landscape_width_medium_size: self.image_landscape_width_medium_size,
            image_landscape_height_medium_size: self.image_landscape_height_medium_size,
            image_landscape_width_large_size: self.image_landscape_width_large_size,
            image_landscape_height_large_size: self.image_landscape_height_large_size,
            image_landscape_width_xl_size: self.image_landscape_width_xl_size,
            image_landscape_height_xl_size: self.image_landscape_height_xl_size,
            image_landscape_width_xxl_size: self.image_landscape_width_xxl_size,
            image_landscape_height_xxl_size: self.image_landscape_height_xxl_size,
            image_landscape_width_xxxl_size: self.image_landscape_width_xxxl_size,
            image_landscape_height_xxxl_size: self.image_landscape_height_xxxl_size,
        }
    }
}

impl Clone for S3 {
    fn clone(&self) -> (copy: S3)
        ensures
            copy == *self,
    {
        S3 {
            access_key_id: copy_field(&self.access_key_id),
            secret_access_key: copy_field(&self.secret_access_key),
            bucket: copy_field(&self.bucket),
            path: copy_field(&self.path),
            region: copy_field(&self.region),
            image_thumbnail_small_size: self.image_thumbnail_small_size,
            image_thumbnail_medium_size: self.image_thumbnail_medium_size,
            image_thumbnail_large_size: self.image_thumbnail_large_size,
            image_thumbnail_xl_size: self.image_thumbnail_xl_size,
            image_landscape_width_small_size: self.image_landscape_width_small_size,
            image_landscape_height_small_size: self.image_landscape_height_small_size,
            image_landscape_width_medium_size: self.image_landscape_width_medium_size,
            image_landscape_height_medium_size: self.image_landscape_height_medium_size,
            image_landscape_width_large_size: self.image_landscape_width_large_size,
            image_landscape_height_large_size: self.image_landscape_height_large_size,
            image_landscape_width_xl_size: self.image_landscape_width_xl_size,
            image_landscape_height_xl_size: self.image_landscape_height_xl_size,
            image_landscape_width_xxl_size: self.image_landscape_width_xxl_size,
            image_landscape_height_xxl_size: self.image_landscape_height_xxl_size,
            image_landscape_width_xxxl_size: self.image_landscape_width_xxxl_size,
            image_landscape_height_xxxl_size: self.image_landscape_height_xxxl_size,
        }
    }
}

impl Default for S3 {
    fn default() -> (record: S3)
        ensures
            record@ == S3View::empty(),
    {
        S3 {
            access_key_id: None,
            secret_access_key: None,
            bucket: None,
            path: None,
            region: None,
            image_thumbnail_small_size: None,
            image_thumbnail_medium_size: None,
            image_thumbnail_large_size: None,
            image_thumbnail_xl_size: None,
            image_landscape_width_small_size: None,
            image_landscape_height_small_size: None,
            image_landscape_width_medium_size: None,
            image_landscape_height_medium_size: None,
            image_landscape_width_large_size: None,
            image_landscape_height_large_size: None,
            image_landscape_width_xl_size: None,
            image_landscape_height_xl_size: None,
            image_landscape_width_xxl_size: None,
            image_landscape_height_xxl_size: None,
            image_landscape_width_xxxl_size: None,
            image_landscape_height_xxxl_size: None,
        }
    }
}

impl S3 {
    /// The protected fields of the record, each once.
    pub fn get_ciphers(&self) -> (fields: Vec<Option<Cipher>>)
        ensures
            fields_view(fields@) == self@.fields(),
    {
        let mut fields: Vec<Option<Cipher>> = Vec::new();
        fields.push(copy_field(&self.access_key_id));
        fields.push(copy_field(&self.secret_access_key));
        fields.push(copy_field(&self.bucket));
        fields.push(copy_field(&self.path));
        fields.push(copy_field(&self.region));
        fields
    }

    /// The record with the given protected fields and its own sizes.
    fn with_ciphers(&self, fields: Vec<Option<Cipher>>) -> (record: S3)
        requires
            fields.len() == 5,
        ensures
            record@.fields() == fields_view(fields@),
            record@.sizes() == self@.sizes(),
    {
        let mut fields = fields;
        let region = fields.pop().unwrap();
        let path = fields.pop().unwrap();
        let bucket = fields.pop().unwrap();
        let secret_access_key = fields.pop().unwrap();
        let access_key_id = fields.pop().unwrap();
        let record = S3 {
            access_key_id,
            secret_access_key,
            bucket,
            path,
            region,
            image_thumbnail_small_size: self.image_thumbnail_small_size,
            image_thumbnail_medium_size: self.image_thumbnail_medium_size,
            image_thumbnail_large_size: self.image_thumbnail_large_size,
            image_thumbnail_xl_size: self.image_thumbnail_xl_size,
            image_landscape_width_small_size: self.image_landscape_width_small_size,
            image_landscape_height_small_size: self.image_landscape_height_small_size,
            image_landscape_width_medium_size: self.image_landscape_width_medium_size,
            image_landscape_height_medium_size: self.image_landscape_height_medium_size,
            image_landscape_width_large_size: self.image_landscape_width_large_size,
            image_landscape_height_large_size: self.image_landscape_height_large_size,
            image_landscape_width_xl_size: self.image_landscape_width_xl_size,
            image_landscape_height_xl_size: self.image_landscape_height_xl_size,
            image_landscape_width_xxl_size: self.image_landscape_width_xxl_size,
            image_landscape_height_xxl_size: self.image_landscape_height_xxl_size,
            image_landscape_width_xxxl_size: self.image_landscape_width_xxxl_size,
            image_landscape_height_xxxl_size: self.image_landscape_height_xxxl_size,
        };
        record
    }
}

impl IsEmpty for S3 {
    fn is_empty(&self) -> (empty: bool)
        ensures
            empty == self@.is_empty(),
            empty ==> all_absent(self@.fields()),
    {
        self.access_key_id.is_none()
            && self.secret_access_key.is_none()
            && self.bucket.is_none()
            && self.path.is_none()
            && self.region.is_none()
            && self.image_thumbnail_small_size.is_none()
            && self.image_thumbnail_medium_size.is_none()
            && self.image_thumbnail_large_size.is_none()
            && self.image_thumbnail_xl_size.is_none()
            && self.image_landscape_width_small_size.is_none()
            && self.image_landscape_height_small_size.is_none()
            && self.image_landscape_width_medium_size.is_none()
            && self.image_landscape_height_medium_size.is_none()
            && self.image_landscape_width_large_size.is_none()
            && self.image_landscape_height_large_size.is_none()
            && self.image_landscape_width_xl_size.is_none()
            && self.image_landscape_height_xl_size.is_none()
            && self.image_landscape_width_xxl_size.is_none()
            && self.image_landscape_height_xxl_size.is_none()
            && self.image_landscape_width_xxxl_size.is_none()
            && self.image_landscape_height_xxxl_size.is_none()
    }
}

impl Encrypt for S3 {
    /// Seals every field that can be sealed under the master key and keeps
    /// the sizes. The
    /// result is `None` exactly when the record is empty.
    fn encrypt(&self, keys: &Keystore) -> (sealed: Option<S3>)
        ensures
            self@.sealed_as(
                keys.key(Role::Master),
                match sealed {
                    Some(record) => Some(record@),
                    None => None,
                },
            ),
    {
        let sealed = seal_fields(&self.get_ciphers(), keys);
        let data = self.with_ciphers(sealed);
        if data.is_empty() {
            None
        } else {
            Some(data)
        }
    }
}

impl Decrypt for S3 {
    /// Opens every field that opens under the master key and keeps the
    /// sizes. The result is
    /// `None` exactly when the record is empty.
    fn decrypt(&self, keys: &Keystore) -> (opened: Option<S3>)
        ensures
            self@.opened(keys.key(Role::Master)) == (match opened {
                Some(record) => Some(record@),
                None => None,
            }),
    {
        let opened = open_fields(&self.get_ciphers(), keys);
        let data = self.with_ciphers(opened);
        if data.is_empty() {
            None
        } else {
            Some(data)
        }
    }
}

impl S3 {
    /// The record to start with, given the latest stored entry of the
    /// module, if there is one: the record of the entry, opened, or the empty
    /// record where the entry has none or nothing is left of it.
    pub fn stage(entry: Option<&Settings>, keys: &Keystore) -> (record: S3)
        ensures
            record@ == (match entry {
                Some(settings) => match S3View::or_empty(settings@.s3).opened(
                    keys.key(Role::Master),
                ) {
                    Some(opened) => opened,
                    None => S3View::empty(),
                },
                None => S3View::empty(),
            }),
    {
        if let Some(settings) = entry {
            let stored = match &settings.s3 {
                Some(record) => record.decrypt(keys),
                None => S3::default().decrypt(keys),
            };
            if let Some(data) = stored {
                return data;
            }
        }
        S3::default()
    }
}

} // verus!
