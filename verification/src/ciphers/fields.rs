//! Sealing and opening of the protected fields of a record, one by one.
//!
//! A record's fields are transformed independently and under the master
//! key. A field that cannot be transformed keeps its value: one field that
//! is malformed or already in the wanted state does not stop the others.

use vstd::prelude::*;
use crate::ciphers::action::Action;
use crate::ciphers::cipher::{is_sealing, text_of, unsealed, Cipher, CipherView};
use crate::keystore::{Keystore, Role};

verus! {

/// An optional protected field as a mathematical value.
pub open spec fn field_view(field: Option<Cipher>) -> Option<CipherView> {
    match field {
        Some(cipher) => Some(cipher@),
        None => None,
    }
}

/// The field itself, or the empty field where there is none.
pub open spec fn or_empty(field: Option<CipherView>) -> CipherView {
    match field {
        Some(cipher) => cipher,
        None => CipherView::empty(),
    }
}

/// `after` is what sealing makes of the field `before`: an envelope that
/// opens to it again, where the field can be sealed and the key is usable,
/// and the field unchanged otherwise.
pub open spec fn sealed_field(
    before: Option<CipherView>,
    key: Option<Seq<u8>>,
    after: Option<CipherView>,
) -> bool {
    match key {
        Some(k) => if or_empty(before).is_ready(Action::Encrypt) {
            match after {
                Some(c) => is_sealing(or_empty(before), Some(k), Ok(c)),
                None => false,
            }
        } else {
            after == before
        },
        None => after == before,
    }
}

/// What opening makes of the field `before`: the opened field where the
/// envelope opens, and the field unchanged otherwise.
pub open spec fn opened_field(before: Option<CipherView>, key: Option<Seq<u8>>) -> Option<
    CipherView,
> {
    match unsealed(or_empty(before), key) {
        Ok(opened) => Some(opened),
        Err(_) => before,
    }
}

/// Field by field, `after` is what sealing makes of `before`.
pub open spec fn sealed_fields(
    before: Seq<Option<CipherView>>,
    key: Option<Seq<u8>>,
    after: Seq<Option<CipherView>>,
) -> bool {
    before.len() == after.len() && forall|i: int|
        0 <= i < before.len() ==> sealed_field(#[trigger] before[i], key, after[i])
}

/// Field by field, what opening makes of `before`.
pub open spec fn opened_fields(before: Seq<Option<CipherView>>, key: Option<Seq<u8>>) -> Seq<
    Option<CipherView>,
> {
    Seq::new(before.len(), |i: int| opened_field(before[i], key))
}

/// No field of the list is set.
pub open spec fn all_absent(fields: Seq<Option<CipherView>>) -> bool {
    forall|i: int| 0 <= i < fields.len() ==> (#[trigger] fields[i]) is None
}

/// Every field of the list is set and carries the mark `mark`.
pub open spec fn all_marked(fields: Seq<Option<CipherView>>, mark: bool) -> bool {
    forall|i: int|
        0 <= i < fields.len() ==> match #[trigger] fields[i] {
            Some(cipher) => cipher.is_encrypted == Some(mark),
            None => false,
        }
}

/// Field by field, the two lists hold the same content.
pub open spec fn same_contents(
    left: Seq<Option<CipherView>>,
    right: Seq<Option<CipherView>>,
) -> bool {
    left.len() == right.len() && forall|i: int|
        0 <= i < left.len() ==> or_empty(#[trigger] left[i]).content == or_empty(right[i]).content
}

/// The fields of a record as mathematical values.
pub open spec fn fields_view(fields: Seq<Option<Cipher>>) -> Seq<Option<CipherView>> {
    Seq::new(fields.len(), |i: int| field_view(fields[i]))
}

/// A copy of an optional field.
pub fn copy_field(field: &Option<Cipher>) -> (copy: Option<Cipher>)
    ensures
        copy == *field,
{
    match field {
        Some(cipher) => Some(cipher.clone()),
        None => None,
    }
}

/// A plain field that holds `content`.
pub fn plain_field(content: &str) -> (field: Option<Cipher>)
    ensures
        field_view(field) == Some(
            CipherView { content: Some(content@), hash: None, is_encrypted: None },
        ),
{
    Some(Cipher::new(content))
}

/// Seals one field of a record under the master key, or leaves it as it is.
pub fn seal_field(field: &Option<Cipher>, keys: &Keystore) -> (after: Option<Cipher>)
    ensures
        sealed_field(field_view(*field), keys.key(Role::Master), field_view(after)),
        after is None <==> *field is None,
{
    let subject = match field {
        Some(cipher) => cipher.clone(),
        None => Cipher::default(),
    };
    match subject.encrypt_master(keys) {
        Ok(sealed) => Some(sealed),
        Err(_) => match field {
            Some(cipher) => Some(cipher.clone()),
            None => None,
        },
    }
}

/// Opens one field of a record under the master key, or leaves it as it is.
pub fn open_field(field: &Option<Cipher>, keys: &Keystore) -> (after: Option<Cipher>)
    ensures
        field_view(after) == opened_field(field_view(*field), keys.key(Role::Master)),
        after is None <==> *field is None,
{
    let subject = match field {
        Some(cipher) => cipher.clone(),
        None => Cipher::default(),
    };
    match subject.decrypt_master(keys) {
        Ok(opened) => Some(opened),
        Err(_) => match field {
            Some(cipher) => Some(cipher.clone()),
            None => None,
        },
    }
}

/// Seals the fields of a record under the master key, one by one: each
/// field is visited once, and one that cannot be sealed is left as it is.
pub fn seal_fields(fields: &Vec<Option<Cipher>>, keys: &Keystore) -> (after: Vec<Option<Cipher>>)
    ensures
        after.len() == fields.len(),
        sealed_fields(fields_view(fields@), keys.key(Role::Master), fields_view(after@)),
{
    let mut after: Vec<Option<Cipher>> = Vec::new();
    let mut i: usize = 0;
    while i < fields.len()
        invariant
            i <= fields.len(),
            after.len() == i,
            forall|j: int|
                0 <= j < i ==> sealed_field(
                    field_view(#[trigger] fields@[j]),
                    keys.key(Role::Master),
                    field_view(after@[j]),
                ),
        decreases fields.len() - i,
    {
        let sealed = seal_field(&fields[i], keys);
        after.push(sealed);
        i = i + 1;
    }
    after
}

/// Opens the fields of a record under the master key, one by one: each
/// field is visited once, and one that does not open is left as it is.
pub fn open_fields(fields: &Vec<Option<Cipher>>, keys: &Keystore) -> (after: Vec<Option<Cipher>>)
    ensures
        after.len() == fields.len(),
        fields_view(after@) == opened_fields(fields_view(fields@), keys.key(Role::Master)),
{
    let mut after: Vec<Option<Cipher>> = Vec::new();
    let mut i: usize = 0;
    while i < fields.len()
        invariant
            i <= fields.len(),
            after.len() == i,
            forall|j: int|
                0 <= j < i ==> field_view(#[trigger] after@[j]) == opened_field(
                    field_view(fields@[j]),
                    keys.key(Role::Master),
                ),
        decreases fields.len() - i,
    {
        let opened = open_field(&fields[i], keys);
        after.push(opened);
        i = i + 1;
    }
    after
}

/// After the fields of a record are sealed, a field is marked as encrypted
/// if it was so before, or if it held content and the key was usable.
pub proof fn lemma_sealed_fields_are_marked(
    before: Seq<Option<CipherView>>,
    key: Option<Seq<u8>>,
    after: Seq<Option<CipherView>>,
    i: int,
)
    requires
        sealed_fields(before, key, after),
        0 <= i < before.len(),
        or_empty(before[i]).is_encrypted == Some(true) || (key is Some && text_of(
            or_empty(before[i]).content,
        ).len() > 0),
    ensures
        after[i] matches Some(c) && c.is_encrypted == Some(true),
{
    assert(sealed_field(before[i], key, after[i]));
}

/// After the fields of a record are opened, a field that is set is marked
/// as not encrypted if it was so before, or if its envelope opened; one
/// that opened has no wrapped key left, and one that did not is unchanged.
pub proof fn lemma_opened_fields_are_unmarked(
    before: Seq<Option<CipherView>>,
    key: Option<Seq<u8>>,
    i: int,
)
    requires
        0 <= i < before.len(),
        before[i] is Some,
        or_empty(before[i]).is_encrypted == Some(false) || unsealed(or_empty(before[i]), key)
            is Ok,
    ensures
        opened_fields(before, key)[i] matches Some(c) && c.is_encrypted == Some(false),
        unsealed(or_empty(before[i]), key) is Ok ==> (opened_fields(before, key)[i] matches Some(
            c,
        ) && c.hash is None),
        unsealed(or_empty(before[i]), key) is Err ==> opened_fields(before, key)[i] == before[i],
{
}

/// Sealing and then opening under the same key restores a record: every
/// field that could be sealed has its plain content again, no wrapped key,
/// and is marked as not encrypted, and every other field is what opening
/// makes of it as it stood.
pub proof fn lemma_opening_restores_sealed_fields(
    plain: Seq<Option<CipherView>>,
    key: Seq<u8>,
    sealed: Seq<Option<CipherView>>,
    i: int,
)
    requires
        sealed_fields(plain, Some(key), sealed),
        0 <= i < plain.len(),
    ensures
        or_empty(plain[i]).is_ready(Action::Encrypt) ==> (opened_fields(sealed, Some(key))[i]
            matches Some(c) && c.content == or_empty(plain[i]).content && c.hash is None
            && c.is_encrypted == Some(false)),
        !or_empty(plain[i]).is_ready(Action::Encrypt) ==> opened_fields(sealed, Some(key))[i]
            == opened_field(plain[i], Some(key)),
{
    assert(sealed_field(plain[i], Some(key), sealed[i]));
}

/// A record with no field set has none set after sealing.
pub proof fn lemma_sealing_keeps_absent(
    before: Seq<Option<CipherView>>,
    key: Option<Seq<u8>>,
    after: Seq<Option<CipherView>>,
)
    requires
        sealed_fields(before, key, after),
    ensures
        all_absent(before) <==> all_absent(after),
{
    if all_absent(before) {
        assert forall|i: int| 0 <= i < after.len() implies (#[trigger] after[i]) is None by {
            assert(sealed_field(before[i], key, after[i]));
        }
    }
    if all_absent(after) {
        assert forall|i: int| 0 <= i < before.len() implies (#[trigger] before[i]) is None by {
            assert(sealed_field(before[i], key, after[i]));
        }
    }
}

/// A record with no field set has none set after opening.
pub proof fn lemma_opening_keeps_absent(before: Seq<Option<CipherView>>, key: Option<Seq<u8>>)
    ensures
        all_absent(before) <==> all_absent(opened_fields(before, key)),
{
    let after = opened_fields(before, key);
    if all_absent(before) {
        assert forall|i: int| 0 <= i < after.len() implies (#[trigger] after[i]) is None by {
            assert(before[i] is None);
        }
    }
    if all_absent(after) {
        assert forall|i: int| 0 <= i < before.len() implies (#[trigger] before[i]) is None by {
            assert(after[i] is None);
        }
    }
}

} // verus!
