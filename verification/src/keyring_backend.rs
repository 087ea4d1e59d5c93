use vstd::prelude::*;
use vstd::string::StringExecFns;

use crate::error::PwvltError;
use crate::pass_store::{unprogrammed_view, Slot, SlotView};
use crate::util::str_eq;

use secret_service::blocking::{Collection, Item, SecretService};

verus! {

/// The secret-store service connection type of the outside crate,
/// declared so it can stand in fields and signatures.
#[verifier::external_type_specification]
#[verifier::external_body]
pub struct ExSecretService<'a>(secret_service::blocking::SecretService<'a>);

/// The credential-collection type of the outside crate.
#[verifier::external_type_specification]
#[verifier::external_body]
pub struct ExCollection<'a>(secret_service::blocking::Collection<'a>);

/// The stored-credential type of the outside crate.
#[verifier::external_type_specification]
#[verifier::external_body]
pub struct ExItem<'a>(secret_service::blocking::Item<'a>);

/// Relies on `secret_service::blocking::SecretService::connect` with
/// `EncryptionType::Dh`: opens a session to the OS secret-store
/// service; any failure is reported as its error text.  The session
/// lives for the rest of the process.
#[verifier::external_body]
fn ss_connect() -> (r: Result<&'static SecretService<'static>, String>)
{
    match SecretService::connect(secret_service::EncryptionType::Dh) {
        Ok(ss) => Ok(&*Box::leak(Box::new(ss))),
        Err(e) => Err(e.to_string()),
    }
}

/// Relies on `SecretService::get_default_collection`: returns the
/// default credential collection of the connected service, retained
/// for the rest of the process.
#[verifier::external_body]
fn ss_default_collection(ss: &'static SecretService<'static>) -> (r: Result<
    &'static Collection<'static>,
    String,
>)
{
    match ss.get_default_collection() {
        Ok(c) => Ok(&*Box::leak(Box::new(c))),
        Err(e) => Err(e.to_string()),
    }
}

/// Relies on `Collection::is_locked`.
#[verifier::external_body]
fn ss_is_locked(coll: &Collection<'static>) -> (r: Result<bool, String>)
{
    coll.is_locked().map_err(|e| e.to_string())
}

/// Relies on `Collection::unlock`: asks the service to unlock the
/// collection, possibly prompting the user out of band.
#[verifier::external_body]
fn ss_unlock(coll: &Collection<'static>) -> (r: Result<(), String>)
{
    coll.unlock().map_err(|e| e.to_string())
}

/// Relies on `Collection::get_all_items`: every credential currently
/// stored in the collection, in the service's enumeration order.
#[verifier::external_body]
fn ss_get_all_items(coll: &'static Collection<'static>) -> (r: Result<
    Vec<Item<'static>>,
    String,
>)
{
    coll.get_all_items().map_err(|e| e.to_string())
}

/// Relies on `Collection::search_items`: the credentials whose
/// attributes contain every given (key, value) pair.
#[verifier::external_body]
fn ss_search_items(coll: &'static Collection<'static>, attrs: &Vec<(&str, &str)>) -> (r: Result<
    Vec<Item<'static>>,
    String,
>)
{
    let map = attrs.iter().copied().collect();
    coll.search_items(map).map_err(|e| e.to_string())
}

/// Relies on `Item::get_attributes`: the attribute map of a stored
/// credential, handed out as pairs in no particular order; being a
/// map, its keys are distinct.
#[verifier::external_body]
fn ss_item_attributes(item: &Item<'static>) -> (r: Result<Vec<(String, String)>, String>)
    ensures
        r matches Ok(v) ==> forall|i: int, j: int|
            0 <= i < j < v@.len() ==> v@[i].0@ != v@[j].0@,
{
    match item.get_attributes() {
        Ok(m) => Ok(m.into_iter().collect()),
        Err(e) => Err(e.to_string()),
    }
}

/// Relies on `Item::get_secret`: the secret bytes of a stored credential.
#[verifier::external_body]
fn ss_item_secret(item: &Item<'static>) -> (r: Result<Vec<u8>, String>)
{
    item.get_secret().map_err(|e| e.to_string())
}

/// Relies on `Item::delete`: removes the credential from its collection.
#[verifier::external_body]
fn ss_item_delete(item: &Item<'static>) -> (r: Result<(), String>)
{
    item.delete().map_err(|e| e.to_string())
}

/// Relies on `Collection::create_item` with `replace` set: stores a new
/// credential with the given label, attributes and secret, replacing
/// any item with the same attributes.
#[verifier::external_body]
fn ss_create_item(
    coll: &'static Collection<'static>,
    label: &str,
    attrs: &Vec<(&str, &str)>,
    secret: &[u8],
) -> (r: Result<(), String>)
{
    let map = attrs.iter().copied().collect();
    match coll.create_item(label, map, secret, true, "text/plain") {
        Ok(_) => Ok(()),
        Err(e) => Err(e.to_string()),
    }
}

/// The character sequence that decoding a UTF-8 byte sequence yields.
pub uninterp spec fn utf8_chars(bytes: Seq<u8>) -> Seq<char>;

/// Relies on `String::from_utf8`: decodes the bytes as UTF-8 text,
/// reporting the decoder's error text on invalid input.
#[verifier::external_body]
fn decode_utf8(bytes: Vec<u8>) -> (r: Result<String, String>)
    ensures
        r matches Ok(s) ==> s@ == utf8_chars(bytes@),
{
    String::from_utf8(bytes).map_err(|e| e.to_string())
}

/// The errors the keyring backend can produce: secret-store failures,
/// a missing entry, and a malformed stored secret.
pub open spec fn keyring_producible(e: PwvltError) -> bool {
    ||| e is Keyring
    ||| e is PasswordNotFound
    ||| e is Utf8
}

/// The warning text the keyring backend's classifier gives each of its
/// errors: the store's or decoder's own report, or the fixed text for
/// a missing entry.
pub open spec fn keyring_log_message(e: PwvltError) -> Seq<char> {
    match e {
        PwvltError::Keyring(m) => m@,
        PwvltError::PasswordNotFound => "Password not found in Keyring"@,
        PwvltError::Utf8(m) => m@,
        _ => Seq::empty(),
    }
}

/// Render the keyring classifier's warning text for an error.
pub fn keyring_error_message(err: PwvltError) -> (msg: String)
    requires
        keyring_producible(err),
    ensures
        msg@ == keyring_log_message(err),
{
    match err {
        PwvltError::Keyring(m) => m,
        PwvltError::PasswordNotFound => "Password not found in Keyring".to_owned(),
        PwvltError::Utf8(m) => m,
        _ => vstd::pervasive::unreached(),
    }
}

/// Whether some pair of `attrs` has key `key`.
pub open spec fn spec_has_attr(attrs: Seq<(String, String)>, key: Seq<char>) -> bool {
    exists|i: int| 0 <= i < attrs.len() && attrs[i].0@ == key
}

/// Look up the value stored under `key` among attribute pairs.
pub fn attr_value<'a>(attrs: &'a Vec<(String, String)>, key: &str) -> (r: Option<&'a String>)
    ensures
        r is Some <==> spec_has_attr(attrs@, key@),
        r matches Some(v) ==> exists|i: int|
            0 <= i < attrs@.len() && attrs@[i].0@ == key@ && attrs@[i].1@ == v@,
{
    let n = attrs.len();
    for k in 0..n
        invariant
            n == attrs@.len(),
            forall|i: int| 0 <= i < k ==> attrs@[i].0@ != key@,
    {
        if str_eq(attrs[k].0.as_str(), key) {
            return Some(&attrs[k].1);
        }
    }
    None
}

/// The slot that a stored credential's attributes describe: its
/// `service` and `username` attributes, or `"not_set"` where an
/// attribute is missing.
pub fn attrs_to_slot(attrs: &Vec<(String, String)>) -> (s: Slot)
    ensures
        spec_has_attr(attrs@, "service"@) ==> exists|i: int|
            0 <= i < attrs@.len() && attrs@[i].0@ == "service"@ && attrs@[i].1@ == s@.service,
        !spec_has_attr(attrs@, "service"@) ==> s@.service == "not_set"@,
        spec_has_attr(attrs@, "username"@) ==> exists|i: int|
            0 <= i < attrs@.len() && attrs@[i].0@ == "username"@ && attrs@[i].1@ == s@.username,
        !spec_has_attr(attrs@, "username"@) ==> s@.username == "not_set"@,
{
    let service = match attr_value(attrs, "service") {
        Some(v) => v.clone(),
        None => "not_set".to_owned(),
    };
    let username = match attr_value(attrs, "username") {
        Some(v) => v.clone(),
        None => "not_set".to_owned(),
    };
    Slot { service, username }
}

/// The published slot table that a cached table determines: the cache
/// itself followed by one sentinel slot standing for "create new entry".
pub open spec fn spec_slot_table(cache: Seq<Slot>, table: Seq<Slot>) -> bool {
    &&& table.len() == cache.len() + 1
    &&& (forall|i: int| 0 <= i < cache.len() ==> table[i] == cache[i])
    &&& table[cache.len() as int]@ == unprogrammed_view()
}

/// Enumerating slots twice without an intervening write yields the same
/// ordered table: the table is a function of the cached slots alone.
pub proof fn lemma_slot_table_idempotent(cache: Seq<Slot>, table1: Seq<Slot>, table2: Seq<Slot>)
    requires
        spec_slot_table(cache, table1),
        spec_slot_table(cache, table2),
    ensures
        table1.len() == table2.len(),
        forall|i: int| 0 <= i < table1.len() ==> table1[i]@ == table2[i]@,
{
}

/// The slot table after an in-range overwrite of position `i` with a
/// new identity: the replaced slot is dropped, every other slot keeps
/// its place in order, and the new (service, username) pair stands at
/// the end.
pub open spec fn spec_overwritten_cache(
    c: Seq<Slot>,
    i: int,
    service: Seq<char>,
    username: Seq<char>,
    d: Seq<Slot>,
) -> bool {
    &&& d.len() == c.len()
    &&& (forall|j: int| 0 <= j < c.len() - 1 ==> d[j] == c.remove(i)[j])
    &&& d[c.len() - 1]@ == (SlotView { service, username })
}

/// Overwriting an occupied slot with a different identity evicts the
/// old (service, username) pair from the table, provided no other slot
/// carried that same pair (the store keeps at most one entry per pair).
pub proof fn lemma_overwrite_evicts_old_identity(
    c: Seq<Slot>,
    i: int,
    service: Seq<char>,
    username: Seq<char>,
    d: Seq<Slot>,
)
    requires
        0 <= i < c.len(),
        spec_overwritten_cache(c, i, service, username, d),
        c[i]@ != (SlotView { service, username }),
        forall|j: int| 0 <= j < c.len() && j != i ==> c[j]@ != c[i]@,
    ensures
        forall|j: int| 0 <= j < d.len() ==> d[j]@ != c[i]@,
{
    c.remove_ensures(i);
    assert forall|j: int| 0 <= j < d.len() implies d[j]@ != c[i]@ by {
        if j < c.len() - 1 {
            let x = if j < i {
                j
            } else {
                j + 1
            };
            assert(d[j] == c.remove(i)[j]);
            assert(c.remove(i)[j] == c[x]);
            assert(c[x]@ != c[i]@);
        } else {
            assert(d[j]@ == (SlotView { service, username }));
        }
    }
}

/// Append the sentinel "create new entry" slot to a copy of a slot table.
pub fn slots_with_sentinel(cache: &Vec<Slot>) -> (r: Vec<Slot>)
    ensures
        spec_slot_table(cache@, r@),
{
    let mut r: Vec<Slot> = Vec::new();
    let n = cache.len();
    for k in 0..n
        invariant
            n == cache@.len(),
            r@.len() == k,
            forall|i: int| 0 <= i < k ==> r@[i] == cache@[i],
    {
        r.push(cache[k].clone());
    }
    r.push(Slot::unprogrammed());
    r
}

/// The backend over the OS secret-store service.  It unlocks the
/// default collection once per session, derives its slot table from
/// that first enumeration, and keeps both cached for the rest of the
/// session.
pub struct KeyringBackend {
    conn: &'static SecretService<'static>,
    collection: Option<&'static Collection<'static>>,
    slots: Option<Vec<Slot>>,
}

impl KeyringBackend {
    /// The collection handle and the slot table derived from it are
    /// cached together or not at all.
    pub closed spec fn wf(&self) -> bool {
        self.collection is Some <==> self.slots is Some
    }

    /// The cached slot table, for contracts over the backend's state.
    pub closed spec fn spec_slots(&self) -> Option<Seq<Slot>> {
        match self.slots {
            Some(v) => Some(v@),
            None => None,
        }
    }

    /// Connect to the OS secret-store service.  The collection itself
    /// is unlocked lazily, on first use.
    pub fn new() -> (r: Result<KeyringBackend, PwvltError>)
        ensures
            r matches Ok(b) ==> b.wf() && b.spec_slots() is None,
            r matches Err(e) ==> e is Keyring,
    {
        match ss_connect() {
            Ok(conn) => Ok(KeyringBackend { conn, collection: None, slots: None }),
            Err(m) => Err(PwvltError::Keyring(m)),
        }
    }

    /// Unlock the default collection, deriving and caching the slot
    /// table on the first call; later calls reuse the cache untouched
    /// and only re-check the service-side lock.
    fn unlock_collection(&mut self) -> (r: Result<(), PwvltError>)
        requires
            old(self).wf(),
        ensures
            final(self).wf(),
            r is Ok ==> final(self).collection is Some && final(self).slots is Some,
            old(self).slots is Some ==> final(self).slots == old(self).slots
                && final(self).collection == old(self).collection,
            r matches Err(e) ==> e is Keyring,
    {
        if self.collection.is_none() {
            let coll = match ss_default_collection(self.conn) {
                Ok(c) => c,
                Err(m) => {
                    return Err(PwvltError::Keyring(m));
                },
            };
            let items = match ss_get_all_items(coll) {
                Ok(items) => items,
                Err(m) => {
                    return Err(PwvltError::Keyring(m));
                },
            };
            let mut slots: Vec<Slot> = Vec::new();
            let n = items.len();
            for k in 0..n
                invariant
                    n == items@.len(),
                    *self == *old(self),
                    old(self).wf(),
                    self.collection is None,
            {
                let attrs = match ss_item_attributes(&items[k]) {
                    Ok(a) => a,
                    Err(m) => {
                        return Err(PwvltError::Keyring(m));
                    },
                };
                slots.push(attrs_to_slot(&attrs));
            }
            self.collection = Some(coll);
            self.slots = Some(slots);
        }
        if let Some(coll) = self.collection {
            let locked = match ss_is_locked(coll) {
                Ok(l) => l,
                Err(m) => {
                    return Err(PwvltError::Keyring(m));
                },
            };
            if locked {
                match ss_unlock(coll) {
                    Ok(()) => (),
                    Err(m) => {
                        return Err(PwvltError::Keyring(m));
                    },
                }
            }
        }
        Ok(())
    }

    /// The cached slot at index `i`, if the table reaches that far.
    fn slot(&self, i: usize) -> (r: Option<&Slot>)
        requires
            self.slots is Some,
        ensures
            i < self.spec_slots().unwrap().len() ==> r == Some(&self.spec_slots().unwrap()[i as int]),
            i >= self.spec_slots().unwrap().len() ==> r is None,
    {
        match &self.slots {
            Some(slots) => {
                if i < slots.len() {
                    Some(&slots[i])
                } else {
                    None
                }
            },
            None => vstd::pervasive::unreached(),
        }
    }

    /// Drop the cached slot at index `i` and re-append `slot` at the
    /// end, mirroring the enumeration order after a replacement.
    fn remove_and_add_slot(&mut self, i: usize, slot: Slot)
        requires
            old(self).slots is Some,
            i < old(self).spec_slots().unwrap().len(),
        ensures
            final(self).slots matches Some(v) && v@ == old(self).spec_slots().unwrap().remove(
                i as int,
            ).push(slot),
            final(self).collection == old(self).collection,
    {
        match &mut self.slots {
            Some(slots) => {
                slots.remove(i);
                slots.push(slot);
            },
            None => vstd::pervasive::unreached(),
        }
    }

    /// Delete the collection entry matching (service, username);
    /// a missing entry surfaces as `PasswordNotFound`.
    fn delete_password(&self, service: &str, username: &str) -> (r: Result<(), PwvltError>)
        requires
            self.collection is Some,
        ensures
            r matches Err(e) ==> keyring_producible(e),
    {
        match self.collection {
            Some(coll) => {
                let mut attrs: Vec<(&str, &str)> = Vec::new();
                attrs.push(("service", service));
                attrs.push(("username", username));
                let found = match ss_search_items(coll, &attrs) {
                    Ok(items) => items,
                    Err(m) => {
                        return Err(PwvltError::Keyring(m));
                    },
                };
                if found.len() == 0 {
                    return Err(PwvltError::PasswordNotFound);
                }
                match ss_item_delete(&found[0]) {
                    Ok(()) => Ok(()),
                    Err(m) => Err(PwvltError::Keyring(m)),
                }
            },
            None => vstd::pervasive::unreached(),
        }
    }

    /// Look up the password stored for (service, username): the first
    /// matching entry's secret, decoded as text.
    pub fn password(&mut self, service: &str, username: &str) -> (r: Result<String, PwvltError>)
        requires
            old(self).wf(),
        ensures
            final(self).wf(),
            old(self).spec_slots() is Some ==> final(self).spec_slots() == old(self).spec_slots(),
            r is Ok ==> final(self).spec_slots() is Some,
            r matches Err(e) ==> keyring_producible(e),
    {
        match self.unlock_collection() {
            Ok(()) => (),
            Err(e) => {
                return Err(e);
            },
        }
        match self.collection {
            Some(coll) => {
                let mut attrs: Vec<(&str, &str)> = Vec::new();
                attrs.push(("service", service));
                attrs.push(("username", username));
                let found = match ss_search_items(coll, &attrs) {
                    Ok(items) => items,
                    Err(m) => {
                        return Err(PwvltError::Keyring(m));
                    },
                };
                if found.len() == 0 {
                    return Err(PwvltError::PasswordNotFound);
                }
                let secret = match ss_item_secret(&found[0]) {
                    Ok(bytes) => bytes,
                    Err(m) => {
                        return Err(PwvltError::Keyring(m));
                    },
                };
                match decode_utf8(secret) {
                    Ok(text) => Ok(text),
                    Err(m) => Err(PwvltError::Utf8(m)),
                }
            },
            None => vstd::pervasive::unreached(),
        }
    }

    /// Write a credential.  An in-range `slot_index` replaces that
    /// cached slot: its old entry is deleted first (the delete must
    /// succeed), and the cache drops the replaced slot and appends the
    /// new identity at the end, mirroring where a fresh enumeration
    /// would find the recreated entry.  An out-of-range index creates
    /// a new entry and leaves the cache alone.
    pub fn set_password(
        &mut self,
        slot_index: usize,
        service: &str,
        username: &str,
        password: &str,
    ) -> (r: Result<(), PwvltError>)
        requires
            old(self).wf(),
        ensures
            final(self).wf(),
            r matches Err(e) ==> keyring_producible(e),
            r is Ok ==> final(self).spec_slots() is Some,
            old(self).spec_slots() is Some ==> ({
                let c = old(self).spec_slots().unwrap();
                &&& slot_index >= c.len() ==> final(self).spec_slots() == old(self).spec_slots()
                &&& slot_index < c.len() ==> (final(self).spec_slots() == old(self).spec_slots()
                    || (final(self).spec_slots() is Some && spec_overwritten_cache(
                    c,
                    slot_index as int,
                    service@,
                    username@,
                    final(self).spec_slots().unwrap(),
                )))
                &&& (r is Ok && slot_index < c.len()) ==> (final(self).spec_slots() is Some
                    && spec_overwritten_cache(
                    c,
                    slot_index as int,
                    service@,
                    username@,
                    final(self).spec_slots().unwrap(),
                ))
            }),
    {
        match self.unlock_collection() {
            Ok(()) => (),
            Err(e) => {
                return Err(e);
            },
        }
        let replaced = match self.slot(slot_index) {
            Some(s) => Some(s.clone()),
            None => None,
        };
        if let Some(old_slot) = replaced {
            match self.delete_password(old_slot.service.as_str(), old_slot.username.as_str()) {
                Ok(()) => (),
                Err(e) => {
                    return Err(e);
                },
            }
            let renamed = Slot { service: service.to_owned(), username: username.to_owned() };
            self.remove_and_add_slot(slot_index, renamed);
        }
        match self.collection {
            Some(coll) => {
                let mut label = "Password for ".to_owned();
                label.append(username);
                label.append(" on ");
                label.append(service);
                let mut attrs: Vec<(&str, &str)> = Vec::new();
                attrs.push(("service", service));
                attrs.push(("username", username));
                attrs.push(("application", "pwvlt"));
                match ss_create_item(coll, label.as_str(), &attrs, password.as_bytes()) {
                    Ok(()) => Ok(()),
                    Err(m) => Err(PwvltError::Keyring(m)),
                }
            },
            None => vstd::pervasive::unreached(),
        }
    }

    /// Classify an error of this backend for the warning log.  Only
    /// errors this backend can produce may be handed in.
    pub fn log_error(&self, err: PwvltError) -> (msg: String)
        requires
            keyring_producible(err),
        ensures
            msg@ == keyring_log_message(err),
    {
        keyring_error_message(err)
    }

    /// The stable display identifier of this backend.
    pub fn name(&self) -> (r: &'static str)
        ensures
            r@ == "Keyring"@,
    {
        "Keyring"
    }

    /// The slot table: the cached slots, derived once per session, plus
    /// the trailing sentinel that stands for "create a new entry".
    /// Without an intervening write the same table is returned again.
    pub fn slots(&mut self) -> (r: Result<Vec<Slot>, PwvltError>)
        requires
            old(self).wf(),
        ensures
            final(self).wf(),
            old(self).spec_slots() is Some ==> final(self).spec_slots() == old(self).spec_slots(),
            r is Ok ==> final(self).spec_slots() is Some,
            r matches Ok(v) ==> spec_slot_table(final(self).spec_slots().unwrap(), v@),
            r matches Err(e) ==> keyring_producible(e),
    {
        match self.unlock_collection() {
            Ok(()) => (),
            Err(e) => {
                return Err(e);
            },
        }
        match &self.slots {
            Some(slots) => Ok(slots_with_sentinel(slots)),
            None => vstd::pervasive::unreached(),
        }
    }
}

} // verus!
