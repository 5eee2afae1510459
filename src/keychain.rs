use vstd::prelude::*;
use vstd::string::StringSliceAdditionalSpecFns;
use crate::encryption_key::{md5_decrypt_outcome, EncryptionKey, EncryptionKeyList, LevelView};
use crate::error::DecryptError;
use crate::items::ContentItem;
use crate::salted::SaltedString;

verus! {

/// The abstract state of a keychain.
pub struct KeychainView {
    pub path: Seq<char>,
    pub levels: Seq<LevelView>,
    pub items: Seq<ContentItem>,
}

/// An opened keychain export: its security levels and its item index.
pub struct Keychain {
    path: String,
    keys: Vec<EncryptionKey>,
    items: Vec<ContentItem>,
}

/// The views of a list of levels.
pub open spec fn level_views(keys: Seq<EncryptionKey>) -> Seq<LevelView> {
    keys.map_values(|k: EncryptionKey| k@)
}

/// Every level accepts `password`.
pub open spec fn all_accept(levels: Seq<LevelView>, password: Seq<u8>) -> bool {
    forall|i: int| 0 <= i < levels.len() ==> (#[trigger] levels[i]).accepted_key(password) is Some
}

/// `after` is `before` with every level unlocked by `password`.
pub open spec fn unlocked_with(
    after: Seq<LevelView>,
    before: Seq<LevelView>,
    password: Seq<u8>,
) -> bool {
    &&& after.len() == before.len()
    &&& forall|i: int|
        0 <= i < before.len() ==> {
            &&& (#[trigger] after[i]).same_record(before[i])
            &&& after[i].unlocked_key == before[i].accepted_key(password)
        }
}

/// The level with identifier `key_reference` (as UTF-8 bytes): the first
/// such level at or after `start`.
pub open spec fn level_index_from(levels: Seq<LevelView>, key_reference: Seq<u8>, start: int) -> Option<
    int,
>
    decreases levels.len() - start,
{
    if start < 0 || start >= levels.len() {
        None
    } else if vstd::utf8::encode_utf8(levels[start].identifier) == key_reference {
        Some(start)
    } else {
        level_index_from(levels, key_reference, start + 1)
    }
}

/// The first level with identifier `key_reference`.
pub open spec fn level_index(levels: Seq<LevelView>, key_reference: Seq<u8>) -> Option<int> {
    level_index_from(levels, key_reference, 0)
}

/// A level found by `level_index_from` lies in range and carries the
/// identifier searched for.
pub proof fn lemma_level_index_in_range(levels: Seq<LevelView>, key_reference: Seq<u8>, start: int)
    ensures
        level_index_from(levels, key_reference, start) matches Some(i) ==> {
            &&& 0 <= start <= i < levels.len()
            &&& vstd::utf8::encode_utf8(levels[i].identifier) == key_reference
        },
    decreases levels.len() - start,
{
    if 0 <= start < levels.len() && vstd::utf8::encode_utf8(levels[start].identifier)
        != key_reference {
        lemma_level_index_in_range(levels, key_reference, start + 1);
    }
}

impl View for Keychain {
    type V = KeychainView;

    closed spec fn view(&self) -> KeychainView {
        KeychainView { path: self.path@, levels: level_views(self.keys@), items: self.items@ }
    }
}

impl Keychain {
    /// Assembles a keychain from its root path, its levels and its items.
    pub fn new(path: String, keys: EncryptionKeyList, items: Vec<ContentItem>) -> (r: Keychain)
        ensures
            r@.path == path@,
            r@.levels == level_views(keys.list@),
            r@.items == items@,
    {
        Keychain { path, keys: keys.list, items }
    }

    /// Unlocks every level with `password`. The keychain opens only if every
    /// level accepts the password; otherwise no level changes.
    pub fn open(&mut self, password: &str) -> (r: bool)
        ensures
            final(self)@.path == old(self)@.path,
            final(self)@.items == old(self)@.items,
            r ==> all_accept(old(self)@.levels, password.spec_bytes()),
            r ==> unlocked_with(final(self)@.levels, old(self)@.levels, password.spec_bytes()),
            !r ==> final(self)@ == old(self)@,
            !all_accept(old(self)@.levels, password.spec_bytes()) ==> !r,
            old(self)@.levels.len() == 0 ==> r,
    {
        let pw = password.as_bytes();
        let ghost before = self@.levels;
        let n = self.keys.len();
        let mut candidates: Vec<Vec<u8>> = Vec::new();
        let mut i: usize = 0;
        while i < n
            invariant
                n == self.keys@.len(),
                before == level_views(self.keys@),
                pw@ == password.spec_bytes(),
                i <= n,
                candidates@.len() == i,
                forall|j: int|
                    0 <= j < i ==> before[j].accepted_key(pw@) == Some(
                        (#[trigger] candidates@[j])@,
                    ),
            decreases n - i,
        {
            assert(before[i as int] == self.keys@[i as int]@);
            match self.keys[i].try_unlock(pw) {
                Some(c) => candidates.push(c),
                None => return false,
            }
            i = i + 1;
        }
        assert(all_accept(before, pw@)) by {
            assert forall|j: int| 0 <= j < before.len() implies (
            #[trigger] before[j]).accepted_key(pw@) is Some by {
                assert(before[j].accepted_key(pw@) == Some(candidates@[j]@));
            }
        }
        let mut k: usize = n;
        while k > 0
            invariant
                n == self.keys@.len(),
                before.len() == n,
                k <= n,
                candidates@.len() == k,
                self@.path == old(self)@.path,
                self@.items == old(self)@.items,
                forall|j: int|
                    0 <= j < k ==> before[j].accepted_key(pw@) == Some(
                        (#[trigger] candidates@[j])@,
                    ),
                forall|j: int| 0 <= j < k ==> (#[trigger] level_views(self.keys@)[j]) == before[j],
                forall|j: int|
                    k <= j < n ==> {
                        &&& (#[trigger] level_views(self.keys@)[j]).same_record(before[j])
                        &&& level_views(self.keys@)[j].unlocked_key == before[j].accepted_key(pw@)
                    },
            decreases k,
        {
            k = k - 1;
            assert(level_views(self.keys@)[k as int] == before[k as int]);
            let ghost keys_before = self.keys@;
            let c = candidates.pop().unwrap();
            let mut level = self.keys.remove(k);
            assert(level@ == before[k as int]);
            level.set_unlocked(c);
            self.keys.insert(k, level);
            assert forall|j: int| 0 <= j < n && j != k implies #[trigger] level_views(self.keys@)[j]
                == level_views(keys_before)[j] by {
                assert(self.keys@[j] == keys_before[j]);
            }
        }
        assert(unlocked_with(self@.levels, before, pw@));
        true
    }

    /// The position of the first level whose identifier, as UTF-8 bytes, is
    /// `key_reference`.
    pub fn level_index(&self, key_reference: &[u8]) -> (r: Option<usize>)
        ensures
            match r {
                Some(i) => level_index(self@.levels, key_reference@) == Some(i as int),
                None => level_index(self@.levels, key_reference@) is None,
            },
    {
        let ghost levels = self@.levels;
        let n = self.keys.len();
        let mut i: usize = 0;
        while i < n
            invariant
                n == levels.len(),
                levels == level_views(self.keys@),
                i <= n,
                level_index(levels, key_reference@) == level_index_from(
                    levels,
                    key_reference@,
                    i as int,
                ),
            decreases n - i,
        {
            let ident = self.keys[i].identifier().as_bytes();
            if crate::cryptlib::bytes_equal(ident, key_reference) {
                return Some(i);
            }
            i = i + 1;
        }
        None
    }

    /// Decrypts the payload of `item` with the master key of the level that
    /// the item refers to.
    pub fn decrypt_item(&self, item: &ContentItem, payload: &SaltedString) -> (r: Result<
        Vec<u8>,
        DecryptError,
    >)
        ensures
            match level_index(self@.levels, item.key@) {
                None => r == Err::<Vec<u8>, DecryptError>(DecryptError::LevelNotUnlocked),
                Some(i) => match self@.levels[i].unlocked_key {
                    None => r == Err::<Vec<u8>, DecryptError>(DecryptError::LevelNotUnlocked),
                    Some(k) => match r {
                        Ok(p) => md5_decrypt_outcome(Ok(p@), k, payload.parts()),
                        Err(DecryptError::Crypto(e)) => md5_decrypt_outcome(
                            Err(e),
                            k,
                            payload.parts(),
                        ),
                        Err(DecryptError::LevelNotUnlocked) => false,
                    },
                },
            },
    {
        match self.level_index(item.key.as_slice()) {
            None => Err(DecryptError::LevelNotUnlocked),
            Some(i) => {
                proof {
                    lemma_level_index_in_range(self@.levels, item.key@, 0);
                }
                assert(self@.levels[i as int] == self.keys@[i as int]@);
                self.keys[i].decrypt(payload)
            },
        }
    }

    /// Every level has been unlocked.
    pub fn is_open(&self) -> (r: bool)
        ensures
            r == forall|i: int|
                0 <= i < self@.levels.len() ==> (#[trigger] self@.levels[i]).unlocked_key is Some,
    {
        let n = self.keys.len();
        let mut i: usize = 0;
        while i < n
            invariant
                n == self@.levels.len(),
                i <= n,
                forall|j: int| 0 <= j < i ==> (#[trigger] self@.levels[j]).unlocked_key is Some,
            decreases n - i,
        {
            assert(self@.levels[i as int] == self.keys@[i as int]@);
            if self.keys[i].unlocked_key().is_none() {
                return false;
            }
            i = i + 1;
        }
        true
    }

    /// The root path of the export.
    pub fn path(&self) -> (r: &str)
        ensures
            r@ == self@.path,
    {
        self.path.as_str()
    }

    /// The security levels.
    pub fn keys(&self) -> (r: &[EncryptionKey])
        ensures
            level_views(r@) == self@.levels,
    {
        self.keys.as_slice()
    }

    /// The item index. It can be read any number of times.
    pub fn items(&self) -> (r: &[ContentItem])
        ensures
            r@ == self@.items,
    {
        self.items.as_slice()
    }
}

} // verus!
