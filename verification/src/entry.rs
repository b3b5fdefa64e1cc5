//! Credential entries in their plaintext, to-be-stored and stored forms.
//!
//! `about` and `notes` are metadata and stay in clear by design; `username`
//! and `password` are secrets and exist outside a screen's memory only as
//! ciphertext blobs.

use vstd::multiset::Multiset;
use vstd::prelude::*;

verus! {

/// An entry exactly as typed by the user; the secret fields are not yet
/// encrypted. Exists only transiently in memory.
#[derive(Debug, Default, Clone)]
pub struct InputEntry {
    pub about: String,
    pub notes: String,
    pub username: String,
    pub password: String,
}

impl InputEntry {
    /// Whether this input may be encrypted and stored: the name and both
    /// secret fields must be non-empty. Deliberately does not trim: an
    /// all-blank value is treated as typed on purpose.
    pub fn validate(&self) -> (r: bool)
        ensures
            r == (self.about@.len() > 0 && self.username@.len() > 0 && self.password@.len() > 0),
    {
        !self.about.as_str().is_empty() && !self.username.as_str().is_empty()
            && !self.password.as_str().is_empty()
    }
}

/// An entry ready to be inserted or updated: secret fields already
/// encrypted, not yet tied to a row id.
#[derive(Debug, Clone, PartialEq, Eq)]
pub struct ValidEntry {
    pub about: String,
    pub notes: Option<String>,
    pub encrypted_username: String,
    pub encrypted_password: String,
}

/// A stored entry as read back from the record store. Timestamps are carried
/// as unix seconds; the storage layer converts to and from its own calendar
/// type at the boundary.
#[derive(Debug, Clone, PartialEq, Eq)]
pub struct EncryptedEntry {
    /// Row id; read-only once assigned by the store.
    pub id: u32,
    pub about: String,
    pub notes: Option<String>,
    pub encrypted_username: String,
    pub encrypted_password: String,
    /// Creation instant, unix seconds.
    pub created_time: i64,
    /// Last-update instant, unix seconds.
    pub updated_time: i64,
}

/// Entries ordered for display: newest creation first.
pub open spec fn sorted_newest_first(s: Seq<EncryptedEntry>) -> bool {
    forall|i: int, j: int| 0 <= i < j < s.len() ==> s[i].created_time >= s[j].created_time
}

impl EncryptedEntry {
    /// Orders a listing for display, newest creation instant first; keeps
    /// exactly the same entries.
    pub fn sort_by_update_time(entries: &mut Vec<EncryptedEntry>)
        ensures
            sorted_newest_first(final(entries)@),
            final(entries)@.to_multiset() == old(entries)@.to_multiset(),
    {
        broadcast use vstd::seq_lib::group_to_multiset_ensures;

        let mut rest: Vec<EncryptedEntry> = Vec::new();
        core::mem::swap(entries, &mut rest);
        let ghost all = rest@;
        proof {
            assert(entries@.to_multiset().add(rest@.to_multiset()) =~= all.to_multiset());
        }
        while rest.len() > 0
            invariant
                sorted_newest_first(entries@),
                entries@.to_multiset().add(rest@.to_multiset()) == all.to_multiset(),
                forall|i: int, j: int|
                    0 <= i < entries@.len() && 0 <= j < rest@.len()
                        ==> entries@[i].created_time >= rest@[j].created_time,
            decreases rest@.len(),
        {
            let mut best: usize = 0;
            let mut k: usize = 1;
            while k < rest.len()
                invariant
                    best < rest@.len(),
                    k <= rest@.len(),
                    rest@.len() > 0,
                    forall|j: int| 0 <= j < k
                        ==> rest@[best as int].created_time >= rest@[j].created_time,
                decreases rest@.len() - k,
            {
                if rest[k].created_time > rest[best].created_time {
                    best = k;
                }
                k = k + 1;
            }
            let ghost entries_before = entries@;
            let ghost rest_before = rest@;
            let picked = rest.remove(best);
            entries.push(picked);
            proof {
                assert(rest_before.contains(picked));
                assert(entries@ =~= entries_before.push(picked));
                assert(rest@ =~= rest_before.remove(best as int));
                entries_before.to_multiset_ensures();
                rest_before.to_multiset_ensures();
                assert(entries_before.push(picked).to_multiset()
                    =~= entries_before.to_multiset().insert(picked));
                assert(rest_before.remove(best as int).to_multiset()
                    =~= rest_before.to_multiset().remove(picked));
                assert(entries@.to_multiset() =~= entries_before.to_multiset().insert(picked));
                assert(rest@.to_multiset() =~= rest_before.to_multiset().remove(picked));
                assert(entries@.to_multiset().add(rest@.to_multiset()) =~= all.to_multiset());
                assert forall|j: int| 0 <= j < rest_before.len()
                    implies picked.created_time >= rest_before[j].created_time by {}
                assert(sorted_newest_first(entries@));
                assert forall|i: int, j: int|
                    0 <= i < entries@.len() && 0 <= j < rest@.len()
                    implies entries@[i].created_time >= rest@[j].created_time by {
                    if j < best as int {
                        assert(rest@[j] == rest_before[j]);
                    } else {
                        assert(rest@[j] == rest_before[j + 1]);
                    }
                }
            }
        }
        proof {
            assert(rest@.to_multiset() =~= Multiset::<EncryptedEntry>::empty());
            assert(entries@.to_multiset() =~= all.to_multiset());
        }
    }
}

} // verus!
