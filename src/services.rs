//! Background services: periodic sync, and the dirty flags of cached lists.
use vstd::prelude::*;

verus! {

/// Periodic sync, every `interval_secs` seconds.
pub struct SyncService {
    pub interval_secs: u64,
}

impl SyncService {
    /// Sync every five minutes.
    pub fn new() -> (r: Self)
        ensures
            r.interval_secs == 300,
    {
        SyncService { interval_secs: 300 }
    }
}

/// Whether the cached conversation and contact lists must be reloaded.
pub struct ListCache {
    pub conversations_dirty: bool,
    pub contacts_dirty: bool,
}

impl ListCache {
    /// Both lists are loaded on first use.
    pub fn new() -> (r: Self)
        ensures
            r.conversations_dirty && r.contacts_dirty,
    {
        ListCache { conversations_dirty: true, contacts_dirty: true }
    }
}

/// Marks the conversation list for reloading.
pub fn invalidate_conversations_cache(cache: &mut ListCache)
    ensures
        final(cache).conversations_dirty,
        final(cache).contacts_dirty == old(cache).contacts_dirty,
{
    cache.conversations_dirty = true;
}

/// Marks the contact list for reloading.
pub fn invalidate_contacts_cache(cache: &mut ListCache)
    ensures
        final(cache).contacts_dirty,
        final(cache).conversations_dirty == old(cache).conversations_dirty,
{
    cache.contacts_dirty = true;
}

} // verus!
