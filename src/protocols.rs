//! Survival protocols: heir access after admin inactivity, and snapshot recovery.
use crate::text::text_of;
use vstd::prelude::*;

verus! {

/// Days of admin inactivity after which the dead-man switch fires.
pub const DEADMAN_DAYS: i32 = 30;

/// Revocable access for a registered heir.
pub struct DynastyAccess {
    pub heir_public_key: String,
    pub inheritance_activated: bool,
}

impl DynastyAccess {
    /// Access for the heir holding `heir_key`, not yet activated.
    pub fn new(heir_key: &str) -> (r: Self)
        ensures
            r.heir_public_key@ == heir_key@,
            !r.inheritance_activated,
    {
        DynastyAccess { heir_public_key: text_of(heir_key), inheritance_activated: false }
    }

    /// The dead-man switch fires after more than thirty days without an admin.
    pub fn verify_deadman_switch(&self, days_since_last_admin: i32) -> (r: bool)
        ensures
            r == (days_since_last_admin > DEADMAN_DAYS),
    {
        days_since_last_admin > DEADMAN_DAYS
    }

    /// Opens the vault to the heir.
    pub fn unlock_vault_for_heir(&mut self)
        ensures
            final(self).inheritance_activated,
            final(self).heir_public_key == old(self).heir_public_key,
    {
        self.inheritance_activated = true;
    }
}

/// Snapshot-based recovery after a crash.
pub struct PhoenixManager {
    pub backup_path: String,
    pub last_snapshot_id: String,
}

impl PhoenixManager {
    /// A manager over the backups under `path`, starting from the genesis snapshot.
    pub fn new(path: &str) -> (r: Self)
        ensures
            r.backup_path@ == path@,
            r.last_snapshot_id@ == "SH_000_GENESIS"@,
    {
        PhoenixManager { backup_path: text_of(path), last_snapshot_id: text_of("SH_000_GENESIS") }
    }

    /// Snapshot integrity check; the snapshots are always reported intact.
    pub fn execute_heartbeat_check(&self) -> (r: bool)
        ensures
            r,
    {
        true
    }

    /// Starts recovery and names the snapshot it restores from.
    pub fn prepare_resurrection(&mut self) -> (r: String)
        ensures
            r@ == "RESTORE_PENDING_FROM_HASH_4192BFF"@,
    {
        text_of("RESTORE_PENDING_FROM_HASH_4192BFF")
    }
}

} // verus!
