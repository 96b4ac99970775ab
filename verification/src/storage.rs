//! What the library occupies, and the limits configured against it.

use vstd::prelude::*;

verus! {

/// The most recordings a report lists by name in each of its lists.
pub const MOST_LISTED: usize = 25;

/// The limits the library is kept within. Every one is optional, and one that
/// is absent is a limit there is not.
#[derive(Debug, Clone, Copy, PartialEq, Eq, Structural)]
pub struct StorageLimits {
    /// The most the recordings may occupy, in bytes.
    pub maximum_usage_bytes: Option<u64>,
    /// The least free space to leave on the disk, in bytes.
    pub minimum_free_space_bytes: Option<u64>,
    /// The oldest a recording may get, in days.
    pub maximum_age_days: Option<u64>,
}

impl Default for StorageLimits {
    /// No limits at all, which is what Clipped ships with.
    fn default() -> (limits: StorageLimits)
        ensures
            limits.maximum_usage_bytes is None,
            limits.minimum_free_space_bytes is None,
            limits.maximum_age_days is None,
            limits.unlimited(),
    {
        StorageLimits {
            maximum_usage_bytes: None,
            minimum_free_space_bytes: None,
            maximum_age_days: None,
        }
    }
}

impl StorageLimits {
    /// Whether no limit is set.
    pub open spec fn unlimited(&self) -> bool {
        self.maximum_usage_bytes is None && self.minimum_free_space_bytes is None
            && self.maximum_age_days is None
    }

    /// Whether no limit is set.
    pub fn is_unlimited(&self) -> (unlimited: bool)
        ensures
            unlimited == self.unlimited(),
    {
        self.maximum_usage_bytes.is_none() && self.minimum_free_space_bytes.is_none()
            && self.maximum_age_days.is_none()
    }
}

/// Limits are unlimited exactly when none is set: setting any one of them,
/// even to nought, makes them limited.
pub proof fn lemma_any_limit_is_a_limit(limits: StorageLimits)
    ensures
        limits.unlimited() <==> (limits.maximum_usage_bytes is None
            && limits.minimum_free_space_bytes is None && limits.maximum_age_days is None),
        limits.maximum_usage_bytes is Some ==> !limits.unlimited(),
        limits.minimum_free_space_bytes is Some ==> !limits.unlimited(),
        limits.maximum_age_days is Some ==> !limits.unlimited(),
{
}

/// Asking what the library occupies, against the configured limits or against
/// a proposal.
#[derive(Debug, Clone, Copy, PartialEq, Eq, Structural)]
pub struct GetStorage {
    /// Limits to judge against instead of the configured ones; a proposal
    /// replaces them rather than merging with them.
    pub limits: Option<StorageLimits>,
}

impl Default for GetStorage {
    /// Asking about the configured limits.
    fn default() -> (request: GetStorage)
        ensures
            request.limits is None,
    {
        GetStorage { limits: None }
    }
}

/// One recording, as a storage report names it.
#[derive(Debug, Clone, PartialEq, Eq)]
pub struct StorageRecording {
    /// The library's identifier for it.
    pub recording_id: i64,
    /// Where it is.
    pub path: String,
    /// How big it is.
    pub size_bytes: u64,
    /// When it was started.
    pub started_at: String,
    /// Why cleanup leaves it alone, for one that it does.
    pub protected_because: Option<String>,
}

/// Some recordings, out of a counted whole.
#[derive(Debug, Clone, PartialEq, Eq)]
pub struct RecordingList {
    /// How many recordings the list is about.
    pub total: u64,
    /// How many bytes they occupy between them.
    pub total_bytes: u64,
    /// The ones named, at most [`MOST_LISTED`].
    pub recordings: Vec<StorageRecording>,
}

impl Default for RecordingList {
    /// A list of nothing.
    fn default() -> (list: RecordingList)
        ensures
            list.total == 0,
            list.total_bytes == 0,
            list.recordings@.len() == 0,
    {
        RecordingList { total: 0, total_bytes: 0, recordings: Vec::new() }
    }
}

impl RecordingList {
    /// Whether the list named every recording it counted.
    pub fn is_complete(&self) -> (complete: bool)
        ensures
            complete == (self.recordings@.len() == self.total),
    {
        self.recordings.len() as u64 == self.total
    }
}

/// The recordings cleanup leaves alone for one reason, counted together.
#[derive(Debug, Clone, PartialEq, Eq)]
pub struct ProtectedGroup {
    /// The reason, in words.
    pub label: String,
    /// How many recordings it protects.
    pub recordings: u64,
    /// How many bytes they occupy.
    pub bytes: u64,
}

/// What one kind of file occupies.
#[derive(Debug, Clone, PartialEq, Eq)]
pub struct CategoryUsage {
    /// The kind of file.
    pub category: String,
    /// How many bytes of it there are.
    pub bytes: u64,
}

/// What the library occupies, and what the limits would do about it.
#[derive(Debug, Clone, PartialEq, Eq)]
pub struct StorageReport {
    /// Where recordings are kept.
    pub recordings_directory: String,
    /// Where deleted things wait to be emptied.
    pub trash_directory: String,
    /// How much the library occupies.
    pub usage_bytes: u64,
    /// The same, by kind of file.
    pub by_category: Vec<CategoryUsage>,
    /// How much of the disk is free.
    pub free_bytes: u64,
    /// How big the disk is.
    pub capacity_bytes: u64,
    /// The limits the report was made against.
    pub limits: StorageLimits,
    /// Whether those limits are a proposal rather than the configured ones.
    pub proposed: bool,
    /// What cleanup would delete under them.
    pub would_delete: RecordingList,
    /// How far over a limit the library would still be afterwards.
    pub still_over_limit: u64,
    /// What cleanup leaves alone, and why.
    pub protected: Vec<ProtectedGroup>,
    /// The largest recordings.
    pub largest: RecordingList,
}

} // verus!
