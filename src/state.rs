use vstd::prelude::*;

verus! {

/// The identity of a party or of a stored record: a 32-byte public key.
pub type Identity = [u8; 32];

/// Counts the datasets registered under one administrator.
pub struct Registry {
    pub owner: Identity,
    pub total_datasets: u64,
    pub bump: u8,
}

/// One uploaded data artifact and its metadata.
pub struct Dataset {
    pub id: Identity,
    pub contributor: Identity,
    pub content_hash: [u8; 32],
    pub ai_metadata: Vec<u8>,
    pub file_name: Vec<u8>,
    pub file_size: u64,
    pub data_uri: [u8; 256],
    pub column_count: u64,
    pub row_count: u64,
    pub quality_score: u8,
    pub upload_timestamp: i64,
    pub last_updated: Option<i64>,
    pub download_count: u32,
    pub is_active: bool,
    pub bump: u8,
}

/// Upload count and quality-score sum of one contributor.
pub struct Reputation {
    pub contributor: Identity,
    pub total_uploads: u32,
    pub download_time: i64,
    pub total_quality_score: u64,
    pub total_downloads: u64,
    pub total_citations: u32,
    pub reputation_score: u32,
    pub bump: u8,
}

/// The registry as it stands after one more dataset was registered.
pub open spec fn registry_after_create(r: Registry) -> Registry {
    Registry { total_datasets: (r.total_datasets + 1) as u64, ..r }
}

/// The reputation of `contributor` after one more upload of score `quality_score`.
pub open spec fn reputation_after_create(
    rep: Reputation,
    contributor: Identity,
    quality_score: u8,
) -> Reputation {
    Reputation {
        contributor,
        total_uploads: (rep.total_uploads + 1) as u32,
        total_quality_score: (rep.total_quality_score + quality_score) as u64,
        ..rep
    }
}

/// Whether one more dataset can be counted without overflowing the registry.
pub open spec fn registry_can_grow(r: Registry) -> bool {
    r.total_datasets < u64::MAX
}

/// Whether one more upload of score `quality_score` can be counted without
/// overflowing the reputation.
pub open spec fn reputation_can_grow(rep: Reputation, quality_score: u8) -> bool {
    &&& rep.total_uploads < u32::MAX
    &&& rep.total_quality_score + quality_score <= u64::MAX
}

impl Registry {
    /// A registry of `owner` that holds no dataset yet.
    pub fn new(owner: Identity, bump: u8) -> (r: Registry)
        ensures
            r.owner == owner,
            r.total_datasets == 0,
            r.bump == bump,
    {
        Registry { owner, total_datasets: 0, bump }
    }
}

impl Reputation {
    /// A reputation of `contributor` with every counter at zero.
    pub fn new(contributor: Identity, bump: u8) -> (r: Reputation)
        ensures
            r.contributor == contributor,
            r.total_uploads == 0,
            r.download_time == 0,
            r.total_quality_score == 0,
            r.total_downloads == 0,
            r.total_citations == 0,
            r.reputation_score == 0,
            r.bump == bump,
    {
        Reputation {
            contributor,
            total_uploads: 0,
            download_time: 0,
            total_quality_score: 0,
            total_downloads: 0,
            total_citations: 0,
            reputation_score: 0,
            bump,
        }
    }
}

} // verus!
