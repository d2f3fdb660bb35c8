use vstd::prelude::*;

pub mod accounting;
pub mod constants;
pub mod create_dataset;
pub mod error;
pub mod state;

pub use constants::{MAX_FILE_NAME_LEN, MAX_FILE_SIZE, MAX_QUALITY_SCORE};
pub use create_dataset::{CreateDataset, CreateDatasetBumps};
pub use error::ErrorCode;
pub use state::{Dataset, Identity, Registry, Reputation};

verus! {

/// Creates the empty registry of the administrator `admin`.
pub fn initialize(admin: Identity, bump: u8) -> (r: Registry)
    ensures
        r.owner == admin,
        r.total_datasets == 0,
        r.bump == bump,
{
    Registry::new(admin, bump)
}

/// Handles a dataset-creation request on `ctx`.
///
/// The request may carry an upload time, a last-update time, a download count
/// and an activity flag of its own; they are ignored. The new record always
/// takes its upload time from the clock value `now` and starts with no update
/// time, no downloads, and as active.
pub fn create_dataset(
    ctx: &mut CreateDataset,
    bumps: &CreateDatasetBumps,
    now: i64,
    content_hash: [u8; 32],
    ai_metadata: Vec<u8>,
    file_name: Vec<u8>,
    file_size: u64,
    data_uri: [u8; 256],
    column_count: u64,
    row_count: u64,
    quality_score: u8,
    upload_timestamp: i64,
    last_updated: Option<i64>,
    download_count: u32,
    is_active: bool,
) -> (r: Result<(), ErrorCode>)
    ensures
        r is Ok <==> create_dataset::create_error(
            *old(ctx),
            file_name@.len() as int,
            quality_score,
            file_size,
        ) is None,
        r is Err ==> r == Err::<(), ErrorCode>(
            create_dataset::create_error(
                *old(ctx),
                file_name@.len() as int,
                quality_score,
                file_size,
            ).unwrap(),
        ) && *final(ctx) == *old(ctx),
        r is Ok ==> *final(ctx) == create_dataset::created_state(
            *old(ctx),
            create_dataset::new_dataset(
                old(ctx).dataset_key,
                old(ctx).contributor,
                content_hash,
                ai_metadata,
                file_name,
                file_size,
                data_uri,
                column_count,
                row_count,
                quality_score,
                now,
                bumps.dataset,
            ),
        ),
        r is Ok ==> final(ctx).dataset is Some,
        r is Ok ==> final(ctx).dataset.unwrap().upload_timestamp == now,
        r is Ok ==> final(ctx).dataset.unwrap().last_updated is None,
        r is Ok ==> final(ctx).dataset.unwrap().download_count == 0,
        r is Ok ==> final(ctx).dataset.unwrap().is_active,
{
    ctx.create_dataset(
        content_hash,
        ai_metadata,
        file_name,
        file_size,
        data_uri,
        column_count,
        row_count,
        quality_score,
        now,
        bumps,
    )
}

} // verus!
