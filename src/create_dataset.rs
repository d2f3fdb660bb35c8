use vstd::prelude::*;

use crate::constants::{MAX_FILE_NAME_LEN, MAX_FILE_SIZE, MAX_QUALITY_SCORE};
use crate::error::ErrorCode;
use crate::state::{
    registry_after_create, registry_can_grow, reputation_after_create, reputation_can_grow,
    Dataset, Identity, Registry, Reputation,
};

verus! {

/// The records and identities that one dataset creation works on.
///
/// `dataset_key` is the address at which the new dataset is stored; it becomes
/// the dataset's `id`. `dataset` holds the dataset record once it was created.
pub struct CreateDataset {
    pub admin: Identity,
    pub user: Identity,
    pub contributor: Identity,
    pub registry: Registry,
    pub dataset_key: Identity,
    pub dataset: Option<Dataset>,
    pub reputation: Reputation,
}

/// The address bumps that go with the records of a dataset creation.
pub struct CreateDatasetBumps {
    pub dataset: u8,
}

/// The error that the field checks give, in their order: name length first,
/// then quality score, then file size; `None` when every check passes.
pub open spec fn validation_error(
    file_name_len: int,
    quality_score: u8,
    file_size: u64,
) -> Option<ErrorCode> {
    if file_name_len > MAX_FILE_NAME_LEN {
        Some(ErrorCode::FileNameTooLong)
    } else if quality_score > MAX_QUALITY_SCORE {
        Some(ErrorCode::InvalidQualityScore)
    } else if file_size > MAX_FILE_SIZE {
        Some(ErrorCode::FileTooLarge)
    } else {
        None
    }
}

/// The error that a dataset creation on `accounts` gives, if any: a field
/// check first, then an overflow of the registry or of the reputation.
pub open spec fn create_error(
    accounts: CreateDataset,
    file_name_len: int,
    quality_score: u8,
    file_size: u64,
) -> Option<ErrorCode> {
    match validation_error(file_name_len, quality_score, file_size) {
        Some(e) => Some(e),
        None => if !registry_can_grow(accounts.registry) || !reputation_can_grow(
            accounts.reputation,
            quality_score,
        ) {
            Some(ErrorCode::NumericalOverflow)
        } else {
            None
        },
    }
}

/// The dataset record that a successful creation stores: the caller's fields,
/// the clock value `now` as upload time, and the defaults of a fresh record.
pub open spec fn new_dataset(
    id: Identity,
    contributor: Identity,
    content_hash: [u8; 32],
    ai_metadata: Vec<u8>,
    file_name: Vec<u8>,
    file_size: u64,
    data_uri: [u8; 256],
    column_count: u64,
    row_count: u64,
    quality_score: u8,
    now: i64,
    bump: u8,
) -> Dataset {
    Dataset {
        id,
        contributor,
        content_hash,
        ai_metadata,
        file_name,
        file_size,
        data_uri,
        column_count,
        row_count,
        quality_score,
        upload_timestamp: now,
        last_updated: None,
        download_count: 0,
        is_active: true,
        bump,
    }
}

/// `accounts` after one successful creation that stored `dataset`.
pub open spec fn created_state(accounts: CreateDataset, dataset: Dataset) -> CreateDataset {
    CreateDataset {
        registry: registry_after_create(accounts.registry),
        dataset: Some(dataset),
        reputation: reputation_after_create(
            accounts.reputation,
            accounts.contributor,
            dataset.quality_score,
        ),
        ..accounts
    }
}

/// Checks the caller-supplied fields of a new dataset, in the order of
/// `validation_error`.
pub fn validate_fields(file_name: &Vec<u8>, quality_score: u8, file_size: u64) -> (r: Result<
    (),
    ErrorCode,
>)
    ensures
        r is Ok <==> validation_error(file_name@.len() as int, quality_score, file_size) is None,
        r is Err ==> r == Err::<(), ErrorCode>(
            validation_error(file_name@.len() as int, quality_score, file_size).unwrap(),
        ),
{
    if file_name.len() > MAX_FILE_NAME_LEN {
        return Err(ErrorCode::FileNameTooLong);
    }
    if quality_score > MAX_QUALITY_SCORE {
        return Err(ErrorCode::InvalidQualityScore);
    }
    if file_size > MAX_FILE_SIZE {
        return Err(ErrorCode::FileTooLarge);
    }
    Ok(())
}

impl CreateDataset {
    /// Counts one more upload of score `quality_score` for the contributor;
    /// fails with `NumericalOverflow`, changing nothing, where a counter would
    /// overflow.
    fn update_reputation(&mut self, quality_score: u8) -> (r: Result<(), ErrorCode>)
        ensures
            r is Ok <==> reputation_can_grow(old(self).reputation, quality_score),
            r is Ok ==> *final(self) == (CreateDataset {
                reputation: reputation_after_create(
                    old(self).reputation,
                    old(self).contributor,
                    quality_score,
                ),
                ..*old(self)
            }),
            r is Err ==> r == Err::<(), ErrorCode>(ErrorCode::NumericalOverflow) && *final(self)
                == *old(self),
    {
        let total_uploads = match self.reputation.total_uploads.checked_add(1) {
            Some(v) => v,
            None => return Err(ErrorCode::NumericalOverflow),
        };
        let total_quality_score = match self.reputation.total_quality_score.checked_add(
            quality_score as u64,
        ) {
            Some(v) => v,
            None => return Err(ErrorCode::NumericalOverflow),
        };
        self.reputation.contributor = self.contributor;
        self.reputation.total_uploads = total_uploads;
        self.reputation.total_quality_score = total_quality_score;
        Ok(())
    }

    /// Validates the fields, stores a new dataset record stamped with the
    /// clock value `now`, and counts it in the registry and in the
    /// contributor's reputation. On any error nothing is changed.
    pub fn create_dataset(
        &mut self,
        content_hash: [u8; 32],
        ai_metadata: Vec<u8>,
        file_name: Vec<u8>,
        file_size: u64,
        data_uri: [u8; 256],
        column_count: u64,
        row_count: u64,
        quality_score: u8,
        now: i64,
        bumps: &CreateDatasetBumps,
    ) -> (r: Result<(), ErrorCode>)
        ensures
            r is Ok <==> create_error(*old(self), file_name@.len() as int, quality_score, file_size)
                is None,
            r is Err ==> r == Err::<(), ErrorCode>(
                create_error(*old(self), file_name@.len() as int, quality_score, file_size).unwrap(),
            ) && *final(self) == *old(self),
            r is Ok ==> *final(self) == created_state(
                *old(self),
                new_dataset(
                    old(self).dataset_key,
                    old(self).contributor,
                    content_hash,
                    ai_metadata,
                    file_name,
                    file_size,
                    data_uri,
                    column_count,
                    row_count,
                    quality_score,
                    now,
                    bumps.dataset,
                ),
            ),
    {
        validate_fields(&file_name, quality_score, file_size)?;
        let total_datasets = match self.registry.total_datasets.checked_add(1) {
            Some(v) => v,
            None => return Err(ErrorCode::NumericalOverflow),
        };
        self.update_reputation(quality_score)?;
        self.registry.total_datasets = total_datasets;
        self.dataset = Some(
            Dataset {
                id: self.dataset_key,
                contributor: self.contributor,
                content_hash,
                ai_metadata,
                file_name,
                file_size,
                data_uri,
                column_count,
                row_count,
                quality_score,
                upload_timestamp: now,
                last_updated: None,
                download_count: 0,
                is_active: true,
                bump: bumps.dataset,
            },
        );
        Ok(())
    }
}

} // verus!
