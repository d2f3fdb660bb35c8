use vstd::prelude::*;

use crate::constants::{MAX_FILE_NAME_LEN, MAX_FILE_SIZE, MAX_QUALITY_SCORE};
use crate::create_dataset::{create_error, CreateDataset};
use crate::error::ErrorCode;
use crate::state::{
    registry_after_create, reputation_after_create, reputation_can_grow, Identity, Registry,
    Reputation,
};

verus! {

/// The sum of the quality scores `qs`.
pub open spec fn score_sum(qs: Seq<u8>) -> int
    decreases qs.len(),
{
    if qs.len() == 0 {
        0
    } else {
        score_sum(qs.drop_last()) + qs.last()
    }
}

/// A request that breaks exactly one field rule fails with that rule's error,
/// whatever the state of the registry and of the reputation; a failed request
/// changes no record (see the contract of `CreateDataset::create_dataset`).
pub proof fn single_violation_gives_its_error(
    accounts: CreateDataset,
    file_name_len: nat,
    quality_score: u8,
    file_size: u64,
)
    requires
        (file_name_len > MAX_FILE_NAME_LEN) as int + (quality_score > MAX_QUALITY_SCORE) as int + (
        file_size > MAX_FILE_SIZE) as int == 1,
    ensures
        file_name_len > MAX_FILE_NAME_LEN ==> create_error(
            accounts,
            file_name_len as int,
            quality_score,
            file_size,
        ) == Some(ErrorCode::FileNameTooLong),
        quality_score > MAX_QUALITY_SCORE ==> create_error(
            accounts,
            file_name_len as int,
            quality_score,
            file_size,
        ) == Some(ErrorCode::InvalidQualityScore),
        file_size > MAX_FILE_SIZE ==> create_error(
            accounts,
            file_name_len as int,
            quality_score,
            file_size,
        ) == Some(ErrorCode::FileTooLarge),
{
}

/// After `n` successful creations against one registry, its dataset count has
/// grown by exactly `n`. `rs[i]` is the registry before the `i`-th creation.
pub proof fn registry_counts_every_creation(rs: Seq<Registry>)
    requires
        rs.len() >= 1,
        forall|i: int|
            0 <= i < rs.len() - 1 ==> #[trigger] rs[i + 1] == registry_after_create(rs[i])
                && rs[i].total_datasets < u64::MAX,
    ensures
        rs.last().total_datasets == rs[0].total_datasets + (rs.len() - 1),
        rs.last().owner == rs[0].owner,
    decreases rs.len(),
{
    if rs.len() > 1 {
        let prefix = rs.drop_last();
        assert forall|i: int| 0 <= i < prefix.len() - 1 implies #[trigger] prefix[i + 1]
            == registry_after_create(prefix[i]) && prefix[i].total_datasets < u64::MAX by {
            assert(rs[i + 1] == registry_after_create(rs[i]));
        }
        registry_counts_every_creation(prefix);
        let j = rs.len() - 2;
        assert(rs[j + 1] == registry_after_create(rs[j]));
    }
}

/// After successful creations by one contributor with quality scores `qs`,
/// the contributor's upload count has grown by the number of scores and the
/// quality-score sum by their sum. `reps[i]` is the reputation before the
/// creation of score `qs[i]`.
pub proof fn reputation_counts_every_upload(
    reps: Seq<Reputation>,
    contributor: Identity,
    qs: Seq<u8>,
)
    requires
        reps.len() == qs.len() + 1,
        forall|i: int|
            0 <= i < qs.len() ==> #[trigger] reps[i + 1] == reputation_after_create(
                reps[i],
                contributor,
                qs[i],
            ) && reps[i].total_uploads < u32::MAX && reps[i].total_quality_score + qs[i]
                <= u64::MAX,
    ensures
        reps.last().total_uploads == reps[0].total_uploads + qs.len(),
        reps.last().total_quality_score == reps[0].total_quality_score + score_sum(qs),
    decreases qs.len(),
{
    if qs.len() > 0 {
        let rp = reps.drop_last();
        let qp = qs.drop_last();
        assert forall|i: int| 0 <= i < qp.len() implies #[trigger] rp[i + 1]
            == reputation_after_create(rp[i], contributor, qp[i]) && rp[i].total_uploads
            < u32::MAX && rp[i].total_quality_score + qp[i] <= u64::MAX by {
            assert(reps[i + 1] == reputation_after_create(reps[i], contributor, qs[i]));
        }
        reputation_counts_every_upload(rp, contributor, qp);
        let k = qs.len() - 1;
        assert(reps[k + 1] == reputation_after_create(reps[k], contributor, qs[k]));
    }
}

} // verus!

verus! {

/// A request whose fields pass every check but whose reputation update would
/// overflow fails with `NumericalOverflow`; by the contract of
/// `CreateDataset::create_dataset` it then stores no dataset and leaves the
/// registry's count as it was.
pub proof fn reputation_overflow_fails_the_request(
    accounts: CreateDataset,
    file_name_len: nat,
    quality_score: u8,
    file_size: u64,
)
    requires
        file_name_len <= MAX_FILE_NAME_LEN,
        quality_score <= MAX_QUALITY_SCORE,
        file_size <= MAX_FILE_SIZE,
        !reputation_can_grow(accounts.reputation, quality_score),
    ensures
        create_error(accounts, file_name_len as int, quality_score, file_size) == Some(
            ErrorCode::NumericalOverflow,
        ),
{
}

} // verus!
