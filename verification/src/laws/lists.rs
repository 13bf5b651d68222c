//! Manifest lists: what becomes of the manifests that are written to one, and which row IDs they
//! are handed.

use crate::lineage::{
    lemma_owed_monotone, listed, listed_range, owed, owed_before, owed_rows, row_ids_fit,
    FormatVersion,
};
use crate::manifest::{ManifestContentType, ManifestFileView};
use vstd::prelude::*;

verus! {

/// Adding up the row IDs that manifests are owed, manifest by manifest.
pub(crate) proof fn lemma_owed_is_the_sum(
    manifests: Seq<ManifestFileView>,
    n: int,
    step: spec_fn(nat, ManifestFileView) -> nat,
)
    requires
        0 <= n <= manifests.len(),
        forall|sum: nat, manifest: ManifestFileView| #[trigger]
            step(sum, manifest) == (if manifest.content == ManifestContentType::Data
                && manifest.first_row_id is None {
                sum + manifest.existing_rows_count + manifest.added_rows_count
            } else {
                sum
            }),
    ensures
        owed_before(manifests, n) == manifests.take(n).fold_left(0, step),
    decreases n,
{
    if n > 0 {
        assert(manifests.take(n).drop_last() =~= manifests.take(n - 1));
        lemma_owed_is_the_sum(manifests, n - 1, step);
    }
}

/// A manifest list holds the manifests that are written to it, all of them and in their order,
/// with the content, the entries and the row counts that they had.
pub proof fn law_list_keeps_the_manifests(
    version: FormatVersion,
    manifests: Seq<ManifestFileView>,
    next_row_id: nat,
    i: int,
)
    requires
        0 <= i < manifests.len(),
    ensures
        listed(version, manifests, next_row_id).len() == manifests.len(),
        listed(version, manifests, next_row_id)[i].content == manifests[i].content,
        listed(version, manifests, next_row_id)[i].entries == manifests[i].entries,
        listed(version, manifests, next_row_id)[i].existing_rows_count
            == manifests[i].existing_rows_count,
        listed(version, manifests, next_row_id)[i].added_rows_count
            == manifests[i].added_rows_count,
{
}

/// Before version 3 a manifest list names no row ID, takes none, and is never short of any.
pub proof fn law_list_before_version_three(manifests: Seq<ManifestFileView>, next_row_id: nat)
    ensures
        forall|i: int|
            0 <= i < manifests.len() ==> (#[trigger] listed(
                FormatVersion::V2,
                manifests,
                next_row_id,
            )[i]).first_row_id is None,
        listed_range(FormatVersion::V2, manifests, next_row_id) is None,
        row_ids_fit(FormatVersion::V2, manifests, next_row_id),
{
}

/// At version 3 a delete manifest of a list has no row IDs. A data manifest keeps those that it
/// has. One that has none gets them: as many as it counts existing and added rows, from the ID on
/// that is free after the data manifests before it that had none either.
pub proof fn law_list_hands_out_row_ids(
    manifests: Seq<ManifestFileView>,
    next_row_id: nat,
    i: int,
)
    requires
        0 <= i < manifests.len(),
    ensures
        manifests[i].content == ManifestContentType::Deletes ==> listed(
            FormatVersion::V3,
            manifests,
            next_row_id,
        )[i].first_row_id is None,
        manifests[i].content == ManifestContentType::Data && manifests[i].first_row_id is Some
            ==> listed(FormatVersion::V3, manifests, next_row_id)[i].first_row_id
            == manifests[i].first_row_id,
        manifests[i].content == ManifestContentType::Data && manifests[i].first_row_id is None
            ==> listed(FormatVersion::V3, manifests, next_row_id)[i].first_row_id == Some(
            next_row_id + manifests.take(i).fold_left(
                0,
                |sum: nat, manifest: ManifestFileView|
                    if manifest.content == ManifestContentType::Data
                        && manifest.first_row_id is None {
                        sum + manifest.existing_rows_count + manifest.added_rows_count
                    } else {
                        sum
                    },
            ),
        ),
{
    lemma_owed_is_the_sum(
        manifests,
        i,
        |sum: nat, manifest: ManifestFileView|
            if manifest.content == ManifestContentType::Data && manifest.first_row_id is None {
                sum + manifest.existing_rows_count + manifest.added_rows_count
            } else {
                sum
            },
    );
}

/// At version 3 a list takes as many row IDs as the data manifests that come without row IDs count
/// existing and added rows, from the free ID on. It can be written exactly where the ID behind the
/// last of them is a row ID still.
pub proof fn law_list_takes_a_row_id_per_row(manifests: Seq<ManifestFileView>, next_row_id: nat)
    ensures
        listed_range(FormatVersion::V3, manifests, next_row_id) matches Some(range) && {
            &&& range.first_row_id == next_row_id
            &&& range.added_rows == manifests.fold_left(
                0,
                |sum: nat, manifest: ManifestFileView|
                    if manifest.content == ManifestContentType::Data
                        && manifest.first_row_id is None {
                        sum + manifest.existing_rows_count + manifest.added_rows_count
                    } else {
                        sum
                    },
            )
            &&& row_ids_fit(FormatVersion::V3, manifests, next_row_id) <==> range.first_row_id
                + range.added_rows <= u64::MAX
        },
{
    lemma_owed_is_the_sum(
        manifests,
        manifests.len() as int,
        |sum: nat, manifest: ManifestFileView|
            if manifest.content == ManifestContentType::Data && manifest.first_row_id is None {
                sum + manifest.existing_rows_count + manifest.added_rows_count
            } else {
                sum
            },
    );
    assert(manifests.take(manifests.len() as int) =~= manifests);
}

/// Looking at the first manifests only.
proof fn lemma_owed_before_of_prefix(
    manifests: Seq<ManifestFileView>,
    last: ManifestFileView,
    n: int,
)
    requires
        0 <= n <= manifests.len(),
    ensures
        owed_before(manifests.push(last), n) == owed_before(manifests, n),
    decreases n,
{
    if n > 0 {
        lemma_owed_before_of_prefix(manifests, last, n - 1);
    }
}

/// At version 3 a list with one manifest more hands the others what they got without it. The
/// manifest, if it is a data manifest and comes without row IDs, takes the IDs that are free after
/// those that the list took without it; the list then takes as many more as the manifest counts
/// rows. Any other manifest takes none. A list of no manifests takes none.
pub proof fn law_list_with_one_manifest_more(
    manifests: Seq<ManifestFileView>,
    last: ManifestFileView,
    next_row_id: nat,
)
    ensures
        listed(FormatVersion::V3, manifests.push(last), next_row_id).drop_last() == listed(
            FormatVersion::V3,
            manifests,
            next_row_id,
        ),
        listed_range(FormatVersion::V3, Seq::empty(), next_row_id) matches Some(range)
            && range.added_rows == 0,
        ({
            let more = manifests.push(last);
            let takes = last.content == ManifestContentType::Data && last.first_row_id is None;
            &&& listed_range(FormatVersion::V3, manifests, next_row_id) matches Some(without)
            &&& listed_range(FormatVersion::V3, more, next_row_id) matches Some(with)
            &&& takes ==> with.added_rows == without.added_rows + last.existing_rows_count
                + last.added_rows_count
            &&& !takes ==> with.added_rows == without.added_rows
            &&& takes ==> listed(FormatVersion::V3, more, next_row_id).last().first_row_id == Some(
                next_row_id + without.added_rows,
            )
        }),
{
    let all = manifests.push(last);
    let n = manifests.len() as int;
    assert forall|i: int| 0 <= i <= n implies owed_before(all, i) == #[trigger] owed_before(
        manifests,
        i,
    ) by {
        lemma_owed_before_of_prefix(manifests, last, i);
    }
    assert(owed_before(all, n) == owed_before(manifests, n));
    assert forall|i: int| 0 <= i < n implies #[trigger] listed(
        FormatVersion::V3,
        all,
        next_row_id,
    )[i] == listed(FormatVersion::V3, manifests, next_row_id)[i] by {
        assert(owed_before(all, i) == owed_before(manifests, i));
    }
    assert(listed(FormatVersion::V3, all, next_row_id).drop_last() =~= listed(
        FormatVersion::V3,
        manifests,
        next_row_id,
    ));
    assert(owed(all) == owed_before(all, n) + owed_rows(last));
}

/// The row IDs that a list hands out are apart: of two manifests that got theirs from the list, the
/// IDs of the one that stands before end before those of the other begin. All of them are in the
/// range that the list takes.
pub proof fn law_handed_out_row_ids_are_apart(
    manifests: Seq<ManifestFileView>,
    next_row_id: nat,
    i: int,
    j: int,
)
    requires
        0 <= i < j < manifests.len(),
        manifests[i].content == ManifestContentType::Data,
        manifests[i].first_row_id is None,
        manifests[j].content == ManifestContentType::Data,
        manifests[j].first_row_id is None,
    ensures
        ({
            let written = listed(FormatVersion::V3, manifests, next_row_id);
            &&& written[i].first_row_id matches Some(first)
            &&& written[j].first_row_id matches Some(second)
            &&& listed_range(FormatVersion::V3, manifests, next_row_id) matches Some(range)
            &&& range.first_row_id <= first
            &&& first + manifests[i].existing_rows_count + manifests[i].added_rows_count <= second
            &&& second + manifests[j].existing_rows_count + manifests[j].added_rows_count
                <= range.first_row_id + range.added_rows
        }),
{
    lemma_owed_monotone(manifests, i + 1, j);
    lemma_owed_monotone(manifests, j + 1, manifests.len() as int);
}

} // verus!
