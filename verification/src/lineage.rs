//! Row lineage: how a manifest list hands out row IDs.

use crate::error::{invalid, Error, ErrorKind, ErrorView};
use crate::manifest::{ManifestContentType, ManifestFile, ManifestFileView};
use crate::views::{outcome, views};
use vstd::prelude::*;

verus! {

/// The row IDs run out.
pub const ROW_ID_OVERFLOW: &'static str = "Row ID overflow in manifest list";

/// The versions of the table format that row lineage tells apart.
#[derive(Clone, Copy, PartialEq, Eq, Structural, Debug)]
pub enum FormatVersion {
    /// Rows carry no IDs.
    V2,
    /// Rows carry IDs.
    V3,
}

/// The row IDs that a snapshot assigned: `added_rows` of them, from `first_row_id` on.
#[derive(Clone, Copy, PartialEq, Eq, Structural, Debug)]
pub struct RowRange {
    pub first_row_id: u64,
    pub added_rows: u64,
}

/// The contents of a [`RowRange`].
pub struct RowRangeView {
    pub first_row_id: nat,
    pub added_rows: nat,
}

impl View for RowRange {
    type V = RowRangeView;

    open spec fn view(&self) -> RowRangeView {
        RowRangeView { first_row_id: self.first_row_id as nat, added_rows: self.added_rows as nat }
    }
}

/// The view of an optional row range.
pub open spec fn opt_range(range: Option<RowRange>) -> Option<RowRangeView> {
    match range {
        Some(r) => Some(r@),
        None => None,
    }
}

/// How many row IDs a manifest is still owed: all its rows if it is a data manifest without an
/// assignment, else none.
pub open spec fn owed_rows(manifest: ManifestFileView) -> nat {
    if manifest.content == ManifestContentType::Data && manifest.first_row_id is None {
        manifest.rows()
    } else {
        0
    }
}

/// How many row IDs the first `n` manifests are owed.
pub open spec fn owed_before(manifests: Seq<ManifestFileView>, n: int) -> nat
    decreases n,
{
    if n <= 0 {
        0
    } else {
        owed_before(manifests, n - 1) + owed_rows(manifests[n - 1])
    }
}

/// How many row IDs the manifests are owed.
pub open spec fn owed(manifests: Seq<ManifestFileView>) -> nat {
    owed_before(manifests, manifests.len() as int)
}

/// The row ID that manifest `i` of a list gets at version 3, where `next_row_id` is free. A
/// data manifest keeps the one it has, else takes the next after those of the manifests before
/// it. A delete manifest has none.
pub open spec fn assigned_row_id(
    manifests: Seq<ManifestFileView>,
    next_row_id: nat,
    i: int,
) -> Option<nat> {
    match manifests[i].content {
        ManifestContentType::Deletes => None,
        ManifestContentType::Data => match manifests[i].first_row_id {
            Some(kept) => Some(kept),
            None => Some(next_row_id + owed_before(manifests, i)),
        },
    }
}

/// The manifests as the manifest list holds them. At version 2 none names a row ID.
pub open spec fn listed(
    version: FormatVersion,
    manifests: Seq<ManifestFileView>,
    next_row_id: nat,
) -> Seq<ManifestFileView> {
    Seq::new(
        manifests.len(),
        |i: int|
            ManifestFileView {
                first_row_id: match version {
                    FormatVersion::V2 => None,
                    FormatVersion::V3 => assigned_row_id(manifests, next_row_id, i),
                },
                ..manifests[i]
            },
    )
}

/// The row IDs that writing the manifest list assigns. At version 2 there are none; at version 3
/// the range starts at the free ID, even where it is empty.
pub open spec fn listed_range(
    version: FormatVersion,
    manifests: Seq<ManifestFileView>,
    next_row_id: nat,
) -> Option<RowRangeView> {
    match version {
        FormatVersion::V2 => None,
        FormatVersion::V3 => Some(
            RowRangeView { first_row_id: next_row_id, added_rows: owed(manifests) },
        ),
    }
}

/// Whether there are row IDs enough.
pub open spec fn row_ids_fit(
    version: FormatVersion,
    manifests: Seq<ManifestFileView>,
    next_row_id: nat,
) -> bool {
    version == FormatVersion::V3 ==> next_row_id + owed(manifests) <= u64::MAX
}

/// More manifests are owed no fewer row IDs.
pub proof fn lemma_owed_monotone(manifests: Seq<ManifestFileView>, m: int, n: int)
    requires
        m <= n,
    ensures
        owed_before(manifests, m) <= owed_before(manifests, n),
    decreases n - m,
{
    if 0 < n && m < n {
        lemma_owed_monotone(manifests, m, n - 1);
    }
}

/// Whether the manifest's rows have the row ID among theirs.
pub open spec fn has_row_id(manifest: ManifestFileView, id: nat) -> bool {
    manifest.first_row_id matches Some(first) && first <= id < first + manifest.rows()
}

/// Whether the row IDs of two manifests, where both have them, are apart.
pub open spec fn row_ids_apart(left: ManifestFileView, right: ManifestFileView) -> bool {
    match (left.first_row_id, right.first_row_id) {
        (Some(l), Some(r)) => l + left.rows() <= r || r + right.rows() <= l,
        _ => true,
    }
}

/// Whether the assignments of a list of manifests are in order: delete manifests have none,
/// those of data manifests are below the free ID, and no two of them overlap.
pub open spec fn assignments_in_order(
    manifests: Seq<ManifestFileView>,
    next_row_id: nat,
) -> bool {
    &&& forall|i: int|
        0 <= i < manifests.len() && (#[trigger] manifests[i]).content
            == ManifestContentType::Deletes ==> manifests[i].first_row_id is None
    &&& forall|i: int|
        0 <= i < manifests.len() ==> ((#[trigger] manifests[i]).first_row_id matches Some(first)
            ==> first + manifests[i].rows() <= next_row_id)
    &&& forall|i: int, j: int|
        0 <= i < manifests.len() && 0 <= j < manifests.len() && i != j ==> row_ids_apart(
            #[trigger] manifests[i],
            #[trigger] manifests[j],
        )
}

/// Whether every data manifest has row IDs.
pub open spec fn all_assigned(manifests: Seq<ManifestFileView>) -> bool {
    forall|i: int|
        0 <= i < manifests.len() && (#[trigger] manifests[i]).content
            == ManifestContentType::Data ==> manifests[i].first_row_id is Some
}

/// Whether no manifest has row IDs.
pub open spec fn none_assigned(manifests: Seq<ManifestFileView>) -> bool {
    forall|i: int| 0 <= i < manifests.len() ==> (#[trigger] manifests[i]).first_row_id is None
}

/// Writing a manifest list at version 3 keeps the assignments in order, and leaves no data
/// manifest without one.
pub proof fn lemma_listed_in_order(manifests: Seq<ManifestFileView>, next_row_id: nat)
    requires
        assignments_in_order(manifests, next_row_id),
    ensures
        assignments_in_order(
            listed(FormatVersion::V3, manifests, next_row_id),
            next_row_id + owed(manifests),
        ),
        all_assigned(listed(FormatVersion::V3, manifests, next_row_id)),
{
    let written = listed(FormatVersion::V3, manifests, next_row_id);
    let n = manifests.len() as int;
    assert forall|i: int| 0 <= i < n implies ((#[trigger] written[i]).first_row_id matches Some(
        first,
    ) ==> first + written[i].rows() <= next_row_id + owed(manifests)) by {
        assert(written[i].rows() == manifests[i].rows());
        lemma_owed_monotone(manifests, i + 1, n);
    }
    assert forall|i: int, j: int| 0 <= i < n && 0 <= j < n && i != j implies row_ids_apart(
        #[trigger] written[i],
        #[trigger] written[j],
    ) by {
        assert(row_ids_apart(manifests[i], manifests[j]));
        assert(written[i].rows() == manifests[i].rows());
        assert(written[j].rows() == manifests[j].rows());
        if i < j {
            lemma_owed_monotone(manifests, i + 1, j);
        } else {
            lemma_owed_monotone(manifests, j + 1, i);
        }
    }
}

/// A written manifest list.
#[derive(Debug)]
pub struct ManifestList {
    pub manifests: Vec<ManifestFile>,
    pub row_range: Option<RowRange>,
}

/// The contents of a [`ManifestList`].
pub struct ManifestListView {
    pub manifests: Seq<ManifestFileView>,
    pub row_range: Option<RowRangeView>,
}

impl View for ManifestList {
    type V = ManifestListView;

    open spec fn view(&self) -> ManifestListView {
        ManifestListView {
            manifests: views(self.manifests@),
            row_range: opt_range(self.row_range),
        }
    }
}

impl ManifestList {
    /// Writes the manifests to a list, in their order, and hands out row IDs from `next_row_id`
    /// on.
    pub fn write(
        version: FormatVersion,
        next_row_id: u64,
        manifests: &Vec<ManifestFile>,
    ) -> (list: Result<ManifestList, Error>)
        ensures
            outcome(list) == (if row_ids_fit(version, views(manifests@), next_row_id as nat) {
                Ok::<ManifestListView, ErrorView>(
                    ManifestListView {
                        manifests: listed(version, views(manifests@), next_row_id as nat),
                        row_range: listed_range(version, views(manifests@), next_row_id as nat),
                    },
                )
            } else {
                Err(invalid(ROW_ID_OVERFLOW))
            }),
            list matches Ok(written) ==> {
                &&& written.manifests.len() == manifests.len()
                &&& forall|i: int|
                    0 <= i < manifests.len() ==> {
                        &&& (#[trigger] written.manifests@[i]).content == manifests@[i].content
                        &&& written.manifests@[i].entries == manifests@[i].entries
                        &&& written.manifests@[i].existing_rows_count
                            == manifests@[i].existing_rows_count
                        &&& written.manifests@[i].added_rows_count
                            == manifests@[i].added_rows_count
                    }
                &&& version == FormatVersion::V2 ==> written.row_range is None
                &&& version == FormatVersion::V3 ==> (written.row_range matches Some(range)
                    && range.first_row_id == next_row_id)
            },
    {
        let ghost all = views(manifests@);
        let mut written: Vec<ManifestFile> = Vec::new();
        let mut free: u64 = next_row_id;
        let mut i: usize = 0;
        while i < manifests.len()
            invariant
                i <= manifests.len(),
                all == views(manifests@),
                written.len() == i,
                version == FormatVersion::V3 ==> free == next_row_id + owed_before(all, i as int),
                forall|j: int|
                    0 <= j < i ==> (#[trigger] written@[j])@ == listed(
                        version,
                        all,
                        next_row_id as nat,
                    )[j],
                forall|j: int|
                    0 <= j < i ==> {
                        &&& (#[trigger] written@[j]).content == manifests@[j].content
                        &&& written@[j].entries == manifests@[j].entries
                        &&& written@[j].existing_rows_count == manifests@[j].existing_rows_count
                        &&& written@[j].added_rows_count == manifests@[j].added_rows_count
                    },
            decreases manifests.len() - i,
        {
            let manifest = &manifests[i];
            assert(all[i as int] == manifest@);
            let first_row_id: Option<u64> = match version {
                FormatVersion::V2 => None,
                FormatVersion::V3 => match manifest.content {
                    ManifestContentType::Deletes => None,
                    ManifestContentType::Data => match manifest.first_row_id {
                        Some(kept) => Some(kept),
                        None => {
                            let first: u64 = free;
                            proof {
                                lemma_owed_monotone(all, i + 1, all.len() as int);
                            }
                            free = match advance(
                                free,
                                manifest.existing_rows_count,
                                manifest.added_rows_count,
                            ) {
                                Some(sum) => sum,
                                None => {
                                    return Err(
                                        Error::new(ErrorKind::DataInvalid, ROW_ID_OVERFLOW),
                                    );
                                },
                            };
                            Some(first)
                        },
                    },
                },
            };
            written.push(manifest.with_first_row_id(first_row_id));
            i += 1;
        }
        assert(views(written@) =~= listed(version, all, next_row_id as nat));
        let row_range = match version {
            FormatVersion::V2 => None,
            FormatVersion::V3 => Some(
                RowRange { first_row_id: next_row_id, added_rows: free - next_row_id },
            ),
        };
        Ok(ManifestList { manifests: written, row_range })
    }
}

/// The row ID after a manifest's rows, if there is one.
fn advance(free: u64, existing_rows: u64, added_rows: u64) -> (next: Option<u64>)
    ensures
        next == (if free + existing_rows + added_rows <= u64::MAX {
            Some((free + existing_rows + added_rows) as u64)
        } else {
            None
        }),
{
    match free.checked_add(existing_rows) {
        Some(sum) => sum.checked_add(added_rows),
        None => None,
    }
}

} // verus!
