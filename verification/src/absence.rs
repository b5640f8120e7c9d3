use vstd::prelude::*;

verus! {

/// What an inspection of one path found, without following a link at that path.
#[derive(Debug, Clone, Copy, PartialEq, Eq, Structural)]
pub enum AncestorInspection {
    /// Nothing exists at the path.
    Missing,
    /// An entry exists at the path.
    Found { is_dir: bool, is_symlink: bool },
    /// The inspection failed for another reason, so nothing is known.
    Uncertain,
}

/// An inspection that shows a real directory, not a link to one.
pub open spec fn is_plain_directory(inspection: AncestorInspection) -> bool {
    inspection == (AncestorInspection::Found { is_dir: true, is_symlink: false })
}

/// The inspections of a path and its ancestors, the path itself first, show that the path
/// is absent: the first entry that exists is a plain directory and is a proper ancestor,
/// and no inspection before it failed.
pub open spec fn absence_shown(inspections: Seq<AncestorInspection>) -> bool {
    exists|i: int|
        #![trigger inspections[i]]
        0 < i < inspections.len() && is_plain_directory(inspections[i]) && (forall|j: int|
            0 <= j < i ==> #[trigger] inspections[j] == AncestorInspection::Missing)
}

/// Whether an executable path is absent, judged from the inspections of the path and of
/// each of its ancestors in turn, the path itself first.
///
/// An error that names a missing file may name a missing interpreter rather than a
/// missing executable, so only a path whose nearest existing ancestor is a plain directory
/// counts as absent. An entry at the path itself, a link anywhere on the way (a dangling
/// one too) and an inspection that failed all count as not absent.
pub fn executable_is_absent(inspections: &[AncestorInspection]) -> (absent: bool)
    ensures
        absent == absence_shown(inspections@),
{
    let count = inspections.len();
    for i in 0..count
        invariant
            count == inspections@.len(),
            forall|j: int| 0 <= j < i ==> #[trigger] inspections@[j] == AncestorInspection::Missing,
    {
        match inspections[i] {
            AncestorInspection::Missing => {},
            AncestorInspection::Found { is_dir, is_symlink } => {
                let absent = i != 0 && is_dir && !is_symlink;
                proof {
                    if !absent {
                        lemma_absence_needs_plain_ancestor(inspections@, i as int);
                    } else {
                        assert(is_plain_directory(inspections@[i as int]));
                    }
                }
                return absent;
            },
            AncestorInspection::Uncertain => {
                proof {
                    lemma_absence_needs_plain_ancestor(inspections@, i as int);
                }
                return false;
            },
        }
    }
    false
}

/// The first inspection that finds something decides: an entry at the path itself, a link,
/// anything but a plain directory, or a failed inspection before it, each means the path is
/// not shown to be absent.
pub proof fn lemma_absence_needs_plain_ancestor(inspections: Seq<AncestorInspection>, i: int)
    requires
        0 <= i < inspections.len(),
        forall|j: int| 0 <= j < i ==> #[trigger] inspections[j] == AncestorInspection::Missing,
        inspections[i] != AncestorInspection::Missing,
        i == 0 || !is_plain_directory(inspections[i]),
    ensures
        !absence_shown(inspections),
{
    assert forall|k: int|
        0 < k < inspections.len() && is_plain_directory(#[trigger] inspections[k]) implies !(forall|
        j: int|
        0 <= j < k ==> #[trigger] inspections[j] == AncestorInspection::Missing) by {
        if k > i {
            assert(inspections[i] != AncestorInspection::Missing);
        }
    }
}

/// When nothing on the way exists, not even the root, the path is not shown to be absent.
pub proof fn lemma_nothing_found_is_not_absent(inspections: Seq<AncestorInspection>)
    requires
        forall|j: int|
            0 <= j < inspections.len() ==> #[trigger] inspections[j] == AncestorInspection::Missing,
    ensures
        !absence_shown(inspections),
{
}

} // verus!
