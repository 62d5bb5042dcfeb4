//! Opening a ledger file: what to do for a location, and how many schema
//! migrations are still to run.
use vstd::prelude::*;

verus! {

/// Whether opening a ledger may create a missing file.
#[derive(Clone, Copy, Debug, PartialEq, Eq, Structural)]
pub enum CreateMissing {
    Yes,
    No,
}

/// Why a ledger is not opened.
#[derive(Clone, Copy, Debug, PartialEq, Eq, Structural)]
pub enum OpenRefusal {
    /// The file does not exist and may not be created.
    Missing,
    /// The location names no file.
    NotFileBacked,
}

/// How to open a ledger file.
#[derive(Clone, Copy, Debug, PartialEq, Eq, Structural)]
pub struct OpenPlan {
    /// Create the file's directory first.
    pub create_parent_directory: bool,
    /// Let the database create the file.
    pub create_if_missing: bool,
    /// Whether the ledger is new once opened.
    pub created_now: bool,
}

/// What opening a ledger does: a location without a file is refused; a
/// missing file is refused unless it may be created, in which case its
/// directory is made first; the ledger is new exactly when the file did not
/// exist.
pub fn open_plan(file_backed: bool, existed: bool, create: CreateMissing) -> (r: Result<
    OpenPlan,
    OpenRefusal,
>)
    ensures
        !file_backed ==> r == Err::<OpenPlan, OpenRefusal>(OpenRefusal::NotFileBacked),
        file_backed && !existed && create == CreateMissing::No ==> r == Err::<
            OpenPlan,
            OpenRefusal,
        >(OpenRefusal::Missing),
        file_backed && (existed || create == CreateMissing::Yes) ==> r == Ok::<
            OpenPlan,
            OpenRefusal,
        >(
            OpenPlan {
                create_parent_directory: !existed && create == CreateMissing::Yes,
                create_if_missing: create == CreateMissing::Yes,
                created_now: !existed,
            },
        ),
{
    if !file_backed {
        return Err(OpenRefusal::NotFileBacked);
    }
    let may_create = match create {
        CreateMissing::Yes => true,
        CreateMissing::No => false,
    };
    if !existed && !may_create {
        return Err(OpenRefusal::Missing);
    }
    Ok(
        OpenPlan {
            create_parent_directory: !existed && may_create,
            create_if_missing: may_create,
            created_now: !existed,
        },
    )
}

/// The known migrations that have not been applied.
pub open spec fn pending(known: Seq<i64>, applied: Seq<i64>) -> Seq<i64> {
    known.filter(|v: i64| !applied.contains(v))
}

/// How many known migrations have not been applied.
pub fn pending_count(known: &[i64], applied: &[i64]) -> (n: usize)
    ensures
        n == pending(known@, applied@).len(),
{
    let mut n: usize = 0;
    let mut i: usize = 0;
    while i < known.len()
        invariant
            i <= known@.len(),
            n == pending(known@.subrange(0, i as int), applied@).len(),
            n <= i,
        decreases known.len() - i,
    {
        let v = known[i];
        let mut found = false;
        let mut j: usize = 0;
        while j < applied.len()
            invariant
                j <= applied@.len(),
                found <==> exists|k: int| 0 <= k < j && applied@[k] == v,
            decreases applied.len() - j,
        {
            if applied[j] == v {
                found = true;
            }
            j = j + 1;
        }
        proof {
            let pre = known@.subrange(0, i as int);
            let next = known@.subrange(0, i + 1);
            assert(next =~= pre.push(v));
            reveal(Seq::filter);
            assert(next.drop_last() =~= pre);
            if found {
                let k = choose|k: int| 0 <= k < j && applied@[k] == v;
                assert(applied@.contains(v));
            } else {
                assert(!applied@.contains(v));
            }
        }
        if !found {
            n = n + 1;
        }
        i = i + 1;
    }
    proof {
        assert(known@.subrange(0, i as int) =~= known@);
    }
    n
}

} // verus!
