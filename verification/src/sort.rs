//! The host-facing package-listing boundary: a leaves-only filter and a
//! sort mode with exactly three values.
//!
//! The unsorted mode has no sort key, so it is routed through a distinct
//! query shape and can never reach a sorting routine: a sort key is only
//! ever constructed for the two sorted modes.

use vstd::pervasive::unreached;
use vstd::prelude::*;

verus! {

/// The sort mode a host may request when listing packages.
#[derive(Clone, Copy, Debug, PartialEq, Eq, Structural)]
pub enum TwPackagesSort {
    /// No ordering; must never reach a sorting routine.
    Unsorted,
    /// Sort by the package identifier.
    Identifier,
    /// Sort by the package's human-readable name.
    Name,
}

/// The key a sorting routine orders by. There is deliberately no value
/// for the unsorted mode: one cannot be constructed for it.
#[derive(Clone, Copy, Debug, PartialEq, Eq, Structural)]
pub enum PackagesSort {
    /// Order by the package identifier.
    Identifier,
    /// Order by the package's human-readable name.
    Name,
}

/// One package-listing request, with the unsorted mode kept on its own
/// path, apart from any sort key.
#[derive(Clone, Copy, Debug, PartialEq, Eq, Structural)]
pub enum PackageQuery {
    /// List in whatever order the database yields.
    Unsorted { leaves_only: bool },
    /// List ordered by the given key.
    Sorted { leaves_only: bool, sort: PackagesSort },
}

/// The sort key belonging to a sorted listing mode; no key exists for
/// the unsorted mode.
pub open spec fn sort_key(value: TwPackagesSort) -> PackagesSort
    recommends
        value != TwPackagesSort::Unsorted,
{
    match value {
        TwPackagesSort::Name => PackagesSort::Name,
        _ => PackagesSort::Identifier,
    }
}

/// The query a listing request is routed to: the unsorted mode keeps its
/// own shape, the sorted modes carry their key.
pub open spec fn planned_query(leaves_only: bool, sort: TwPackagesSort) -> PackageQuery {
    if sort == TwPackagesSort::Unsorted {
        PackageQuery::Unsorted { leaves_only }
    } else {
        PackageQuery::Sorted { leaves_only, sort: sort_key(sort) }
    }
}

impl PackagesSort {
    /// The sort key of a sorted listing mode. The unsorted mode has no
    /// key, so it is excluded outright rather than handled.
    pub fn from(value: TwPackagesSort) -> (r: Self)
        requires
            value != TwPackagesSort::Unsorted,
        ensures
            r == sort_key(value),
    {
        match value {
            TwPackagesSort::Identifier => PackagesSort::Identifier,
            TwPackagesSort::Name => PackagesSort::Name,
            TwPackagesSort::Unsorted => unreached(),
        }
    }
}

/// Routes a listing request: the unsorted mode goes to its own query
/// shape, and only the two sorted modes yield a sort key.
pub fn plan_package_query(leaves_only: bool, sort: TwPackagesSort) -> (r: PackageQuery)
    ensures
        r == planned_query(leaves_only, sort),
{
    match sort {
        TwPackagesSort::Unsorted => PackageQuery::Unsorted { leaves_only },
        TwPackagesSort::Identifier => PackageQuery::Sorted {
            leaves_only,
            sort: PackagesSort::Identifier,
        },
        TwPackagesSort::Name => PackageQuery::Sorted { leaves_only, sort: PackagesSort::Name },
    }
}

/// An unsorted listing request is never routed to a query that carries a
/// sort key, whatever the leaves-only filter.
pub proof fn lemma_unsorted_never_sorted(leaves_only: bool)
    ensures
        !(planned_query(leaves_only, TwPackagesSort::Unsorted) matches PackageQuery::Sorted {
            ..
        }),
{
}

} // verus!
