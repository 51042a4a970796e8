//! Local (moving-neighbourhood) kriging: the parts of it that are not
//! floating-point arithmetic.
//!
//! For every target point the caller gathers the conditioning points within
//! the search radius, assembles a small kriging system, solves it and
//! combines the weights with the conditioning values. This module states and
//! proves where each entry of that system comes from ([`lhs_layout`],
//! [`rhs_layout`]), which error a failed run reports ([`collect_outcomes`]),
//! and how the errors read ([`LocalKrigeError::message`]).

use vstd::prelude::*;

use crate::text::{decimal, push_decimal};

verus! {

/// Why local kriging failed at some target point.
#[derive(Clone, Copy, Debug, PartialEq, Eq, Structural)]
pub enum LocalKrigeError {
    /// No conditioning point fell within `local_radius` of this target point.
    NoNeighbors { target_index: usize },
    /// The local kriging matrix of this target point was singular even for
    /// the least-squares fallback of the dense solver.
    SingularSystem { target_index: usize },
}

/// The dense solver found no solution, not even a least-squares one.
#[derive(Clone, Copy, Debug, PartialEq, Eq, Structural)]
pub struct SingularSystem;

/// The human-readable text of an error.
pub open spec fn error_message(e: LocalKrigeError) -> Seq<char> {
    match e {
        LocalKrigeError::NoNeighbors { target_index } =>
            "no conditioning points within local_radius for target point "@
                + decimal(target_index as nat) + "; increase local_radius"@,
        LocalKrigeError::SingularSystem { target_index } =>
            "local kriging matrix for target point "@ + decimal(target_index as nat)
                + " is singular even for the least-squares fallback"@,
    }
}

impl LocalKrigeError {
    /// The text that displaying this error shows.
    pub fn message(&self) -> (s: String)
        ensures
            s@ == error_message(*self),
            self matches LocalKrigeError::NoNeighbors { target_index } ==> s@
                == "no conditioning points within local_radius for target point "@ + decimal(
                target_index as nat,
            ) + "; increase local_radius"@,
            self matches LocalKrigeError::SingularSystem { target_index } ==> s@
                == "local kriging matrix for target point "@ + decimal(target_index as nat)
                + " is singular even for the least-squares fallback"@,
    {
        match *self {
            LocalKrigeError::NoNeighbors { target_index } => {
                let mut s = String::from_str(
                    "no conditioning points within local_radius for target point ",
                );
                push_decimal(&mut s, target_index);
                s.append("; increase local_radius");
                s
            },
            LocalKrigeError::SingularSystem { target_index } => {
                let mut s = String::from_str("local kriging matrix for target point ");
                push_decimal(&mut s, target_index);
                s.append(" is singular even for the least-squares fallback");
                s
            },
        }
    }
}


/// `1` when the unbiasedness (Lagrange) row and column are present, else `0`.
pub open spec fn unbiased_pad(unbiased: bool) -> nat {
    if unbiased { 1 } else { 0 }
}

/// Dimension of the local kriging system of `k` neighbours with `drift_no`
/// drift terms: `k + drift_no + (1 if unbiased)`.
pub open spec fn system_size(k: nat, drift_no: nat, unbiased: bool) -> nat {
    k + drift_no + unbiased_pad(unbiased)
}

/// What one entry of the local kriging matrix (LHS) holds.
#[derive(Clone, Copy, Debug, PartialEq, Eq, Structural)]
pub enum LhsEntry {
    /// `covariance(|x_row - x_col|)` between two distinct neighbours.
    Covariance { row: usize, col: usize },
    /// `covariance(|x_i - x_i|) + cond_err[i]` on the diagonal.
    CovariancePlusError { neighbor: usize },
    /// The unbiasedness constraint: `1.0`.
    One,
    /// Drift term `term` evaluated at neighbour `neighbor`.
    Drift { term: usize, neighbor: usize },
    /// `0.0`.
    Zero,
}

/// What one entry of the local kriging vector (RHS) holds.
#[derive(Clone, Copy, Debug, PartialEq, Eq, Structural)]
pub enum RhsEntry {
    /// `covariance(d_i)`, `d_i` the distance of neighbour `i` to the target.
    Covariance { neighbor: usize },
    /// `cov_nugget(d_i)`: the covariance with the nugget added back at
    /// distance zero (the exact variant).
    CovNugget { neighbor: usize },
    /// The unbiasedness constraint: `1.0`.
    One,
    /// Drift term `term` evaluated at the target point.
    Drift { term: usize },
}

/// Entry `(r, c)` of the local kriging matrix: the `k x k` block of
/// neighbour covariances (measurement error on its diagonal), then the
/// unbiasedness row and column of ones, then one row and one column per
/// drift term, and zeros in the bottom-right block.
pub open spec fn lhs_entry(k: nat, drift_no: nat, unbiased: bool, r: nat, c: nat) -> LhsEntry {
    let off = k + unbiased_pad(unbiased);
    if r < k && c < k {
        if r == c {
            LhsEntry::CovariancePlusError { neighbor: r as usize }
        } else {
            LhsEntry::Covariance { row: r as usize, col: c as usize }
        }
    } else if unbiased && r == k && c < k {
        LhsEntry::One
    } else if unbiased && c == k && r < k {
        LhsEntry::One
    } else if off <= r && c < k {
        LhsEntry::Drift { term: (r - off) as usize, neighbor: c as usize }
    } else if off <= c && r < k {
        LhsEntry::Drift { term: (c - off) as usize, neighbor: r as usize }
    } else {
        LhsEntry::Zero
    }
}

/// Entry `i` of the local kriging vector: one covariance per neighbour
/// (nugget-aware in the exact variant), then the unbiasedness `1`, then the
/// drift terms at the target point.
pub open spec fn rhs_entry(k: nat, drift_no: nat, exact: bool, unbiased: bool, i: nat) -> RhsEntry {
    if i < k {
        if exact {
            RhsEntry::CovNugget { neighbor: i as usize }
        } else {
            RhsEntry::Covariance { neighbor: i as usize }
        }
    } else if unbiased && i == k {
        RhsEntry::One
    } else {
        RhsEntry::Drift { term: (i - k - unbiased_pad(unbiased)) as usize }
    }
}

fn lhs_entry_at(k: usize, drift_no: usize, unbiased: bool, r: usize, c: usize) -> (e: LhsEntry)
    requires
        k + drift_no + 1 <= usize::MAX,
    ensures
        e == lhs_entry(k as nat, drift_no as nat, unbiased, r as nat, c as nat),
{
    let off = if unbiased { k + 1 } else { k };
    if r < k && c < k {
        if r == c {
            LhsEntry::CovariancePlusError { neighbor: r }
        } else {
            LhsEntry::Covariance { row: r, col: c }
        }
    } else if unbiased && r == k && c < k {
        LhsEntry::One
    } else if unbiased && c == k && r < k {
        LhsEntry::One
    } else if off <= r && c < k {
        LhsEntry::Drift { term: r - off, neighbor: c }
    } else if off <= c && r < k {
        LhsEntry::Drift { term: c - off, neighbor: r }
    } else {
        LhsEntry::Zero
    }
}

/// The layout of the local kriging matrix of `k` neighbours with
/// `drift_no` drift terms: a square matrix of dimension
/// `k + drift_no + (1 if unbiased)` whose entry `(r, c)` is
/// [`lhs_entry`]`(r, c)`.
pub fn lhs_layout(k: usize, drift_no: usize, unbiased: bool) -> (m: Vec<Vec<LhsEntry>>)
    requires
        k + drift_no + 1 <= usize::MAX,
    ensures
        m@.len() == system_size(k as nat, drift_no as nat, unbiased),
        forall|r: int|
            0 <= r < m@.len() ==> #[trigger] m@[r]@.len() == system_size(
                k as nat,
                drift_no as nat,
                unbiased,
            ),
        forall|r: int, c: int|
            0 <= r < m@.len() && 0 <= c < m@[r]@.len() ==> #[trigger] m@[r]@[c] == lhs_entry(
                k as nat,
                drift_no as nat,
                unbiased,
                r as nat,
                c as nat,
            ),
        m@.len() == k + drift_no + (if unbiased { 1int } else { 0int }),
        // the neighbour block: measurement error on the diagonal, and the
        // covariance between neighbours `r` and `c` at `(r, c)`
        forall|r: int, c: int|
            0 <= r < k && 0 <= c < k ==> #[trigger] m@[r]@[c] == if r == c {
                (LhsEntry::CovariancePlusError { neighbor: r as usize })
            } else {
                (LhsEntry::Covariance { row: r as usize, col: c as usize })
            },
        // the unbiasedness row and column
        unbiased ==> forall|c: int| 0 <= c < k ==> #[trigger] m@[k as int]@[c] == LhsEntry::One,
        unbiased ==> forall|r: int| 0 <= r < k ==> #[trigger] m@[r]@[k as int] == LhsEntry::One,
        // past the unbiasedness row/column, row and column `k (+ 1) + d` hold
        // drift term `d`
        forall|r: int, c: int|
            k + (if unbiased { 1int } else { 0int }) <= r < m@.len() && 0 <= c < k
                ==> #[trigger] m@[r]@[c] == (LhsEntry::Drift {
                term: (r - k - (if unbiased { 1int } else { 0int })) as usize,
                neighbor: c as usize,
            }),
        forall|r: int, c: int|
            0 <= r < k && k + (if unbiased { 1int } else { 0int }) <= c < m@.len()
                ==> #[trigger] m@[r]@[c] == (LhsEntry::Drift {
                term: (c - k - (if unbiased { 1int } else { 0int })) as usize,
                neighbor: r as usize,
            }),
        // zeros where two constraints meet
        forall|r: int, c: int|
            k <= r < m@.len() && k <= c < m@.len() ==> #[trigger] m@[r]@[c] == LhsEntry::Zero,
{
    let size = if unbiased { k + drift_no + 1 } else { k + drift_no };
    let mut m: Vec<Vec<LhsEntry>> = Vec::new();
    let mut r: usize = 0;
    while r < size
        invariant
            k + drift_no + 1 <= usize::MAX,
            size == system_size(k as nat, drift_no as nat, unbiased),
            r <= size,
            m@.len() == r,
            forall|i: int| 0 <= i < r ==> #[trigger] m@[i]@.len() == size,
            forall|i: int, c: int|
                0 <= i < r && 0 <= c < size ==> #[trigger] m@[i]@[c] == lhs_entry(
                    k as nat,
                    drift_no as nat,
                    unbiased,
                    i as nat,
                    c as nat,
                ),
        decreases size - r,
    {
        let mut row: Vec<LhsEntry> = Vec::new();
        let mut c: usize = 0;
        while c < size
            invariant
                k + drift_no + 1 <= usize::MAX,
                r < size,
                c <= size,
                row@.len() == c,
                forall|j: int|
                    0 <= j < c ==> #[trigger] row@[j] == lhs_entry(
                        k as nat,
                        drift_no as nat,
                        unbiased,
                        r as nat,
                        j as nat,
                    ),
            decreases size - c,
        {
            row.push(lhs_entry_at(k, drift_no, unbiased, r, c));
            c = c + 1;
        }
        m.push(row);
        r = r + 1;
    }
    m
}

/// The layout of the local kriging vector matching [`lhs_layout`]: a
/// vector of length `k + drift_no + (1 if unbiased)` whose entry `i` is
/// [`rhs_entry`]`(i)`.
pub fn rhs_layout(k: usize, drift_no: usize, exact: bool, unbiased: bool) -> (v: Vec<RhsEntry>)
    requires
        k + drift_no + 1 <= usize::MAX,
    ensures
        v@.len() == system_size(k as nat, drift_no as nat, unbiased),
        forall|i: int|
            0 <= i < v@.len() ==> #[trigger] v@[i] == rhs_entry(
                k as nat,
                drift_no as nat,
                exact,
                unbiased,
                i as nat,
            ),
        v@.len() == k + drift_no + (if unbiased { 1int } else { 0int }),
        // entry `i < k` relates neighbour `i` itself to the target
        forall|i: int|
            0 <= i < k ==> #[trigger] v@[i] == if exact {
                (RhsEntry::CovNugget { neighbor: i as usize })
            } else {
                (RhsEntry::Covariance { neighbor: i as usize })
            },
        unbiased ==> v@[k as int] == RhsEntry::One,
        // entry `k (+ 1 if unbiased) + d` holds drift term `d` at the target
        forall|i: int|
            k + (if unbiased { 1int } else { 0int }) <= i < v@.len() ==> #[trigger] v@[i]
                == (RhsEntry::Drift { term: (i - k - (if unbiased { 1int } else { 0int })) as usize }),
{
    let size = if unbiased { k + drift_no + 1 } else { k + drift_no };
    let mut v: Vec<RhsEntry> = Vec::new();
    let mut i: usize = 0;
    while i < size
        invariant
            k + drift_no + 1 <= usize::MAX,
            size == system_size(k as nat, drift_no as nat, unbiased),
            i <= size,
            v@.len() == i,
            forall|j: int|
                0 <= j < i ==> #[trigger] v@[j] == rhs_entry(
                    k as nat,
                    drift_no as nat,
                    exact,
                    unbiased,
                    j as nat,
                ),
        decreases size - i,
    {
        let e = if i < k {
            if exact {
                RhsEntry::CovNugget { neighbor: i }
            } else {
                RhsEntry::Covariance { neighbor: i }
            }
        } else if unbiased && i == k {
            RhsEntry::One
        } else if unbiased {
            RhsEntry::Drift { term: i - k - 1 }
        } else {
            RhsEntry::Drift { term: i - k }
        };
        v.push(e);
        i = i + 1;
    }
    v
}


/// The entry at the mirrored position: covariances swap their two
/// neighbours, everything else is its own mirror image.
pub open spec fn mirrored(e: LhsEntry) -> LhsEntry {
    match e {
        LhsEntry::Covariance { row, col } => LhsEntry::Covariance { row: col, col: row },
        _ => e,
    }
}

/// The local kriging matrix is symmetric: entry `(r, c)` draws on the same
/// neighbours, drift term or constant as entry `(c, r)`.
pub proof fn lemma_lhs_symmetric(k: nat, drift_no: nat, unbiased: bool, r: nat, c: nat)
    requires
        r < system_size(k, drift_no, unbiased),
        c < system_size(k, drift_no, unbiased),
    ensures
        lhs_entry(k, drift_no, unbiased, r, c) == mirrored(lhs_entry(k, drift_no, unbiased, c, r)),
{
}

/// Every entry of the local kriging matrix refers only to existing
/// neighbours (`< k`) and existing drift terms (`< drift_no`).
pub proof fn lemma_lhs_indices_in_range(k: nat, drift_no: nat, unbiased: bool, r: nat, c: nat)
    requires
        system_size(k, drift_no, unbiased) <= usize::MAX,
        r < system_size(k, drift_no, unbiased),
        c < system_size(k, drift_no, unbiased),
    ensures
        match lhs_entry(k, drift_no, unbiased, r, c) {
            (LhsEntry::Covariance { row, col }) => row < k && col < k && row != col,
            (LhsEntry::CovariancePlusError { neighbor }) => neighbor < k && neighbor == r && r == c,
            (LhsEntry::Drift { term, neighbor }) => term < drift_no && neighbor < k,
            _ => true,
        },
{
}

/// Every entry of the local kriging vector refers only to existing
/// neighbours (`< k`) and existing drift terms (`< drift_no`).
pub proof fn lemma_rhs_indices_in_range(k: nat, drift_no: nat, exact: bool, unbiased: bool, i: nat)
    requires
        system_size(k, drift_no, unbiased) <= usize::MAX,
        i < system_size(k, drift_no, unbiased),
    ensures
        match rhs_entry(k, drift_no, exact, unbiased, i) {
            (RhsEntry::Covariance { neighbor }) => neighbor < k && !exact,
            (RhsEntry::CovNugget { neighbor }) => neighbor < k && exact,
            (RhsEntry::Drift { term }) => term < drift_no,
            RhsEntry::One => unbiased && i == k,
        },
{
}

/// The matrix and the vector of one local system line up: past the `k`
/// neighbour rows, a row of the matrix is the unbiasedness row exactly where
/// the vector holds its `1`, and it is the row of drift term `d` exactly
/// where the vector holds drift term `d` at the target.
pub proof fn lemma_constraint_rows_match(
    k: nat,
    drift_no: nat,
    exact: bool,
    unbiased: bool,
    i: nat,
    c: nat,
)
    requires
        k <= i < system_size(k, drift_no, unbiased),
        c < k,
    ensures
        (lhs_entry(k, drift_no, unbiased, i, c) == LhsEntry::One) <==> (rhs_entry(
            k,
            drift_no,
            exact,
            unbiased,
            i,
        ) == RhsEntry::One),
        forall|d: usize|
            (lhs_entry(k, drift_no, unbiased, i, c) == (LhsEntry::Drift { term: d, neighbor: c as usize }))
                <==> (rhs_entry(k, drift_no, exact, unbiased, i) == (RhsEntry::Drift { term: d })),
{
}

/// In the neighbour block of the local kriging matrix, entry `(r, c)` is the
/// covariance between neighbours `r` and `c` themselves, and the diagonal
/// entry `(i, i)` adds neighbour `i`'s own measurement error.
pub proof fn lemma_lhs_neighbour_block(k: nat, drift_no: nat, unbiased: bool, r: nat, c: nat)
    requires
        system_size(k, drift_no, unbiased) <= usize::MAX,
        r < k,
        c < k,
    ensures
        r != c ==> lhs_entry(k, drift_no, unbiased, r, c) == (LhsEntry::Covariance {
            row: r as usize,
            col: c as usize,
        }),
        r == c ==> lhs_entry(k, drift_no, unbiased, r, c) == (LhsEntry::CovariancePlusError {
            neighbor: r as usize,
        }),
{
}

/// Past the neighbour block: row and column `k` are all ones when the system
/// is unbiased, row and column `k (+ 1 if unbiased) + d` hold drift term `d`
/// at each neighbour, and the block where two constraints meet is zero.
pub proof fn lemma_lhs_constraint_blocks(k: nat, drift_no: nat, unbiased: bool, i: nat, d: nat, j: nat)
    requires
        system_size(k, drift_no, unbiased) <= usize::MAX,
        i < k,
    ensures
        unbiased ==> lhs_entry(k, drift_no, unbiased, k, i) == LhsEntry::One,
        unbiased ==> lhs_entry(k, drift_no, unbiased, i, k) == LhsEntry::One,
        d < drift_no ==> lhs_entry(k, drift_no, unbiased, k + unbiased_pad(unbiased) + d, i)
            == (LhsEntry::Drift { term: d as usize, neighbor: i as usize }),
        d < drift_no ==> lhs_entry(k, drift_no, unbiased, i, k + unbiased_pad(unbiased) + d)
            == (LhsEntry::Drift { term: d as usize, neighbor: i as usize }),
        k <= d < system_size(k, drift_no, unbiased) && k <= j < system_size(k, drift_no, unbiased)
            ==> lhs_entry(k, drift_no, unbiased, d, j) == LhsEntry::Zero,
{
}

/// Entry `i < k` of the local kriging vector relates neighbour `i` itself to
/// the target (nugget-aware exactly in exact mode); entry `k` is the
/// unbiasedness `1`; entry `k (+ 1 if unbiased) + d` is drift term `d` at
/// the target.
pub proof fn lemma_rhs_entries(k: nat, drift_no: nat, exact: bool, unbiased: bool, i: nat, d: nat)
    requires
        system_size(k, drift_no, unbiased) <= usize::MAX,
    ensures
        i < k && exact ==> rhs_entry(k, drift_no, exact, unbiased, i) == (RhsEntry::CovNugget {
            neighbor: i as usize,
        }),
        i < k && !exact ==> rhs_entry(k, drift_no, exact, unbiased, i) == (RhsEntry::Covariance {
            neighbor: i as usize,
        }),
        unbiased ==> rhs_entry(k, drift_no, exact, unbiased, k) == RhsEntry::One,
        d < drift_no ==> rhs_entry(k, drift_no, exact, unbiased, k + unbiased_pad(unbiased) + d)
            == (RhsEntry::Drift { term: d as usize }),
{
}

/// A failing target reports its own index, as `NoNeighbors` when it had no
/// neighbours and as `SingularSystem` when its system could not be solved.
pub proof fn lemma_failure_error_kind<T>(j: nat, o: TargetOutcome<T>)
    requires
        j <= usize::MAX,
    ensures
        o is NoNeighbors ==> failure_error(j as int, o) == (LocalKrigeError::NoNeighbors {
            target_index: j as usize,
        }),
        o is Singular ==> failure_error(j as int, o) == (LocalKrigeError::SingularSystem {
            target_index: j as usize,
        }),
{
}

/// What a single target point came to.
pub enum TargetOutcome<T> {
    /// No conditioning point lay within the search radius.
    NoNeighbors,
    /// The local system could not be solved.
    Singular,
    /// The local system was solved; the target's result.
    Solved(T),
}

/// The error that a failed target point `j` reports.
pub open spec fn failure_error<T>(j: int, o: TargetOutcome<T>) -> LocalKrigeError {
    match o {
        TargetOutcome::NoNeighbors => LocalKrigeError::NoNeighbors { target_index: j as usize },
        _ => LocalKrigeError::SingularSystem { target_index: j as usize },
    }
}

/// Target `j` is the first one that failed.
pub open spec fn is_first_failure<T>(s: Seq<TargetOutcome<T>>, j: int) -> bool {
    &&& 0 <= j < s.len()
    &&& !(s[j] is Solved)
    &&& forall|i: int| 0 <= i < j ==> #[trigger] s[i] is Solved
}

/// Every target point was solved.
pub open spec fn all_solved<T>(s: Seq<TargetOutcome<T>>) -> bool {
    forall|i: int| 0 <= i < s.len() ==> #[trigger] s[i] is Solved
}

/// Combines the outcomes of all target points, in target order, into the
/// result of local kriging: the results of all targets when every one was
/// solved, else the error of the first target that failed.
pub fn collect_outcomes<T: Copy>(outcomes: &Vec<TargetOutcome<T>>) -> (res: Result<
    Vec<T>,
    LocalKrigeError,
>)
    ensures
        res is Ok <==> all_solved(outcomes@),
        res matches Ok(v) ==> v@.len() == outcomes@.len() && forall|i: int|
            0 <= i < v@.len() ==> outcomes@[i] == TargetOutcome::Solved(#[trigger] v@[i]),
        res matches Err(e) ==> exists|j: int|
            is_first_failure(outcomes@, j) && e == failure_error(j, outcomes@[j]),
        res matches Err(e) ==> exists|j: int|
            #![trigger outcomes@[j]]
            0 <= j < outcomes@.len() && !(outcomes@[j] is Solved) && (forall|i: int|
                0 <= i < j ==> #[trigger] outcomes@[i] is Solved) && (outcomes@[j] is NoNeighbors
                ==> e == (LocalKrigeError::NoNeighbors { target_index: j as usize })) && (
            outcomes@[j] is Singular ==> e == (LocalKrigeError::SingularSystem {
                target_index: j as usize,
            })),
{
    let mut results: Vec<T> = Vec::new();
    let mut j: usize = 0;
    while j < outcomes.len()
        invariant
            j <= outcomes@.len(),
            results@.len() == j,
            forall|i: int|
                0 <= i < j ==> #[trigger] outcomes@[i] is Solved && outcomes@[i]
                    == TargetOutcome::Solved(results@[i]),
        decreases outcomes@.len() - j,
    {
        match &outcomes[j] {
            TargetOutcome::NoNeighbors => {
                assert(is_first_failure(outcomes@, j as int));
                return Err(LocalKrigeError::NoNeighbors { target_index: j });
            },
            TargetOutcome::Singular => {
                assert(is_first_failure(outcomes@, j as int));
                return Err(LocalKrigeError::SingularSystem { target_index: j });
            },
            TargetOutcome::Solved(v) => {
                results.push(*v);
            },
        }
        j = j + 1;
    }
    Ok(results)
}

} // verus!
