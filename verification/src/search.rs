//! Caller-driven Lambert transfer-grid search.
//!
//! A search runs one Lambert solve for every pair of a departure epoch and a
//! flight time. For each cell the source trajectory is asked for the departure
//! position, then the target trajectory for the arrival position, then the
//! solver; the first of them that fails decides the cell's outcome.
//!
//! The search is generic over the time type `T`, the position type `P`, the
//! velocity type `V`, the speed type `D`, the solver error `L` and the provider
//! error `E`. Trajectory providers, the arrival-time rule and the Lambert solve
//! are passed in as closures.

use vstd::prelude::*;

verus! {

/// Cartesian product of departure epochs and flight times.
#[derive(Debug, Clone)]
pub struct SearchGrid<T> {
    /// Departure epochs.
    pub departures: Vec<T>,
    /// Flight times.
    pub flight_times: Vec<T>,
}

/// Successful Lambert candidate for one grid cell.
#[derive(Debug, Clone, Copy)]
pub struct TransferCandidate<T, V, D> {
    /// Departure epoch.
    pub departure: T,
    /// Lambert time of flight.
    pub flight_time: T,
    /// Departure velocity from Lambert.
    pub v1: V,
    /// Arrival velocity from Lambert.
    pub v2: V,
    /// Sum of Lambert endpoint speed magnitudes.
    pub total_dv: D,
}

/// Outcome stored for each search grid cell.
#[derive(Debug)]
pub enum CellOutcome<S, L, E> {
    /// The Lambert solve succeeded with this transfer candidate.
    Success(S),
    /// The Lambert solve failed after both positions were available.
    LambertFailed(L),
    /// A trajectory provider failed.
    ProviderFailed(E),
}

/// Full row-major candidate grid.
#[derive(Debug)]
pub struct CandidateGrid<T, S, L, E> {
    /// The searched grid.
    pub grid: SearchGrid<T>,
    /// Cells indexed as `[departure_index][flight_time_index]`.
    pub cells: Vec<Vec<CellOutcome<S, L, E>>>,
}

/// `out` is an outcome that the cell for `(departure, flight_time)` can have:
/// the source position at `departure` is asked first, then the target position
/// at the arrival time, then the solver for the flight time; the first failure
/// is reported, and a cell without failure holds a candidate made of the two
/// epochs and the solver's velocities and speed sum.
pub open spec fn cell_outcome<T, P, V, D, L, E, Src, Tgt, Arr, Sol>(
    source: Src,
    target: Tgt,
    arrival: Arr,
    solve: Sol,
    departure: T,
    flight_time: T,
    out: CellOutcome<TransferCandidate<T, V, D>, L, E>,
) -> bool where
    Src: Fn(T) -> Result<P, E>,
    Tgt: Fn(T) -> Result<P, E>,
    Arr: Fn(T, T) -> T,
    Sol: Fn(P, P, T) -> Result<(V, V, D), L>,
 {
    exists|r1: Result<P, E>|
        #[trigger] call_ensures(source, (departure,), r1) && match r1 {
            Err(e) => out == CellOutcome::<TransferCandidate<T, V, D>, L, E>::ProviderFailed(e),
            Ok(p1) => exists|t2: T, r2: Result<P, E>|
                #[trigger] call_ensures(arrival, (departure, flight_time), t2) && #[trigger] call_ensures(
                    target,
                    (t2,),
                    r2,
                ) && match r2 {
                    Err(e) => out == CellOutcome::<TransferCandidate<T, V, D>, L, E>::ProviderFailed(e),
                    Ok(p2) => exists|sr: Result<(V, V, D), L>|
                        #[trigger] call_ensures(solve, (p1, p2, flight_time), sr) && match sr {
                            Err(l) => out == CellOutcome::<TransferCandidate<T, V, D>, L, E>::LambertFailed(l),
                            Ok(legs) => out == CellOutcome::<TransferCandidate<T, V, D>, L, E>::Success(
                                TransferCandidate {
                                    departure,
                                    flight_time,
                                    v1: legs.0,
                                    v2: legs.1,
                                    total_dv: legs.2,
                                },
                            ),
                        },
                },
        }
}

/// A cell reports a Lambert failure only after both trajectory providers
/// delivered their positions, and the failure is the solver's own error for
/// those positions.
pub proof fn lemma_lambert_failure_after_both_positions<T, P, V, D, L, E, Src, Tgt, Arr, Sol>(
    source: Src,
    target: Tgt,
    arrival: Arr,
    solve: Sol,
    departure: T,
    flight_time: T,
    l: L,
) where
    Src: Fn(T) -> Result<P, E>,
    Tgt: Fn(T) -> Result<P, E>,
    Arr: Fn(T, T) -> T,
    Sol: Fn(P, P, T) -> Result<(V, V, D), L>,

    requires
        cell_outcome(
            source,
            target,
            arrival,
            solve,
            departure,
            flight_time,
            CellOutcome::<TransferCandidate<T, V, D>, L, E>::LambertFailed(l),
        ),
    ensures
        exists|p1: P, t2: T, p2: P|
            #![trigger call_ensures(source, (departure,), Ok::<P, E>(p1)), call_ensures(target, (t2,), Ok::<P, E>(p2))]
            call_ensures(source, (departure,), Ok::<P, E>(p1)) && call_ensures(
                arrival,
                (departure, flight_time),
                t2,
            ) && call_ensures(target, (t2,), Ok::<P, E>(p2)) && call_ensures(
                solve,
                (p1, p2, flight_time),
                Err::<(V, V, D), L>(l),
            ),
{
}

/// Evaluates one grid cell.
pub fn evaluate_cell<T: Copy, P, V, D, L, E, Src, Tgt, Arr, Sol>(
    source: &Src,
    target: &Tgt,
    arrival: &Arr,
    solve: &Sol,
    departure: T,
    flight_time: T,
) -> (out: CellOutcome<TransferCandidate<T, V, D>, L, E>) where
    Src: Fn(T) -> Result<P, E>,
    Tgt: Fn(T) -> Result<P, E>,
    Arr: Fn(T, T) -> T,
    Sol: Fn(P, P, T) -> Result<(V, V, D), L>,

    requires
        call_requires(*source, (departure,)),
        call_requires(*arrival, (departure, flight_time)),
        forall|t: T| call_requires(*target, (t,)),
        forall|p1: P, p2: P| call_requires(*solve, (p1, p2, flight_time)),
    ensures
        cell_outcome(*source, *target, *arrival, *solve, departure, flight_time, out),
{
    let r1 = source(departure);
    match r1 {
        Err(e) => CellOutcome::ProviderFailed(e),
        Ok(p1) => {
            let t2 = arrival(departure, flight_time);
            let r2 = target(t2);
            match r2 {
                Err(e) => CellOutcome::ProviderFailed(e),
                Ok(p2) => {
                    let sr = solve(p1, p2, flight_time);
                    match sr {
                        Err(l) => CellOutcome::LambertFailed(l),
                        Ok((v1, v2, total_dv)) => CellOutcome::Success(
                            TransferCandidate { departure, flight_time, v1, v2, total_dv },
                        ),
                    }
                },
            }
        },
    }
}

/// `cells` is a grid of outcomes for `departures × flight_times`: one row per
/// departure, one cell per flight time, each a possible outcome of its cell.
pub open spec fn grid_outcomes<T, P, V, D, L, E, Src, Tgt, Arr, Sol>(
    source: Src,
    target: Tgt,
    arrival: Arr,
    solve: Sol,
    departures: Seq<T>,
    flight_times: Seq<T>,
    cells: Seq<Vec<CellOutcome<TransferCandidate<T, V, D>, L, E>>>,
) -> bool where
    Src: Fn(T) -> Result<P, E>,
    Tgt: Fn(T) -> Result<P, E>,
    Arr: Fn(T, T) -> T,
    Sol: Fn(P, P, T) -> Result<(V, V, D), L>,
 {
    &&& cells.len() == departures.len()
    &&& forall|i: int| 0 <= i < cells.len() ==> (#[trigger] cells[i])@.len() == flight_times.len()
    &&& forall|i: int, j: int|
        0 <= i < cells.len() && 0 <= j < flight_times.len() ==> cell_outcome(
            source,
            target,
            arrival,
            solve,
            departures[i],
            flight_times[j],
            #[trigger] cells[i]@[j],
        )
}

/// Runs the Lambert solve on every source/target position pair of `grid`.
///
/// `arrival(departure, flight_time)` is the epoch at which the target is
/// asked for its position; `solve(r1, r2, flight_time)` solves the transfer
/// and returns the departure velocity, the arrival velocity and the sum of
/// their speeds, which the cell's candidate records with its two epochs.
pub fn lambert_search<T: Copy, P, V, D, L, E, Src, Tgt, Arr, Sol>(
    source: Src,
    target: Tgt,
    grid: SearchGrid<T>,
    arrival: Arr,
    solve: Sol,
) -> (out: CandidateGrid<T, TransferCandidate<T, V, D>, L, E>) where
    Src: Fn(T) -> Result<P, E>,
    Tgt: Fn(T) -> Result<P, E>,
    Arr: Fn(T, T) -> T,
    Sol: Fn(P, P, T) -> Result<(V, V, D), L>,

    requires
        forall|t: T| call_requires(source, (t,)),
        forall|t: T| call_requires(target, (t,)),
        forall|d: T, f: T| call_requires(arrival, (d, f)),
        forall|p1: P, p2: P, f: T| call_requires(solve, (p1, p2, f)),
    ensures
        out.grid == grid,
        grid_outcomes(
            source,
            target,
            arrival,
            solve,
            grid.departures@,
            grid.flight_times@,
            out.cells@,
        ),
{
    let n_dep = grid.departures.len();
    let n_tof = grid.flight_times.len();
    let mut cells: Vec<Vec<CellOutcome<TransferCandidate<T, V, D>, L, E>>> = Vec::new();
    let mut i: usize = 0;
    while i < n_dep
        invariant
            n_dep == grid.departures@.len(),
            n_tof == grid.flight_times@.len(),
            i <= n_dep,
            forall|t: T| call_requires(source, (t,)),
            forall|t: T| call_requires(target, (t,)),
            forall|d: T, f: T| call_requires(arrival, (d, f)),
            forall|p1: P, p2: P, f: T| call_requires(solve, (p1, p2, f)),
            grid_outcomes(
                source,
                target,
                arrival,
                solve,
                grid.departures@.take(i as int),
                grid.flight_times@,
                cells@,
            ),
        decreases n_dep - i,
    {
        let departure = grid.departures[i];
        let mut row: Vec<CellOutcome<TransferCandidate<T, V, D>, L, E>> = Vec::new();
        let mut j: usize = 0;
        while j < n_tof
            invariant
                n_dep == grid.departures@.len(),
                n_tof == grid.flight_times@.len(),
                i < n_dep,
                j <= n_tof,
                departure == grid.departures@[i as int],
                forall|t: T| call_requires(source, (t,)),
                forall|t: T| call_requires(target, (t,)),
                forall|d: T, f: T| call_requires(arrival, (d, f)),
                forall|p1: P, p2: P, f: T| call_requires(solve, (p1, p2, f)),
                row@.len() == j,
                forall|k: int|
                    0 <= k < j ==> cell_outcome(
                        source,
                        target,
                        arrival,
                        solve,
                        departure,
                        grid.flight_times@[k],
                        #[trigger] row@[k],
                    ),
            decreases n_tof - j,
        {
            let flight_time = grid.flight_times[j];
            let outcome = evaluate_cell(&source, &target, &arrival, &solve, departure, flight_time);
            row.push(outcome);
            j = j + 1;
        }
        let ghost prev = cells@;
        cells.push(row);
        proof {
            let deps = grid.departures@.take(i + 1);
            assert(deps.take(i as int) =~= grid.departures@.take(i as int));
            assert forall|a: int, b: int|
                0 <= a < cells@.len() && 0 <= b < grid.flight_times@.len() implies cell_outcome(
                source,
                target,
                arrival,
                solve,
                deps[a],
                grid.flight_times@[b],
                #[trigger] cells@[a]@[b],
            ) by {
                if a < i {
                    assert(cells@[a] == prev[a]);
                    assert(deps[a] == grid.departures@.take(i as int)[a]);
                }
            }
        }
        i = i + 1;
    }
    proof {
        assert(grid.departures@.take(n_dep as int) =~= grid.departures@);
    }
    CandidateGrid { grid, cells }
}

} // verus!
