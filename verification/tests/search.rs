use keplerian::search::{
    evaluate_cell, lambert_search, CandidateGrid, CellOutcome, SearchGrid, TransferCandidate,
};

/// Provider of positions at a fixed point, or one that always fails.
#[derive(Debug)]
struct Provider {
    x: f64,
    fail: bool,
}

impl Provider {
    fn position_at(&self, _t: f64) -> Result<[f64; 3], &'static str> {
        if self.fail {
            Err("failed")
        } else {
            Ok([self.x, 0.0, 0.0])
        }
    }
}

struct FixedProvider {
    pos: [f64; 3],
}

impl FixedProvider {
    fn position_at(&self, _t: f64) -> Result<[f64; 3], &'static str> {
        Ok(self.pos)
    }
}

type Candidate = TransferCandidate<f64, [f64; 3], f64>;

fn norm(v: [f64; 3]) -> f64 {
    (v[0] * v[0] + v[1] * v[1] + v[2] * v[2]).sqrt()
}

/// Stand-in transfer solver: rejects zero-magnitude positions the way the
/// Lambert solver does, and otherwise flies the straight chord at constant
/// velocity.
fn chord_solver(
    r1: [f64; 3],
    r2: [f64; 3],
    flight_time: f64,
) -> Result<([f64; 3], [f64; 3], f64), &'static str> {
    if norm(r1) < 1e-9 || norm(r2) < 1e-9 {
        return Err("zero-magnitude position vector");
    }
    let v = [
        (r2[0] - r1[0]) / flight_time,
        (r2[1] - r1[1]) / flight_time,
        (r2[2] - r1[2]) / flight_time,
    ];
    Ok((v, v, norm(v) + norm(v)))
}

fn arrival(departure: f64, flight_time: f64) -> f64 {
    departure + flight_time
}

#[test]
fn grid_dimensions_and_failures() {
    let grid = SearchGrid {
        departures: vec![0.0, 1.0],
        flight_times: vec![1000.0],
    };
    let source = Provider { x: 7000.0, fail: true };
    let target = Provider { x: 8000.0, fail: false };
    let out = lambert_search(
        |t: f64| source.position_at(t),
        |t: f64| target.position_at(t),
        grid,
        arrival,
        chord_solver,
    );
    assert_eq!(out.cells.len(), 2);
    assert_eq!(out.cells[0].len(), 1);
    assert!(matches!(out.cells[0][0], CellOutcome::ProviderFailed(_)));
}

#[test]
fn search_success_covers_speed_helper() {
    let grid = SearchGrid {
        departures: vec![0.0],
        flight_times: vec![4560.0],
    };
    let source = FixedProvider { pos: [15945.34, 0.0, 0.0] };
    let target = FixedProvider { pos: [12214.84, 10249.47, 0.0] };
    let out = lambert_search(
        |t: f64| source.position_at(t),
        |t: f64| target.position_at(t),
        grid,
        arrival,
        chord_solver,
    );
    assert_eq!(out.cells.len(), 1);
    assert!(matches!(out.cells[0][0], CellOutcome::Success(_)));
}

#[test]
fn search_target_provider_failure() {
    let grid = SearchGrid {
        departures: vec![0.0],
        flight_times: vec![4560.0],
    };
    let source = FixedProvider { pos: [15945.34, 0.0, 0.0] };
    let out = lambert_search(
        |t: f64| source.position_at(t),
        |_t: f64| -> Result<[f64; 3], &'static str> { Err("target down") },
        grid,
        arrival,
        chord_solver,
    );
    assert!(matches!(out.cells[0][0], CellOutcome::ProviderFailed(_)));
}

#[test]
fn search_lambert_failed_cell() {
    let grid = SearchGrid {
        departures: vec![0.0],
        flight_times: vec![4560.0],
    };
    let source = FixedProvider { pos: [0.0, 0.0, 0.0] };
    let target = FixedProvider { pos: [0.0, 0.0, 0.0] };
    let out = lambert_search(
        |t: f64| source.position_at(t),
        |t: f64| target.position_at(t),
        grid,
        arrival,
        chord_solver,
    );
    assert!(matches!(out.cells[0][0], CellOutcome::LambertFailed(_)));
}

#[test]
fn search_grid_is_row_major_with_candidate_epochs() {
    let grid = SearchGrid {
        departures: vec![0.0, 100.0, 200.0],
        flight_times: vec![10.0, 20.0],
    };
    let source = FixedProvider { pos: [1.0, 0.0, 0.0] };
    let target = FixedProvider { pos: [0.0, 1.0, 0.0] };
    let out: CandidateGrid<f64, Candidate, &'static str, &'static str> = lambert_search(
        |t: f64| source.position_at(t),
        |t: f64| target.position_at(t),
        grid,
        arrival,
        chord_solver,
    );
    assert_eq!(out.grid.departures, vec![0.0, 100.0, 200.0]);
    assert_eq!(out.grid.flight_times, vec![10.0, 20.0]);
    assert_eq!(out.cells.len(), 3);
    for (i, row) in out.cells.iter().enumerate() {
        assert_eq!(row.len(), 2);
        for (j, cell) in row.iter().enumerate() {
            match cell {
                CellOutcome::Success(c) => {
                    assert_eq!(c.departure, out.grid.departures[i]);
                    assert_eq!(c.flight_time, out.grid.flight_times[j]);
                    let speed = 2.0_f64.sqrt() / c.flight_time;
                    assert!((c.total_dv - 2.0 * speed).abs() < 1e-12);
                    assert_eq!(c.v1, [-1.0 / c.flight_time, 1.0 / c.flight_time, 0.0]);
                }
                _ => panic!("unexpected outcome"),
            }
        }
    }
}

#[test]
fn target_is_asked_at_departure_plus_flight_time() {
    let grid = SearchGrid {
        departures: vec![100.0],
        flight_times: vec![50.0, 60.0],
    };
    let source = FixedProvider { pos: [1.0, 0.0, 0.0] };
    // The target is only available at epoch 150.
    let out = lambert_search(
        |t: f64| source.position_at(t),
        |t: f64| -> Result<[f64; 3], &'static str> {
            if t == 150.0 {
                Ok([0.0, 2.0, 0.0])
            } else {
                Err("no ephemeris")
            }
        },
        grid,
        arrival,
        chord_solver,
    );
    assert!(matches!(out.cells[0][0], CellOutcome::Success(_)));
    assert!(matches!(out.cells[0][1], CellOutcome::ProviderFailed("no ephemeris")));
}

#[test]
fn source_failure_takes_precedence_over_target_failure() {
    let outcome: CellOutcome<Candidate, &'static str, &'static str> = evaluate_cell(
        &|_t: f64| -> Result<[f64; 3], &'static str> { Err("source down") },
        &|_t: f64| -> Result<[f64; 3], &'static str> { Err("target down") },
        &arrival,
        &chord_solver,
        0.0,
        1.0,
    );
    assert!(matches!(outcome, CellOutcome::ProviderFailed("source down")));
}

#[test]
fn empty_grid_has_no_cells() {
    let grid: SearchGrid<f64> = SearchGrid {
        departures: vec![],
        flight_times: vec![1.0],
    };
    let source = FixedProvider { pos: [1.0, 0.0, 0.0] };
    let out = lambert_search(
        |t: f64| source.position_at(t),
        |t: f64| source.position_at(t),
        grid,
        arrival,
        chord_solver,
    );
    assert!(out.cells.is_empty());
}
