// Drives the verified search machines with real IEEE-754 evaluation of the
// trajectory equation, the way a caller of the library is meant to.

use ballistics::critical::{CritAnswer, CritOutcome, CriticalSearch};
use ballistics::residual::{ResidualClass, Sgn};
use ballistics::solver::{AngleSearch, Answer, Branch, BranchResult, Outcome, Query, StepDir};

const TAU: f64 = std::f64::consts::TAU;

// The trajectory equation's residual: its roots in `a` are firing angles.
fn angle_check(x: f64, y: f64, u: f64, v: f64, a: f64, g: f64) -> f64 {
    let p: f64 = (x * u) / (v * a.cos());
    (u * u * x * a.tan()) / g + p - (y * u * u) / g + (1.0 - p).ln()
}

// The auxiliary equation whose zero is the critical pitch.
fn crit_check(x: f64, u: f64, v: f64, g: f64, a: f64) -> f64 {
    g * x * a.sin() + u * v * x - v * v * a.cos()
}

fn sgn(r: f64) -> Sgn {
    if !r.is_finite() {
        Sgn::NonFinite
    } else if r.signum() == -1.0 {
        Sgn::Negative
    } else {
        Sgn::Positive
    }
}

fn walk_sign(r: f64) -> Sgn {
    if !r.is_finite() {
        Sgn::NonFinite
    } else if r < 0.0 {
        Sgn::Negative
    } else {
        Sgn::Positive
    }
}

fn classify(r: f64, tol: f64) -> ResidualClass {
    if !r.is_finite() {
        ResidualClass::NonFinite
    } else if r.abs() < tol {
        ResidualClass::Small
    } else if r < 0.0 {
        ResidualClass::Negative
    } else {
        ResidualClass::Positive
    }
}

// The reachability test reports any strictly negative residual as negative,
// and only a value in [0, 1e-12) as a tangent graze.
fn classify_reach(r: f64) -> ResidualClass {
    if !r.is_finite() {
        ResidualClass::NonFinite
    } else if r < 0.0 {
        ResidualClass::Negative
    } else if r < 1e-12 {
        ResidualClass::Small
    } else {
        ResidualClass::Positive
    }
}

fn find_critical_point(x: f64, u: f64, v: f64, g: f64) -> Option<f64> {
    let seed_a = (g * x).atan2(v * v);
    let seed_b = (g * x).atan2(-(v * v));
    let mut search = CriticalSearch::new(seed_a.to_bits(), seed_b.to_bits());
    while let Some(q) = search.query() {
        let a = f64::from_bits(q.end_a);
        let b = f64::from_bits(q.end_b);
        let fa = crit_check(x, u, v, g, a);
        let fb = crit_check(x, u, v, g, b);
        let c = b - (fb * (b - a)) / (fb - fa);
        let fc = crit_check(x, u, v, g, c);
        search.step(CritAnswer {
            candidate: c.to_bits(),
            at_end_a: sgn(fa),
            at_candidate: classify(fc, 1e-5),
        });
    }
    match search.result() {
        Some(CritOutcome::Converged { pitch }) => Some(f64::from_bits(pitch)),
        _ => None,
    }
}

fn find_angles(
    x: f64,
    y: f64,
    u: f64,
    v: f64,
    g: f64,
    critical_point: f64,
) -> Result<(f64, f64), String> {
    let mut search = AngleSearch::new(critical_point.to_bits());
    while let Some(q) = search.query() {
        match q {
            Query::ResidualAtCritical { pitch } => {
                let r = angle_check(x, y, u, v, f64::from_bits(pitch), g);
                search.step(Answer::Class { class: classify_reach(r) });
            }
            Query::ProbeSeed { branch } => {
                let mut b: f64 = -0.011111111 / TAU;
                match branch {
                    Branch::Low => b -= TAU / 4.0,
                    Branch::High => b += TAU / 4.0,
                }
                search.step(Answer::Bits { bits: b.to_bits() });
            }
            Query::ResidualSign { pitch } => {
                let r = angle_check(x, y, u, v, f64::from_bits(pitch), g);
                search.step(Answer::Sign { sign: walk_sign(r) });
            }
            Query::ProbeStep { from, dir } => {
                let step: f64 = 0.0017453292519943296; // one tenth of a degree
                let b = match dir {
                    StepDir::TowardPositive => f64::from_bits(from) + step,
                    StepDir::TowardNegative => f64::from_bits(from) - step,
                };
                search.step(Answer::Bits { bits: b.to_bits() });
            }
            Query::SecantStep { pos_end, neg_end } => {
                let a = f64::from_bits(pos_end);
                let b = f64::from_bits(neg_end);
                let fa = angle_check(x, y, u, v, a, g);
                let fb = angle_check(x, y, u, v, b, g);
                let c = b - (fb * (b - a)) / (fb - fa);
                let fc = angle_check(x, y, u, v, c, g);
                search.step(Answer::Secant {
                    candidate: c.to_bits(),
                    at_pos_end: sgn(fa),
                    at_neg_end: sgn(fb),
                    at_candidate: classify(fc, 1e-12),
                });
            }
        }
    }
    match search.result() {
        Some(Outcome::Unreachable) => Err("Out of range".to_string()),
        Some(Outcome::Tangent) => Ok((critical_point, critical_point)),
        Some(Outcome::Roots {
            direct: BranchResult::Found { pitch: d },
            indirect: BranchResult::Found { pitch: i },
        }) => Ok((f64::from_bits(d), f64::from_bits(i))),
        Some(Outcome::Roots { .. }) => Err("Out of range".to_string()),
        Some(Outcome::Fault) => panic!("Impossible Error (angle_check returned NAN)"),
        None => unreachable!(),
    }
}

// x, y, u, v, g, a, t
const TESTING_DATA: [[f64; 7]; 8] = [
    [23.541096135, 0.959446698, 0.01, 30.0, 10.0, 0.174532925, 0.8],
    [187.001956030, 63.079770828, 0.01, 200.0, 10.0, 0.349065850, 1.0],
    [64.467192584, 26.026190686, 0.01, 50.0, 10.0, 0.523598776, 1.5],
    [1132.001739726, 905.308887445, 0.01, 500.0, 10.0, 0.698131701, 3.0],
    [1709.752036132, 1993.049776655, 0.01, 900.0, 10.0, 0.872664626, 3.0],
    [54.698606123, 88.712887372, 0.01, 100.0, 10.0, 1.047197551, 1.1],
    [249.003450881, -58.274490171, 0.01, 150.0, 10.0, -0.174532925, 1.7],
    [28.120418992, -11.482914756, 0.01, 60.0, 10.0, -0.349065850, 0.5],
];

#[test]
fn angle_calculation() {
    for i in TESTING_DATA {
        let crit = find_critical_point(i[0], i[2], i[3], i[4]).unwrap();
        let angles = find_angles(i[0], i[1], i[2], i[3], i[4], crit);

        match angles {
            Ok(angle) => {
                if !((0.00001 > (angle.1 - i[5]).abs()) || (0.00001 > (angle.0 - i[5]).abs())) {
                    panic!("Failiure on test conditions {} {} {} {} {} {} {}, got crit {} and angles {} {}", i[0], i[1], i[2], i[3], i[4], i[5], i[6], crit, angle.0, angle.1)
                }
            }
            _ => {
                panic!("Unexpected outcome, find_angles didn't return anything")
            }
        }
    }
}

#[test]
fn golden_direct_pitch_scenarios() {
    // (range, drop, velocity) -> expected pitch, drag 0.01 and gravity 10.
    let rows: [(f64, f64, f64, f64); 5] = [
        (23.541096135, 0.959446698, 30.0, 0.174532925),
        (187.001956030, 63.079770828, 200.0, 0.349065850),
        (64.467192584, 26.026190686, 50.0, 0.523598776),
        (1132.001739726, 905.308887445, 500.0, 0.698131701),
        (249.003450881, -58.274490171, 150.0, -0.174532925),
    ];
    for (x, y, v, expected) in rows {
        let crit = find_critical_point(x, 0.01, v, 10.0).unwrap();
        let (direct, indirect) = find_angles(x, y, 0.01, v, 10.0, crit).unwrap();
        assert!(
            (direct - expected).abs() < 1e-4 || (indirect - expected).abs() < 1e-4,
            "expected {} among {} and {}",
            expected,
            direct,
            indirect
        );
    }
}

#[test]
fn roots_satisfy_trajectory_equation() {
    for i in TESTING_DATA {
        let (x, y, u, v, g) = (i[0], i[1], i[2], i[3], i[4]);
        let crit = find_critical_point(x, u, v, g).unwrap();
        let (direct, indirect) = find_angles(x, y, u, v, g, crit).unwrap();
        assert!(angle_check(x, y, u, v, direct, g).abs() < 1e-9);
        assert!(angle_check(x, y, u, v, indirect, g).abs() < 1e-9);
    }
}

#[test]
fn direct_below_critical_below_indirect() {
    for i in TESTING_DATA {
        let (x, y, u, v, g) = (i[0], i[1], i[2], i[3], i[4]);
        let crit = find_critical_point(x, u, v, g).unwrap();
        let (direct, indirect) = find_angles(x, y, u, v, g, crit).unwrap();
        assert!(direct <= crit, "direct {} above critical {}", direct, crit);
        assert!(crit <= indirect, "critical {} above indirect {}", crit, indirect);
    }
}

#[test]
fn critical_point_maximizes_residual_between_roots() {
    for i in TESTING_DATA {
        let (x, y, u, v, g) = (i[0], i[1], i[2], i[3], i[4]);
        let crit = find_critical_point(x, u, v, g).unwrap();
        let (direct, indirect) = find_angles(x, y, u, v, g, crit).unwrap();
        let at_crit = angle_check(x, y, u, v, crit, g);
        let n: i32 = 1000;
        for k in 1..n {
            let a = direct + (indirect - direct) * (k as f64) / (n as f64);
            let r = angle_check(x, y, u, v, a, g);
            assert!(
                r <= at_crit + 1e-9,
                "residual {} at {} beats {} at the critical pitch",
                r,
                a,
                at_crit
            );
        }
    }
}

#[test]
fn reachability_range_monotonicity() {
    let (u, v, g) = (0.01, 30.0, 10.0);
    // A critical-point search that cannot close (its seeds stop bracketing
    // once the range passes the vacuum maximum) counts as out of range too.
    let solve = |x: f64| -> Result<(f64, f64), String> {
        match find_critical_point(x, u, v, g) {
            Some(crit) => find_angles(x, 0.0, u, v, g, crit),
            None => Err("Out of range".to_string()),
        }
    };
    assert!(solve(1.0).is_ok());
    assert!(solve(10.0).is_ok());
    assert!(solve(10000.0).is_err());
    // Once the range passes the maximum, every longer range is out too.
    let mut seen_unreachable = false;
    for k in 1..200 {
        let x = k as f64;
        let reachable = solve(x).is_ok();
        if seen_unreachable {
            assert!(!reachable, "range {} reachable after a shorter one was not", x);
        }
        if !reachable {
            seen_unreachable = true;
        }
    }
    assert!(seen_unreachable, "no range up to 199 exhausted a 30 m/s shot");
}

#[test]
fn far_target_reports_out_of_range() {
    let (u, v, g) = (0.01, 30.0, 10.0);
    let outcome = match find_critical_point(10000.0, u, v, g) {
        Some(crit) => find_angles(10000.0, 0.0, u, v, g, crit),
        None => Err("Out of range".to_string()),
    };
    assert_eq!(outcome, Err("Out of range".to_string()));
}
