use taylor_ode::catalog::DropdownOptions;
use taylor_ode::display::decimate_for_display;
use taylor_ode::interpolation::{interpolation_bracket, Bracket};
use taylor_ode::numeric::to_numeric;
use taylor_ode::refinement::{Refinement, RunParameters, DIVISION_CEILING, INITIAL_DIVISIONS};
use taylor_ode::taylor::{interval_count, taylor_denominators, SamplingError};

fn params(x0: f64, y0: f64, problem: DropdownOptions, target: f64) -> RunParameters {
    RunParameters {
        x0_bits: x0.to_bits(),
        y0_bits: y0.to_bits(),
        problem,
        target_bits: target.to_bits(),
    }
}

#[test]
fn to_numeric_turns_commas_into_points() {
    assert_eq!(to_numeric(&"1,5".to_string()), "1.5");
}

#[test]
fn to_numeric_drops_letters_and_spaces() {
    assert_eq!(to_numeric(&" -12a.3x ".to_string()), "-12.3");
}

#[test]
fn to_numeric_of_empty_is_empty() {
    assert_eq!(to_numeric(&String::new()), "");
}

#[test]
fn to_numeric_keeps_non_ascii_numerals() {
    assert_eq!(to_numeric(&"٣½k".to_string()), "٣½");
}

#[test]
fn descriptions_match_the_catalog() {
    assert_eq!(DropdownOptions::First.get_description(), "y");
    assert_eq!(DropdownOptions::Second.get_description(), "3y");
    assert_eq!(DropdownOptions::Third.get_description(), "-x²y² + 2y/x (Bernoulli)");
    assert_eq!(DropdownOptions::Fourth.get_description(), "y² + 4");
    assert_eq!(DropdownOptions::Fith.get_description(), "2exp(x) + 2y");
    assert_eq!(DropdownOptions::Sixth.get_description(), "exp(x) + 6y");
    assert_eq!(DropdownOptions::Seventh.get_description(), "x³ - x +6xy");
    assert_eq!(DropdownOptions::Eigth.get_description(), "4sin(x) - 2y/x");
}

#[test]
fn default_problem_is_the_first() {
    assert_eq!(DropdownOptions::default(), DropdownOptions::First);
}

#[test]
fn first_run_starts_at_three_divisions() {
    let mut r = Refinement::new();
    assert!(r.begin(params(0.0, 1.0, DropdownOptions::First, 0.1)));
    assert_eq!(r.n_divisions, INITIAL_DIVISIONS);
    assert_eq!(INITIAL_DIVISIONS, 3);
}

#[test]
fn search_doubles_until_converged() {
    let mut r = Refinement::new();
    assert!(r.begin(params(0.0, 1.0, DropdownOptions::First, 0.1)));
    assert!(r.advance(false));
    assert_eq!(r.n_divisions, 6);
    assert!(r.advance(false));
    assert_eq!(r.n_divisions, 12);
    assert!(!r.advance(true));
    assert_eq!(r.n_divisions, 12);
}

#[test]
fn search_stops_at_the_ceiling() {
    let mut r = Refinement::new();
    assert!(r.begin(params(0.0, 1.0, DropdownOptions::Fourth, 0.001)));
    let mut passes = 1;
    while r.advance(false) {
        passes += 1;
    }
    assert_eq!(r.n_divisions, 98_304);
    assert!(r.n_divisions >= DIVISION_CEILING);
    assert_eq!(passes, 16);
}

#[test]
fn unchanged_parameters_are_a_no_op() {
    let mut r = Refinement::new();
    let p = params(0.5, 2.0, DropdownOptions::Second, 0.01);
    assert!(r.begin(p));
    assert!(r.advance(false));
    assert!(!r.advance(true));
    let before = r;
    assert!(!r.begin(p));
    assert_eq!(r, before);
    assert_eq!(r.n_divisions, 6);
}

#[test]
fn changed_parameters_restart_the_search() {
    let mut r = Refinement::new();
    assert!(r.begin(params(0.0, 1.0, DropdownOptions::First, 0.1)));
    assert!(r.advance(false));
    assert!(r.begin(params(0.0, 1.0, DropdownOptions::First, 0.01)));
    assert_eq!(r.n_divisions, 3);
    assert!(r.begin(params(0.0, 1.0, DropdownOptions::Second, 0.01)));
}

#[test]
fn tighter_target_needs_no_fewer_divisions() {
    // Errors that halve with each doubling: 1.5 at 3 divisions, 0.75 at 6, ...
    let run = |target: f64| {
        let mut r = Refinement::new();
        r.begin(params(0.0, 1.0, DropdownOptions::First, target));
        let mut error = 1.5;
        while r.advance(error < target) {
            error /= 2.0;
        }
        r.n_divisions
    };
    assert_eq!(run(0.1), 48);
    assert_eq!(run(0.01), 768);
    assert!(run(0.01) >= run(0.1));
}

#[test]
fn short_sequences_are_not_decimated() {
    let v: Vec<usize> = (0..1000).collect();
    assert_eq!(decimate_for_display(&v), v);
    let empty: Vec<usize> = Vec::new();
    assert_eq!(decimate_for_display(&empty), empty);
}

#[test]
fn decimation_keeps_every_stride_and_the_last_point() {
    let v: Vec<usize> = (0..2001).collect();
    let d = decimate_for_display(&v);
    assert_eq!(d.len(), 1001);
    assert_eq!(d[0], 0);
    assert_eq!(d[1], 2);
    assert_eq!(*d.last().unwrap(), 2000);
    let v: Vec<usize> = (0..2500).collect();
    let d = decimate_for_display(&v);
    assert_eq!(d.len(), 1251);
    assert_eq!(d[1249], 2498);
    assert_eq!(d[1250], 2499);
    assert_eq!(d.iter().filter(|&&i| i == 2499).count(), 1);
}

#[test]
fn decimation_of_points_keeps_last_exactly_once() {
    let n = 3 * 1024;
    let v: Vec<[f64; 2]> = (0..n).map(|i| [i as f64, 2.0 * i as f64]).collect();
    let d = decimate_for_display(&v);
    assert_eq!(d.len(), 1025);
    assert_eq!(d[0], [0.0, 0.0]);
    assert_eq!(d[1], [3.0, 6.0]);
    assert_eq!(d[1024], [3071.0, 6142.0]);
    assert_eq!(d.iter().filter(|p| p[0] == 3071.0).count(), 1);
}

#[test]
fn interval_count_needs_two_points() {
    assert_eq!(interval_count(2), Ok(1));
    assert_eq!(interval_count(11), Ok(10));
    assert_eq!(interval_count(1), Err(SamplingError::TooFewPoints(1)));
    assert_eq!(interval_count(0), Err(SamplingError::TooFewPoints(0)));
}

#[test]
fn taylor_denominators_are_factorials() {
    assert_eq!(taylor_denominators(3), vec![1, 1, 2]);
    assert_eq!(taylor_denominators(0), Vec::<u64>::new());
    let d = taylor_denominators(21);
    assert_eq!(d[5], 120);
    assert_eq!(d[20], 2_432_902_008_176_640_000);
}

#[test]
fn interpolation_bracket_splits_the_index() {
    assert_eq!(interpolation_bracket(3, 4, 2), Bracket { lower: 1, upper: 2, rem: 2 });
    assert_eq!(interpolation_bracket(2, 4, 2), Bracket { lower: 1, upper: 1, rem: 0 });
    assert_eq!(interpolation_bracket(4, 4, 2), Bracket { lower: 2, upper: 2, rem: 0 });
    assert_eq!(interpolation_bracket(0, 4, 2), Bracket { lower: 0, upper: 0, rem: 0 });
}
