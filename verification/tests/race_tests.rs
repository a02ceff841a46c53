use rust_for_web::race::{race_input, EngineProgress, RaceStatus, RaceStep, SortRace, REPORT_EVERY};

fn run(race: &mut SortRace) -> (Vec<RaceStep>, RaceStep) {
    let mut reports = Vec::new();
    loop {
        match race.advance() {
            RaceStep::Passed => {}
            step @ RaceStep::Report { .. } => reports.push(step),
            step @ RaceStep::Finished { .. } => return (reports, step),
        }
    }
}

fn inversions(v: &[i32]) -> u64 {
    let mut n = 0;
    for i in 0..v.len() {
        for j in i + 1..v.len() {
            if v[i] > v[j] {
                n += 1;
            }
        }
    }
    n
}

#[test]
fn race_input_counts_down() {
    assert_eq!(race_input(5), vec![4, 3, 2, 1, 0]);
    assert!(race_input(0).is_empty());
    assert!(race_input(-3).is_empty());
}

#[test]
fn descending_race_swaps_at_every_comparison() {
    let mut race = SortRace::new(race_input(10));
    let (reports, finished) = run(&mut race);
    assert_eq!(race.data, (0..10).collect::<Vec<i32>>());
    assert_eq!(finished, RaceStep::Finished { swaps: 45, comparisons: 45 });
    assert_eq!(reports, vec![RaceStep::Report { pass: 0, len: 10, swaps: 0, comparisons: 0 }]);
}

#[test]
fn swaps_equal_inversions_and_comparisons_the_pair_count() {
    let input = vec![5, -2, 9, 9, 0, 3, -7, 12, 1, 1];
    let mut race = SortRace::new(input.clone());
    let (_, finished) = run(&mut race);
    let mut sorted = input.clone();
    sorted.sort();
    assert_eq!(race.data, sorted);
    assert_eq!(finished, RaceStep::Finished { swaps: inversions(&input), comparisons: 45 });
}

#[test]
fn already_sorted_and_tiny_inputs() {
    let mut race = SortRace::new(vec![1, 2, 3]);
    let (_, finished) = run(&mut race);
    assert_eq!(finished, RaceStep::Finished { swaps: 0, comparisons: 3 });

    let mut empty = SortRace::new(Vec::new());
    assert_eq!(empty.advance(), RaceStep::Finished { swaps: 0, comparisons: 0 });

    let mut one = SortRace::new(vec![7]);
    assert_eq!(one.advance(), RaceStep::Report { pass: 0, len: 1, swaps: 0, comparisons: 0 });
    assert_eq!(one.advance(), RaceStep::Passed);
    assert_eq!(one.advance(), RaceStep::Finished { swaps: 0, comparisons: 0 });
}

#[test]
fn reports_come_before_every_thousandth_pass() {
    let n: i32 = 2500;
    let mut race = SortRace::new(race_input(n));
    let (reports, finished) = run(&mut race);
    let passes: Vec<usize> = reports
        .iter()
        .map(|r| match r {
            RaceStep::Report { pass, .. } => *pass,
            _ => unreachable!(),
        })
        .collect();
    assert_eq!(passes, vec![0, REPORT_EVERY, 2 * REPORT_EVERY]);
    // before pass 1000 the passes 0..1000 compared 2499 + ... + 1500 pairs
    let before_1000: u64 = (0..1000u64).map(|i| 2499 - i).sum();
    assert_eq!(
        reports[1],
        RaceStep::Report { pass: 1000, len: 2500, swaps: before_1000, comparisons: before_1000 }
    );
    let total = 2500u64 * 2499 / 2;
    assert_eq!(finished, RaceStep::Finished { swaps: total, comparisons: total });
}

#[test]
fn status_defaults_unread_values() {
    let rust = EngineProgress::from_readings(Some(40), None, Some(7), None);
    assert_eq!(rust, EngineProgress { progress: 40, swaps: 0, comparisons: 7, elapsed_ms: 0 });
    let django = EngineProgress::from_readings(None, None, None, None);
    let status = RaceStatus::from_readings(rust, django, None, None);
    assert_eq!(status.winner, "none");
    assert_eq!(status.start_ms, 0);
    assert_eq!(status.django, EngineProgress { progress: 0, swaps: 0, comparisons: 0, elapsed_ms: 0 });
    let won = RaceStatus::from_readings(rust, django, Some("rust".to_string()), Some(99));
    assert_eq!(won.winner, "rust");
    assert_eq!(won.start_ms, 99);
}
