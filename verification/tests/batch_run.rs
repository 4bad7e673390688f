use glb2fbx::batch::{sum_sizes, summarize_outcomes, run_verdict, FileOutcome, RunError, RunStats};

#[test]
fn empty_batch_reports_nothing() {
    let stats = summarize_outcomes(&vec![]).expect("empty batch always summarizes");
    assert_eq!(stats, RunStats { converted: 0, failed: 0, output_bytes: 0 });
}

#[test]
fn one_success_and_one_failure_count_as_one_each() {
    let outcomes = vec![FileOutcome::Converted { output_size: 2048 }, FileOutcome::Failed];
    let stats = summarize_outcomes(&outcomes).expect("total fits");
    assert_eq!(stats.converted, 1);
    assert_eq!(stats.failed, 1);
    assert_eq!(stats.output_bytes, 2048);
}

#[test]
fn output_bytes_accumulate_over_successes() {
    let outcomes = vec![
        FileOutcome::Converted { output_size: 100 },
        FileOutcome::Failed,
        FileOutcome::Converted { output_size: 250 },
        FileOutcome::Converted { output_size: 0 },
    ];
    let stats = summarize_outcomes(&outcomes).expect("total fits");
    assert_eq!(stats, RunStats { converted: 3, failed: 1, output_bytes: 350 });
}

#[test]
fn unrepresentable_output_total_is_reported() {
    let outcomes = vec![
        FileOutcome::Converted { output_size: u64::MAX },
        FileOutcome::Converted { output_size: 1 },
    ];
    assert!(summarize_outcomes(&outcomes).is_none());
}

#[test]
fn size_sums_are_exact() {
    assert_eq!(sum_sizes(&vec![]), Some(0));
    assert_eq!(sum_sizes(&vec![5]), Some(5));
    assert_eq!(sum_sizes(&vec![1, 2, 3]), Some(6));
    assert_eq!(sum_sizes(&vec![u64::MAX, 1]), None);
    assert_eq!(sum_sizes(&vec![u64::MAX]), Some(u64::MAX));
}

#[test]
fn verdict_depends_on_setup_alone() {
    assert_eq!(run_verdict(true, true), Ok(()));
    assert_eq!(run_verdict(false, true), Err(RunError::InputRootMissing));
    assert_eq!(run_verdict(false, false), Err(RunError::InputRootMissing));
    assert_eq!(run_verdict(true, false), Err(RunError::OutputDirUncreatable));
}
