//! Batch accounting for a conversion run.
//!
//! A run discovers files, converts them one by one, and keeps going past
//! per-file failures: only a missing input root or an output directory that
//! cannot be created aborts the run. This module holds the decisions of that
//! driver loop -- the run verdict and the aggregated statistics -- as
//! verified functions over plain values.

use vstd::prelude::*;

verus! {

/// The outcome of converting one discovered file.
#[derive(Clone, Copy, PartialEq, Eq, Structural, Debug)]
pub enum FileOutcome {
    /// The file was converted; its output file holds this many bytes.
    Converted { output_size: u64 },
    /// The conversion failed at some stage; the run goes on.
    Failed,
}

/// A fatal setup error: the only way a whole run fails.
#[derive(Clone, Copy, PartialEq, Eq, Structural, Debug)]
pub enum RunError {
    /// The input root does not exist.
    InputRootMissing,
    /// The output directory could not be created.
    OutputDirUncreatable,
}

/// Number of converted files among the outcomes.
pub open spec fn converted_count(s: Seq<FileOutcome>) -> nat
    decreases s.len(),
{
    if s.len() == 0 {
        0
    } else {
        converted_count(s.drop_last()) + (if s.last() is Converted {
            1nat
        } else {
            0nat
        })
    }
}

/// Number of failed files among the outcomes.
pub open spec fn failed_count(s: Seq<FileOutcome>) -> nat
    decreases s.len(),
{
    if s.len() == 0 {
        0
    } else {
        failed_count(s.drop_last()) + (if s.last() is Failed {
            1nat
        } else {
            0nat
        })
    }
}

/// Total bytes written by the converted files.
pub open spec fn total_output_bytes(s: Seq<FileOutcome>) -> nat
    decreases s.len(),
{
    if s.len() == 0 {
        0
    } else {
        total_output_bytes(s.drop_last()) + (match s.last() {
            FileOutcome::Converted { output_size } => output_size as nat,
            FileOutcome::Failed => 0nat,
        })
    }
}

/// Sum of a sequence of byte counts.
pub open spec fn size_sum(s: Seq<u64>) -> nat
    decreases s.len(),
{
    if s.len() == 0 {
        0
    } else {
        size_sum(s.drop_last()) + s.last() as nat
    }
}

/// Aggregated statistics of one run.
#[derive(Clone, Copy, PartialEq, Eq, Structural, Debug)]
pub struct RunStats {
    pub converted: u64,
    pub failed: u64,
    pub output_bytes: u64,
}

proof fn lemma_outcome_prefix_step(s: Seq<FileOutcome>, i: int)
    requires
        0 <= i < s.len(),
    ensures
        converted_count(s.take(i + 1)) == converted_count(s.take(i)) + (if s[i] is Converted {
            1nat
        } else {
            0nat
        }),
        failed_count(s.take(i + 1)) == failed_count(s.take(i)) + (if s[i] is Failed {
            1nat
        } else {
            0nat
        }),
        total_output_bytes(s.take(i + 1)) == total_output_bytes(s.take(i)) + (match s[i] {
            FileOutcome::Converted { output_size } => output_size as nat,
            FileOutcome::Failed => 0nat,
        }),
{
    assert(s.take(i + 1).drop_last() =~= s.take(i));
    assert(s.take(i + 1).last() == s[i]);
}

/// The counts of a prefix never exceed the counts of the whole.
proof fn lemma_outcome_prefix_bounds(s: Seq<FileOutcome>, i: int)
    requires
        0 <= i <= s.len(),
    ensures
        converted_count(s.take(i)) <= s.len(),
        failed_count(s.take(i)) <= s.len(),
        total_output_bytes(s.take(i)) <= total_output_bytes(s),
    decreases s.len() - i,
{
    if i < s.len() {
        lemma_outcome_prefix_step(s, i);
        lemma_outcome_prefix_bounds(s, i + 1);
        assert(converted_count(s.take(i)) <= converted_count(s.take(i + 1)));
    } else {
        assert(s.take(i) =~= s);
        lemma_counts_at_most_len(s);
    }
}

proof fn lemma_counts_at_most_len(s: Seq<FileOutcome>)
    ensures
        converted_count(s) <= s.len(),
        failed_count(s) <= s.len(),
    decreases s.len(),
{
    if s.len() > 0 {
        lemma_counts_at_most_len(s.drop_last());
    }
}

/// Aggregate the outcomes of a run. Returns the statistics exactly when the
/// total output byte count is representable.
pub fn summarize_outcomes(outcomes: &Vec<FileOutcome>) -> (r: Option<RunStats>)
    requires
        outcomes@.len() <= u64::MAX,
    ensures
        r is Some <==> total_output_bytes(outcomes@) <= u64::MAX,
        r matches Some(st) ==> {
            &&& st.converted == converted_count(outcomes@)
            &&& st.failed == failed_count(outcomes@)
            &&& st.output_bytes == total_output_bytes(outcomes@)
        },
{
    let mut converted: u64 = 0;
    let mut failed: u64 = 0;
    let mut output_bytes: u64 = 0;
    let n = outcomes.len();
    assert(outcomes@.take(0) =~= Seq::<FileOutcome>::empty());
    for i in 0..n
        invariant
            n == outcomes@.len(),
            n <= u64::MAX,
            converted == converted_count(outcomes@.take(i as int)),
            failed == failed_count(outcomes@.take(i as int)),
            output_bytes == total_output_bytes(outcomes@.take(i as int)),
    {
        proof {
            lemma_outcome_prefix_step(outcomes@, i as int);
            lemma_counts_at_most_len(outcomes@.take(i as int));
        }
        match &outcomes[i] {
            FileOutcome::Converted { output_size } => {
                if *output_size > u64::MAX - output_bytes {
                    proof {
                        lemma_outcome_prefix_bounds(outcomes@, i as int + 1);
                        assert(total_output_bytes(outcomes@) > u64::MAX);
                    }
                    return None;
                }
                converted = converted + 1;
                output_bytes = output_bytes + *output_size;
            },
            FileOutcome::Failed => {
                failed = failed + 1;
            },
        }
    }
    proof {
        assert(outcomes@.take(n as int) =~= outcomes@);
    }
    Some(RunStats { converted, failed, output_bytes })
}

/// An empty batch: nothing converted, nothing failed, nothing written.
pub proof fn lemma_empty_batch()
    ensures
        converted_count(Seq::<FileOutcome>::empty()) == 0,
        failed_count(Seq::<FileOutcome>::empty()) == 0,
        total_output_bytes(Seq::<FileOutcome>::empty()) == 0,
{
}

/// Sum a list of input file sizes. Returns the total exactly when it is
/// representable.
pub fn sum_sizes(sizes: &Vec<u64>) -> (r: Option<u64>)
    ensures
        r is Some <==> size_sum(sizes@) <= u64::MAX,
        r matches Some(t) ==> t == size_sum(sizes@),
{
    let mut total: u64 = 0;
    let n = sizes.len();
    assert(sizes@.take(0) =~= Seq::<u64>::empty());
    for i in 0..n
        invariant
            n == sizes@.len(),
            total == size_sum(sizes@.take(i as int)),
    {
        proof {
            lemma_size_prefix_step(sizes@, i as int);
        }
        if sizes[i] > u64::MAX - total {
            proof {
                lemma_size_prefix_monotone(sizes@, i as int + 1);
                assert(size_sum(sizes@) > u64::MAX);
            }
            return None;
        }
        total = total + sizes[i];
    }
    proof {
        assert(sizes@.take(n as int) =~= sizes@);
    }
    Some(total)
}

proof fn lemma_size_prefix_step(s: Seq<u64>, i: int)
    requires
        0 <= i < s.len(),
    ensures
        size_sum(s.take(i + 1)) == size_sum(s.take(i)) + s[i] as nat,
{
    assert(s.take(i + 1).drop_last() =~= s.take(i));
    assert(s.take(i + 1).last() == s[i]);
}

proof fn lemma_size_prefix_monotone(s: Seq<u64>, i: int)
    requires
        0 <= i <= s.len(),
    ensures
        size_sum(s.take(i)) <= size_sum(s),
    decreases s.len() - i,
{
    if i < s.len() {
        lemma_size_prefix_step(s, i);
        lemma_size_prefix_monotone(s, i + 1);
    } else {
        assert(s.take(i) =~= s);
    }
}

/// The verdict of a whole run: setup alone decides. A missing input root
/// aborts first; an uncreatable output directory aborts next; per-file
/// conversion failures never change the verdict.
pub fn run_verdict(input_root_exists: bool, output_dir_created: bool) -> (r: Result<(), RunError>)
    ensures
        r is Ok <==> input_root_exists && output_dir_created,
        r == Err::<(), RunError>(RunError::InputRootMissing) <==> !input_root_exists,
        r == Err::<(), RunError>(RunError::OutputDirUncreatable) <==> (input_root_exists
            && !output_dir_created),
{
    if !input_root_exists {
        Err(RunError::InputRootMissing)
    } else if !output_dir_created {
        Err(RunError::OutputDirUncreatable)
    } else {
        Ok(())
    }
}

} // verus!
