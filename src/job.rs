use vstd::prelude::*;

use crate::pipeline::{Outcome, TranscodeError};

verus! {

/// A submitted job: a source, an identifier and the labels to produce.
pub struct VideoJob {
    pub input_url: String,
    pub resolutions: Vec<String>,
    pub job_id: String,
}

/// The name of the output file for one label of a job.
pub open spec fn output_name_spec(job_id: Seq<char>, label: Seq<char>) -> Seq<char> {
    job_id + "_"@ + label + ".mp4"@
}

/// `{job_id}_{label}.mp4`.
pub fn output_file_name(job_id: &str, label: &str) -> (r: String)
    ensures
        r@ == output_name_spec(job_id@, label@),
{
    let mut name = String::from_str(job_id);
    name.append("_");
    name.append(label);
    name.append(".mp4");
    name
}

/// Two labels of one job never share an output file.
pub proof fn lemma_output_names_distinct(job_id: Seq<char>, a: Seq<char>, b: Seq<char>)
    requires
        a != b,
    ensures
        output_name_spec(job_id, a) != output_name_spec(job_id, b),
{
    reveal_strlit("_");
    reveal_strlit(".mp4");
    let na = output_name_spec(job_id, a);
    let nb = output_name_spec(job_id, b);
    if na == nb {
        let k: int = job_id.len() as int + 1;
        assert(a =~= na.subrange(k, na.len() as int - 4));
        assert(b =~= nb.subrange(k, nb.len() as int - 4));
    }
}

/// Walks a job's labels in order and records the result of each one.
pub struct JobRunner {
    pub labels: Vec<String>,
    pub results: Vec<Result<Outcome, TranscodeError>>,
}

/// The index of the label to attempt next, if any is left.
pub open spec fn pending_spec(n_labels: nat, n_results: nat) -> Option<nat> {
    if n_results < n_labels {
        Some(n_results)
    } else {
        None
    }
}

impl JobRunner {
    /// Results never outnumber labels.
    pub open spec fn wf(&self) -> bool {
        self.results@.len() <= self.labels@.len()
    }

    /// A runner over the job's labels, none attempted yet.
    pub fn new(job: &VideoJob) -> (r: JobRunner)
        ensures
            r.wf(),
            r.labels@ == job.resolutions@,
            r.results@.len() == 0,
    {
        JobRunner { labels: job.resolutions.clone(), results: Vec::new() }
    }

    /// The index of the label to attempt next.
    pub fn next_label(&self) -> (r: Option<usize>)
        requires
            self.wf(),
        ensures
            r matches Some(i) ==> pending_spec(self.labels@.len(), self.results@.len()) == Some(
                i as nat,
            ),
            r is None ==> pending_spec(self.labels@.len(), self.results@.len()) is None,
    {
        if self.results.len() < self.labels.len() {
            Some(self.results.len())
        } else {
            None
        }
    }

    /// Records the result of the pending label, success, skip or failure alike.
    pub fn record(&mut self, result: Result<Outcome, TranscodeError>)
        requires
            old(self).wf(),
            old(self).results@.len() < old(self).labels@.len(),
        ensures
            final(self).wf(),
            final(self).labels@ == old(self).labels@,
            final(self).results@ == old(self).results@.push(result),
    {
        self.results.push(result);
    }

    /// Whether every label has a result.
    pub fn is_done(&self) -> (r: bool)
        ensures
            r == (self.results@.len() >= self.labels@.len()),
    {
        self.results.len() >= self.labels.len()
    }
}

/// A failed resolution does not stop the job: whatever was recorded, the
/// label after it is still attempted.
pub proof fn lemma_failure_isolated(
    n_labels: nat,
    earlier: Seq<Result<Outcome, TranscodeError>>,
    result: Result<Outcome, TranscodeError>,
)
    requires
        earlier.len() + 1 < n_labels,
    ensures
        pending_spec(n_labels, earlier.push(result).len()) == Some(earlier.len() + 1),
{
}

} // verus!
