use video_processor::catalog::Resolution;
use video_processor::geometry::{select, Decision};
use video_processor::job::{output_file_name, JobRunner, VideoJob};
use video_processor::pipeline::{Outcome, TranscodeError};

fn job(labels: &[&str]) -> VideoJob {
    VideoJob {
        input_url: String::from("input.mp4"),
        resolutions: labels.iter().map(|l| l.to_string()).collect(),
        job_id: String::from("job42"),
    }
}

#[test]
fn output_name_joins_id_and_label() {
    assert_eq!(output_file_name("job42", "720p"), "job42_720p.mp4");
    assert_eq!(output_file_name("", ""), "_.mp4");
    assert_ne!(output_file_name("a", "720p"), output_file_name("a", "1080p"));
}

#[test]
fn mixed_job_decisions_on_full_hd_source() {
    let labels = ["1080p", "bogus", "8K"];
    let decisions: Vec<Decision> = labels.iter().map(|l| select(1920, 1080, l)).collect();
    assert_eq!(decisions[0], Decision::Proceed(Resolution { width: 1920, height: 1080 }));
    assert_eq!(decisions[1], Decision::Proceed(Resolution { width: 854, height: 480 }));
    // "8K" is not in the catalog, so it takes the fallback geometry like any unknown label.
    assert_eq!(decisions[2], Decision::Proceed(Resolution { width: 854, height: 480 }));
}

// A hard error on one resolution is recorded and the job moves on to the next
// label instead of abandoning the remaining ones.
#[test]
fn runner_attempts_every_label_despite_failures() {
    let mut runner = JobRunner::new(&job(&["1080p", "bogus", "8K"]));
    assert_eq!(runner.next_label(), Some(0));
    runner.record(Err(TranscodeError::MuxError));
    assert_eq!(runner.next_label(), Some(1));
    runner.record(Err(TranscodeError::OpenError));
    assert_eq!(runner.next_label(), Some(2));
    assert!(!runner.is_done());
    runner.record(Ok(Outcome::Skipped));
    assert_eq!(runner.next_label(), None);
    assert!(runner.is_done());
    assert_eq!(
        runner.results,
        vec![Err(TranscodeError::MuxError), Err(TranscodeError::OpenError), Ok(Outcome::Skipped)]
    );
}

#[test]
fn empty_job_is_done_at_once() {
    let runner = JobRunner::new(&job(&[]));
    assert_eq!(runner.next_label(), None);
    assert!(runner.is_done());
}
