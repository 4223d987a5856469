//! The status of the download job, as the window and the status menu show it,
//! and the steps of a job as changes of that status.
use vstd::prelude::*;
use vstd::string::*;
use crate::config::AppConfig;

verus! {

/// Message while the archive is being downloaded.
pub const MESSAGE_DOWNLOADING: &'static str = "正在下載壓縮檔";

/// Message while the archive is being extracted.
pub const MESSAGE_EXTRACTING: &'static str = "下載完成，正在解壓縮";

/// Message after a successful job.
pub const MESSAGE_DONE: &'static str = "完成下載與解壓縮";

/// Message after a failed job.
pub const MESSAGE_FAILED: &'static str = "執行失敗";

/// Why a job cannot start.
#[derive(Clone, Copy, PartialEq, Eq, Debug)]
pub enum JobError {
    /// Another download job is running.
    AlreadyRunning,
}

impl JobError {
    /// The message shown to the user.
    pub fn message(&self) -> (r: &'static str)
        ensures
            r@ == "已有下載工作正在執行"@,
    {
        match self {
            JobError::AlreadyRunning => "已有下載工作正在執行",
        }
    }
}

/// The status of the download job.
#[derive(Clone, Debug)]
pub struct JobStatus {
    pub running: bool,
    pub last_started_at: Option<String>,
    pub last_finished_at: Option<String>,
    pub last_success_at: Option<String>,
    pub last_error: Option<String>,
    pub source_url: Option<String>,
    pub destination_dir: Option<String>,
    pub message: String,
}

/// The status as plain values.
pub ghost struct StatusView {
    pub running: bool,
    pub last_started_at: Option<Seq<char>>,
    pub last_finished_at: Option<Seq<char>>,
    pub last_success_at: Option<Seq<char>>,
    pub last_error: Option<Seq<char>>,
    pub source_url: Option<Seq<char>>,
    pub destination_dir: Option<Seq<char>>,
    pub message: Seq<char>,
}

impl View for JobStatus {
    type V = StatusView;

    open spec fn view(&self) -> StatusView {
        StatusView {
            running: self.running,
            last_started_at: self.last_started_at.deep_view(),
            last_finished_at: self.last_finished_at.deep_view(),
            last_success_at: self.last_success_at.deep_view(),
            last_error: self.last_error.deep_view(),
            source_url: self.source_url.deep_view(),
            destination_dir: self.destination_dir.deep_view(),
            message: self.message@,
        }
    }
}

/// The status before any job: idle, nothing recorded, no message.
pub open spec fn idle_status() -> StatusView {
    StatusView {
        running: false,
        last_started_at: None,
        last_finished_at: None,
        last_success_at: None,
        last_error: None,
        source_url: None,
        destination_dir: None,
        message: Seq::empty(),
    }
}

/// The status at start-up: idle, showing the saved last success where both its
/// time and its source are saved.
pub open spec fn status_from_config(
    last_success_at: Option<Seq<char>>,
    last_success_source_url: Option<Seq<char>>,
    destination_dir: Seq<char>,
) -> StatusView {
    match (last_success_at, last_success_source_url) {
        (Some(at), Some(url)) => StatusView {
            last_success_at: Some(at),
            source_url: Some(url),
            destination_dir: Some(destination_dir),
            ..idle_status()
        },
        _ => idle_status(),
    }
}

/// The status once a job has started.
pub open spec fn started(
    s: StatusView,
    started_at: Seq<char>,
    source_url: Seq<char>,
    destination_dir: Seq<char>,
) -> StatusView {
    StatusView {
        running: true,
        last_started_at: Some(started_at),
        last_error: None,
        source_url: Some(source_url),
        destination_dir: Some(destination_dir),
        message: MESSAGE_DOWNLOADING@,
        ..s
    }
}

/// The status once a job has succeeded.
pub open spec fn succeeded(
    s: StatusView,
    finished_at: Seq<char>,
    source_url: Seq<char>,
    destination_dir: Seq<char>,
) -> StatusView {
    StatusView {
        running: false,
        last_finished_at: Some(finished_at),
        last_success_at: Some(finished_at),
        last_error: None,
        source_url: Some(source_url),
        destination_dir: Some(destination_dir),
        message: MESSAGE_DONE@,
        ..s
    }
}

/// The status once a job has failed with `error`.
pub open spec fn failed(s: StatusView, finished_at: Seq<char>, error: Seq<char>) -> StatusView {
    StatusView {
        running: false,
        last_finished_at: Some(finished_at),
        last_error: Some(error),
        message: MESSAGE_FAILED@,
        ..s
    }
}

impl JobStatus {
    /// The status before any job.
    pub fn idle() -> (r: JobStatus)
        ensures
            r@ == idle_status(),
    {
        JobStatus {
            running: false,
            last_started_at: None,
            last_finished_at: None,
            last_success_at: None,
            last_error: None,
            source_url: None,
            destination_dir: None,
            message: String::new(),
        }
    }

    /// The status at start-up for the saved settings `config`.
    pub fn from_config(config: &AppConfig) -> (r: JobStatus)
        ensures
            r@ == status_from_config(
                config@.last_success_at,
                config@.last_success_source_url,
                config@.destination_dir,
            ),
    {
        let mut status = JobStatus::idle();
        match (&config.last_success_at, &config.last_success_source_url) {
            (Some(at), Some(url)) => {
                status.last_success_at = Some(at.clone());
                status.source_url = Some(url.clone());
                status.destination_dir = Some(config.destination_dir.clone());
            },
            _ => {},
        }
        status
    }

    /// Starts a job that downloads from `source_url` into `destination_dir`.
    /// Only one job runs at a time: while one runs, the request is refused and
    /// the status stays as it is.
    pub fn begin(&mut self, started_at: String, source_url: String, destination_dir: String) -> (r:
        Result<(), JobError>)
        ensures
            old(self)@.running ==> r == Err::<(), JobError>(JobError::AlreadyRunning)
                && final(self)@ == old(self)@,
            !old(self)@.running ==> r is Ok && final(self)@ == started(
                old(self)@,
                started_at@,
                source_url@,
                destination_dir@,
            ),
    {
        if self.running {
            return Err(JobError::AlreadyRunning);
        }
        self.running = true;
        self.last_started_at = Some(started_at);
        self.last_error = None;
        self.source_url = Some(source_url);
        self.destination_dir = Some(destination_dir);
        self.message = String::from_str(MESSAGE_DOWNLOADING);
        Ok(())
    }

    /// The download is done and the archive is being extracted.
    pub fn mark_extracting(&mut self)
        ensures
            final(self)@ == (StatusView { message: MESSAGE_EXTRACTING@, ..old(self)@ }),
    {
        self.message = String::from_str(MESSAGE_EXTRACTING);
    }

    /// The job has downloaded from `source_url` and extracted into `destination_dir`.
    pub fn finish_success(&mut self, finished_at: String, source_url: String, destination_dir: String)
        ensures
            final(self)@ == succeeded(old(self)@, finished_at@, source_url@, destination_dir@),
    {
        self.running = false;
        self.last_finished_at = Some(finished_at.clone());
        self.last_success_at = Some(finished_at);
        self.last_error = None;
        self.source_url = Some(source_url);
        self.destination_dir = Some(destination_dir);
        self.message = String::from_str(MESSAGE_DONE);
    }

    /// The job has failed with `error`.
    pub fn finish_failure(&mut self, finished_at: String, error: String)
        ensures
            final(self)@ == failed(old(self)@, finished_at@, error@),
    {
        self.running = false;
        self.last_finished_at = Some(finished_at);
        self.last_error = Some(error);
        self.message = String::from_str(MESSAGE_FAILED);
    }
}

impl Default for JobStatus {
    /// The status before any job.
    fn default() -> (r: JobStatus)
        ensures
            r@ == idle_status(),
    {
        JobStatus::idle()
    }
}

/// Law: only one download runs at a time. Once a job has started, a second
/// start is refused until the first has finished, whichever way it ends.
pub proof fn lemma_one_job_at_a_time(
    s: StatusView,
    started_at: Seq<char>,
    source_url: Seq<char>,
    destination_dir: Seq<char>,
)
    requires
        !s.running,
    ensures
        started(s, started_at, source_url, destination_dir).running,
        (StatusView {
            message: MESSAGE_EXTRACTING@,
            ..started(s, started_at, source_url, destination_dir)
        }).running,
        forall|f: Seq<char>, u: Seq<char>, d: Seq<char>|
            !(#[trigger] succeeded(started(s, started_at, source_url, destination_dir), f, u, d)).running,
        forall|f: Seq<char>, e: Seq<char>|
            !(#[trigger] failed(started(s, started_at, source_url, destination_dir), f, e)).running,
{
}

/// Law: a finished job leaves the status idle, with its finish time; a success
/// also becomes the last success and clears any earlier error, a failure keeps
/// the earlier last success.
pub proof fn lemma_finished_job_is_reported(
    s: StatusView,
    finished_at: Seq<char>,
    source_url: Seq<char>,
    destination_dir: Seq<char>,
    error: Seq<char>,
)
    ensures
        succeeded(s, finished_at, source_url, destination_dir).last_success_at == Some(finished_at),
        succeeded(s, finished_at, source_url, destination_dir).last_finished_at == Some(finished_at),
        succeeded(s, finished_at, source_url, destination_dir).last_error is None,
        failed(s, finished_at, error).last_success_at == s.last_success_at,
        failed(s, finished_at, error).last_error == Some(error),
{
}

/// The message for a poisoned lock of the shared state, with `detail` the
/// lock's own error text.
pub fn lock_error(detail: String) -> (r: String)
    ensures
        r@ == "內部狀態鎖定失敗："@ + detail@,
{
    let mut r = String::from_str("內部狀態鎖定失敗：");
    r.append(detail.as_str());
    r
}

} // verus!
