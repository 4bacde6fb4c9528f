//! A download job: what the table of downloads shows for each file.

use vstd::prelude::*;
use crate::text::{decimal, format_decimal, format_pad2, pad2};

verus! {

/// Where a download stands.
#[derive(Clone, Copy, Debug, PartialEq, Eq, Structural)]
pub enum Status {
    Pending,
    InProgress,
    Completed,
    Failed,
}

/// How a file is fetched: in ranges at once, or as one stream.
#[derive(Clone, Copy, Debug, PartialEq, Eq, Structural)]
pub enum DownloadStrategy {
    Unknown,
    Sequential,
    Parallel,
}

/// One download. The identifier is the 128-bit value of a random (version 4)
/// UUID; `speed` is in bytes per second, `eta` in seconds.
#[derive(Clone, Debug)]
pub struct DownloadJob {
    pub id: u128,
    pub filename: String,
    pub url: String,
    pub status: Status,
    pub strategy: DownloadStrategy,
    pub progress: u64,
    pub size: u64,
    pub speed: u64,
    pub eta: u64,
}

/// The mathematical value of a [`DownloadJob`].
pub struct JobView {
    pub id: u128,
    pub filename: Seq<char>,
    pub url: Seq<char>,
    pub status: Status,
    pub strategy: DownloadStrategy,
    pub progress: u64,
    pub size: u64,
    pub speed: u64,
    pub eta: u64,
}

impl View for DownloadJob {
    type V = JobView;

    open spec fn view(&self) -> JobView {
        JobView {
            id: self.id,
            filename: self.filename@,
            url: self.url@,
            status: self.status,
            strategy: self.strategy,
            progress: self.progress,
            size: self.size,
            speed: self.speed,
            eta: self.eta,
        }
    }
}

/// A fresh job for `url`, saved as `filename`, with identifier `id`.
pub open spec fn fresh_job(id: u128, url: Seq<char>, filename: Seq<char>) -> JobView {
    JobView {
        id,
        filename,
        url,
        status: Status::Pending,
        strategy: DownloadStrategy::Unknown,
        progress: 0,
        size: 1,
        speed: 0,
        eta: 0,
    }
}

/// The bits that every version 4 UUID has fixed: the version nibble (4) and
/// the RFC 4122 variant (binary 10).
pub open spec fn is_random_uuid(id: u128) -> bool {
    id & 0xF000C000000000000000u128 == 0x40008000000000000000u128
}

/// A new random job identifier.
///
/// Trusted: wraps `uuid::Uuid::new_v4` (read as a `u128`). The value is random;
/// the one thing claimed of every outcome is what `new_v4` does to it in the
/// crate's source: it masks in the version bits `4` and the variant bits `10`.
#[verifier::external_body]
pub(crate) fn random_job_id() -> (id: u128)
    ensures
        is_random_uuid(id),
{
    uuid::Uuid::new_v4().as_u128()
}

/// The text that `bytesize` renders for a number of bytes (IEC units, one
/// decimal, such as `5.9 GiB`).
pub uninterp spec fn byte_size_text(bytes: u64) -> Seq<char>;

/// Human-readable size.
///
/// Trusted: wraps the `Display` of `bytesize::ByteSize`. Its result is named
/// [`byte_size_text`]; of it the contract states only what the crate's source
/// plainly shows for sizes under one KiB: the number of bytes in decimal and
/// ` B`. Larger sizes are rendered with floating point and are left unstated.
#[verifier::external_body]
fn byte_size(bytes: u64) -> (s: String)
    ensures
        s@ == byte_size_text(bytes),
        bytes < 1024 ==> s@ == decimal(bytes as nat) + " B"@,
{
    bytesize::ByteSize(bytes).to_string()
}

/// The label of a status.
pub open spec fn status_text(s: Status) -> Seq<char> {
    match s {
        Status::Pending => "Pending"@,
        Status::InProgress => "In Progress"@,
        Status::Completed => "Completed"@,
        Status::Failed => "Failed"@,
    }
}

/// The label of a strategy.
pub open spec fn strategy_text(s: DownloadStrategy) -> Seq<char> {
    match s {
        DownloadStrategy::Unknown => "Unknown"@,
        DownloadStrategy::Sequential => "Sequential"@,
        DownloadStrategy::Parallel => "Parallel"@,
    }
}

/// The remaining time `eta` (seconds) as the table shows it: `N/A` for zero,
/// else `SSs`, `Mm SSs` or `Hh Mm SSs`, seconds padded to two digits.
pub open spec fn eta_text(eta: u64) -> Seq<char> {
    let hours = eta / 3600;
    let minutes = (eta % 3600) / 60;
    let secs = eta % 60;
    if eta == 0 {
        "N/A"@
    } else if hours == 0 && minutes == 0 {
        pad2(secs as nat) + "s"@
    } else if hours == 0 {
        decimal(minutes as nat) + "m "@ + pad2(secs as nat) + "s"@
    } else {
        decimal(hours as nat) + "h "@ + decimal(minutes as nat) + "m "@ + pad2(secs as nat) + "s"@
    }
}

/// The speed part of the progress cell: shown only while in progress, and
/// followed by the remaining time for parallel downloads.
pub open spec fn speed_text(job: JobView) -> Seq<char> {
    if job.status == Status::InProgress {
        let eta_part = if job.strategy == DownloadStrategy::Parallel {
            " - ETA: "@ + eta_text(job.eta)
        } else {
            Seq::<char>::empty()
        };
        "- "@ + byte_size_text(job.speed) + "/s"@ + eta_part
    } else {
        Seq::<char>::empty()
    }
}

/// The progress cell. `percent` is the share already downloaded, rendered
/// right-aligned with one decimal.
pub open spec fn progress_text(job: JobView, percent: Seq<char>) -> Seq<char> {
    match job.strategy {
        DownloadStrategy::Parallel => "["@ + percent + "% "@ + byte_size_text(job.progress) + "/"@
            + byte_size_text(job.size) + " "@ + speed_text(job) + "]"@,
        DownloadStrategy::Sequential => "["@ + byte_size_text(job.progress) + " "@ + speed_text(job)
            + "]"@,
        DownloadStrategy::Unknown => Seq::<char>::empty(),
    }
}

impl Status {
    /// The label shown in the table.
    pub fn text(&self) -> (s: String)
        ensures
            s@ == status_text(*self),
    {
        match self {
            Status::Pending => String::from_str("Pending"),
            Status::InProgress => String::from_str("In Progress"),
            Status::Completed => String::from_str("Completed"),
            Status::Failed => String::from_str("Failed"),
        }
    }
}

impl DownloadStrategy {
    /// The label shown in the table.
    pub fn text(&self) -> (s: String)
        ensures
            s@ == strategy_text(*self),
    {
        match self {
            DownloadStrategy::Unknown => String::from_str("Unknown"),
            DownloadStrategy::Sequential => String::from_str("Sequential"),
            DownloadStrategy::Parallel => String::from_str("Parallel"),
        }
    }
}

impl DownloadJob {
    /// A fresh pending job with the given identifier.
    pub fn with_id(id: u128, url: &str, filename: &str) -> (job: Self)
        ensures
            job@ == fresh_job(id, url@, filename@),
    {
        DownloadJob {
            id,
            filename: String::from_str(filename),
            url: String::from_str(url),
            status: Status::Pending,
            strategy: DownloadStrategy::Unknown,
            progress: 0,
            size: 1,
            speed: 0,
            eta: 0,
        }
    }

    /// A fresh pending job with a new random identifier.
    pub fn new(url: &str, filename: &str) -> (job: Self)
        ensures
            job@ == fresh_job(job.id, url@, filename@),
            is_random_uuid(job.id),
    {
        let id = random_job_id();
        Self::with_id(id, url, filename)
    }

    /// A copy of this job.
    pub fn duplicate(&self) -> (job: Self)
        ensures
            job == *self,
    {
        DownloadJob {
            id: self.id,
            filename: self.filename.clone(),
            url: self.url.clone(),
            status: self.status,
            strategy: self.strategy,
            progress: self.progress,
            size: self.size,
            speed: self.speed,
            eta: self.eta,
        }
    }

    /// The remaining time as the table shows it.
    pub fn eta(&self) -> (s: String)
        ensures
            s@ == eta_text(self.eta),
    {
        if self.eta == 0 {
            return String::from_str("N/A");
        }
        let hours = self.eta / 3600;
        let minutes = (self.eta % 3600) / 60;
        let secs = self.eta % 60;
        if hours == 0 && minutes == 0 {
            let mut s = format_pad2(secs);
            s.append("s");
            s
        } else if hours == 0 {
            let mut s = format_decimal(minutes);
            s.append("m ");
            s.append(format_pad2(secs).as_str());
            s.append("s");
            s
        } else {
            let mut s = format_decimal(hours);
            s.append("h ");
            s.append(format_decimal(minutes).as_str());
            s.append("m ");
            s.append(format_pad2(secs).as_str());
            s.append("s");
            s
        }
    }

    /// The size by which the downloaded share is computed: the size, or 1 for
    /// an empty file.
    pub fn percent_base(&self) -> (b: u64)
        ensures
            b == (if self.size == 0 { 1 } else { self.size }),
    {
        if self.size == 0 {
            1
        } else {
            self.size
        }
    }

    fn speed_cell(&self) -> (s: String)
        ensures
            s@ == speed_text(self@),
    {
        if self.status == Status::InProgress {
            let mut s = String::from_str("- ");
            s.append(byte_size(self.speed).as_str());
            s.append("/s");
            if self.strategy == DownloadStrategy::Parallel {
                s.append(" - ETA: ");
                s.append(self.eta().as_str());
            }
            s
        } else {
            String::new()
        }
    }

    /// The progress cell of the table, given the downloaded share rendered as
    /// text (right-aligned, one decimal).
    pub fn progress_cell(&self, percent: &str) -> (s: String)
        ensures
            s@ == progress_text(self@, percent@),
    {
        match self.strategy {
            DownloadStrategy::Parallel => {
                let mut s = String::from_str("[");
                s.append(percent);
                s.append("% ");
                s.append(byte_size(self.progress).as_str());
                s.append("/");
                s.append(byte_size(self.size).as_str());
                s.append(" ");
                s.append(self.speed_cell().as_str());
                s.append("]");
                s
            },
            DownloadStrategy::Sequential => {
                let mut s = String::from_str("[");
                s.append(byte_size(self.progress).as_str());
                s.append(" ");
                s.append(self.speed_cell().as_str());
                s.append("]");
                s
            },
            DownloadStrategy::Unknown => String::new(),
        }
    }

    /// The cells of this job's row: name, status, progress, strategy, URL.
    pub fn row_cells(&self, percent: &str) -> (cells: Vec<String>)
        ensures
            cells@.len() == 5,
            cells@[0]@ == self.filename@,
            cells@[1]@ == status_text(self.status),
            cells@[2]@ == progress_text(self@, percent@),
            cells@[3]@ == strategy_text(self.strategy),
            cells@[4]@ == self.url@,
    {
        let mut cells: Vec<String> = Vec::new();
        cells.push(self.filename.clone());
        cells.push(self.status.text());
        cells.push(self.progress_cell(percent));
        cells.push(self.strategy.text());
        cells.push(self.url.clone());
        cells
    }
}

} // verus!

verus! {

/// The remaining time reads back as the same number of seconds: for every
/// non-zero `eta` there are hours `h` (unbounded), minutes `m < 60` and seconds
/// `s < 60` with `h * 3600 + m * 60 + s == eta` that the text shows, leaving out
/// leading zero units; zero shows as `N/A`.
pub proof fn eta_text_adds_up(eta: u64)
    ensures
        eta == 0 ==> eta_text(eta) == "N/A"@,
        eta > 0 ==> exists|h: nat, m: nat, s: nat|
            #![trigger decimal(h), decimal(m), pad2(s)]
            h * 3600 + m * 60 + s == eta && m < 60 && s < 60 && eta_text(eta) == (if h == 0 && m
                == 0 {
                pad2(s) + "s"@
            } else if h == 0 {
                decimal(m) + "m "@ + pad2(s) + "s"@
            } else {
                decimal(h) + "h "@ + decimal(m) + "m "@ + pad2(s) + "s"@
            }),
{
    if eta > 0 {
        let h = (eta / 3600) as nat;
        let m = ((eta % 3600) / 60) as nat;
        let s = (eta % 60) as nat;
        assert(h * 3600 + m * 60 + s == eta);
        assert(decimal(h) == decimal(h) && decimal(m) == decimal(m) && pad2(s) == pad2(s));
    }
}

/// Hours are never wrapped: a remaining time of `k` whole hours shows `k`
/// hours, zero minutes and zero seconds, whatever `k` is.
pub proof fn whole_hours_shown_in_full(k: u64)
    requires
        1 <= k,
        k * 3600 <= u64::MAX,
    ensures
        eta_text((k * 3600) as u64) == decimal(k as nat) + "h "@ + decimal(0) + "m "@ + pad2(0)
            + "s"@,
{
}

} // verus!
