//! Reward safety: the VirusTotal URL scan (submission, polling, and the
//! report read from the analysis) and the SHA-256 fingerprint of a synced
//! repository list.
use vstd::prelude::*;
use sha2::Digest;
use crate::text::push_char;

verus! {

/// The VirusTotal verdict on a URL: how many engines found it harmless,
/// undetected, suspicious or malicious.
#[allow(non_camel_case_types)]
pub struct vt_report {
    pub url: String,
    pub harmless: u32,
    pub undetected: u32,
    pub suspicious: u32,
    pub malicious: u32,
}

/// What the scan reads of the answer to a URL submission: the link to the
/// analysis (`data.links.self`), when it is a string.
pub struct VtSubmission {
    pub report_url: Option<String>,
}

/// What the scan reads of an analysis: `data.attributes.status` and
/// `data.attributes.url` when they are strings, and the counts under
/// `data.attributes.stats` when they are unsigned integers.
pub struct VtAnalysis {
    pub status: Option<String>,
    pub url: Option<String>,
    pub harmless: Option<u64>,
    pub undetected: Option<u64>,
    pub suspicious: Option<u64>,
    pub malicious: Option<u64>,
}

/// A field of the analysis that the report needs.
#[derive(Clone, Copy, Debug, PartialEq, Eq, Structural)]
pub enum VtField {
    Url,
    Harmless,
    Undetected,
    Suspicious,
    Malicious,
}

/// Why a scan gave no report.
#[derive(Clone, Copy, Debug, PartialEq, Eq, Structural)]
pub enum VtError {
    MissingReportUrl,
    TimedOut,
    UnexpectedStatus,
    Missing(VtField),
}

pub open spec fn vt_error_text(e: VtError) -> Seq<char> {
    match e {
        VtError::MissingReportUrl => "missing report URL"@,
        VtError::TimedOut => "VirusTotal analysis timed out"@,
        VtError::UnexpectedStatus => "unexpected VirusTotal analysis status"@,
        VtError::Missing(VtField::Url) => "missing url"@,
        VtError::Missing(VtField::Harmless) => "missing harmless"@,
        VtError::Missing(VtField::Undetected) => "missing undetected"@,
        VtError::Missing(VtField::Suspicious) => "missing suspicious"@,
        VtError::Missing(VtField::Malicious) => "missing malicious"@,
    }
}

impl VtError {
    /// The text reported for the error.
    pub fn message(&self) -> (r: String)
        ensures
            r@ == vt_error_text(*self),
    {
        match self {
            VtError::MissingReportUrl => String::from_str("missing report URL"),
            VtError::TimedOut => String::from_str("VirusTotal analysis timed out"),
            VtError::UnexpectedStatus => String::from_str("unexpected VirusTotal analysis status"),
            VtError::Missing(VtField::Url) => String::from_str("missing url"),
            VtError::Missing(VtField::Harmless) => String::from_str("missing harmless"),
            VtError::Missing(VtField::Undetected) => String::from_str("missing undetected"),
            VtError::Missing(VtField::Suspicious) => String::from_str("missing suspicious"),
            VtError::Missing(VtField::Malicious) => String::from_str("missing malicious"),
        }
    }
}

/// A report as plain values: url, harmless, undetected, suspicious,
/// malicious.
pub open spec fn report_view(r: vt_report) -> (Seq<char>, u32, u32, u32, u32) {
    (r.url@, r.harmless, r.undetected, r.suspicious, r.malicious)
}

/// The report read from a completed analysis: every field must be there
/// (the first missing one, in the order url, harmless, undetected,
/// suspicious, malicious, is reported); counts keep their low 32 bits.
pub open spec fn spec_build_report(a: VtAnalysis) -> Result<(Seq<char>, u32, u32, u32, u32), VtError> {
    match (a.url, a.harmless, a.undetected, a.suspicious, a.malicious) {
        (None, _, _, _, _) => Err(VtError::Missing(VtField::Url)),
        (Some(_), None, _, _, _) => Err(VtError::Missing(VtField::Harmless)),
        (Some(_), Some(_), None, _, _) => Err(VtError::Missing(VtField::Undetected)),
        (Some(_), Some(_), Some(_), None, _) => Err(VtError::Missing(VtField::Suspicious)),
        (Some(_), Some(_), Some(_), Some(_), None) => Err(VtError::Missing(VtField::Malicious)),
        (Some(u), Some(h), Some(un), Some(s), Some(m)) => Ok(
            (u@, h as u32, un as u32, s as u32, m as u32),
        ),
    }
}

/// Builds the report from a completed analysis.
pub fn build_report(a: VtAnalysis) -> (r: Result<vt_report, VtError>)
    ensures
        match (r, spec_build_report(a)) {
            (Ok(rep), Ok(v)) => report_view(rep) == v,
            (Err(e), Err(f)) => e == f,
            _ => false,
        },
{
    let url = match a.url {
        Some(u) => u,
        None => return Err(VtError::Missing(VtField::Url)),
    };
    let harmless = match a.harmless {
        Some(v) => v,
        None => return Err(VtError::Missing(VtField::Harmless)),
    };
    let undetected = match a.undetected {
        Some(v) => v,
        None => return Err(VtError::Missing(VtField::Undetected)),
    };
    let suspicious = match a.suspicious {
        Some(v) => v,
        None => return Err(VtError::Missing(VtField::Suspicious)),
    };
    let malicious = match a.malicious {
        Some(v) => v,
        None => return Err(VtError::Missing(VtField::Malicious)),
    };
    Ok(
        vt_report {
            url,
            harmless: harmless as u32,
            undetected: undetected as u32,
            suspicious: suspicious as u32,
            malicious: malicious as u32,
        },
    )
}

/// How many times the analysis is fetched at most before the scan gives up.
pub const MAX_POLLS: u32 = 10;

/// A scan in progress: the analysis link and how many fetches of it came
/// back queued or in progress.
pub struct VtScan {
    pub report_url: String,
    pub attempts: u32,
}

/// What the scan asks for next.
pub enum VtCommand {
    /// Fetch the analysis at this link.
    Fetch(String),
    /// Say that the analysis is queued or in progress, wait 15 seconds.
    Wait,
    /// The scan is over.
    Finish(Result<vt_report, VtError>),
}

/// What came back for the last command.
pub enum VtEvent {
    /// The analysis that a `Fetch` returned.
    Analysis(VtAnalysis),
    /// The wait is over.
    Waited,
}

/// The statuses of an analysis that is not finished yet.
pub open spec fn pending_status(s: Seq<char>) -> bool {
    s == "queued"@ || s == "in-progress"@
}

/// Starts a scan from the answer to the URL submission: the analysis is
/// fetched from its link, or the scan fails when there is none.
pub fn vt_begin(sub: VtSubmission) -> (r: (Option<VtScan>, VtCommand))
    ensures
        match sub.report_url {
            Some(u) => {
                &&& r.0 matches Some(s) && s.report_url@ == u@ && s.attempts == 0
                &&& r.1 matches VtCommand::Fetch(f) && f@ == u@
            },
            None => {
                &&& r.0 is None
                &&& r.1 matches VtCommand::Finish(Err(e)) && e == VtError::MissingReportUrl
            },
        },
{
    match sub.report_url {
        Some(u) => {
            let f = u.clone();
            (Some(VtScan { report_url: u, attempts: 0 }), VtCommand::Fetch(f))
        },
        None => (None, VtCommand::Finish(Err(VtError::MissingReportUrl))),
    }
}

/// One step of the scan: a completed analysis gives the report, a queued
/// or running one is waited for, any other status fails the scan; after a
/// wait the analysis is fetched again unless it was already fetched
/// [`MAX_POLLS`] times.
pub fn vt_step(scan: VtScan, event: VtEvent) -> (r: (VtScan, VtCommand))
    requires
        scan.attempts < MAX_POLLS,
    ensures
        r.0.report_url@ == scan.report_url@,
        match event {
            VtEvent::Analysis(a) => {
                &&& r.0.attempts == scan.attempts
                &&& match a.status {
                    Some(s) => if s@ == "completed"@ {
                        r.1 matches VtCommand::Finish(res) && match (res, spec_build_report(a)) {
                            (Ok(rep), Ok(v)) => report_view(rep) == v,
                            (Err(e), Err(f)) => e == f,
                            _ => false,
                        }
                    } else if pending_status(s@) {
                        r.1 is Wait
                    } else {
                        r.1 matches VtCommand::Finish(Err(e)) && e == VtError::UnexpectedStatus
                    },
                    None => r.1 matches VtCommand::Finish(Err(e)) && e == VtError::UnexpectedStatus,
                }
            },
            VtEvent::Waited => {
                &&& r.0.attempts == scan.attempts + 1
                &&& if scan.attempts + 1 >= MAX_POLLS {
                    r.1 matches VtCommand::Finish(Err(e)) && e == VtError::TimedOut
                } else {
                    r.1 matches VtCommand::Fetch(f) && f@ == scan.report_url@
                }
            },
        },
        r.1 is Fetch ==> r.0.attempts < MAX_POLLS,
{
    match event {
        VtEvent::Analysis(a) => {
            let cmd = match &a.status {
                Some(s) => {
                    if *s == String::from_str("completed") {
                        None
                    } else if *s == String::from_str("queued") || *s == String::from_str(
                        "in-progress",
                    ) {
                        Some(VtCommand::Wait)
                    } else {
                        Some(VtCommand::Finish(Err(VtError::UnexpectedStatus)))
                    }
                },
                None => Some(VtCommand::Finish(Err(VtError::UnexpectedStatus))),
            };
            match cmd {
                Some(c) => (scan, c),
                None => (scan, VtCommand::Finish(build_report(a))),
            }
        },
        VtEvent::Waited => {
            let attempts = scan.attempts + 1;
            if attempts >= MAX_POLLS {
                (
                    VtScan { report_url: scan.report_url, attempts },
                    VtCommand::Finish(Err(VtError::TimedOut)),
                )
            } else {
                let f = scan.report_url.clone();
                (VtScan { report_url: scan.report_url, attempts }, VtCommand::Fetch(f))
            }
        },
    }
}

/// The SHA-256 digest of `data`.
pub uninterp spec fn sha256(data: Seq<u8>) -> Seq<u8>;

/// `sha2::Sha256::digest`. The contract claims that the digest is a
/// function of the data and is 32 bytes long; its value is not stated.
#[verifier::external_body]
fn sha256_digest(data: &[u8]) -> (r: Vec<u8>)
    ensures
        r@ == sha256(data@),
        r@.len() == 32,
{
    sha2::Sha256::digest(data).to_vec()
}

/// The lower-case hexadecimal digit for `n` (below 16).
pub open spec fn hex_digit(n: int) -> char {
    seq!['0', '1', '2', '3', '4', '5', '6', '7', '8', '9', 'a', 'b', 'c', 'd', 'e', 'f'][n]
}

/// Bytes in lower-case hexadecimal, two digits per byte, high nibble first.
pub open spec fn hex_lower(b: Seq<u8>) -> Seq<char>
    decreases b.len(),
{
    if b.len() == 0 {
        seq![]
    } else {
        hex_lower(b.drop_last()).push(hex_digit(b.last() as int / 16)).push(hex_digit(b.last() as int % 16))
    }
}

fn hex_char(n: u8) -> (c: char)
    requires
        n < 16,
    ensures
        c == hex_digit(n as int),
{
    match n {
        0 => '0',
        1 => '1',
        2 => '2',
        3 => '3',
        4 => '4',
        5 => '5',
        6 => '6',
        7 => '7',
        8 => '8',
        9 => '9',
        10 => 'a',
        11 => 'b',
        12 => 'c',
        13 => 'd',
        14 => 'e',
        _ => 'f',
    }
}

/// Writes bytes in lower-case hexadecimal.
pub fn to_hex_lower(b: &[u8]) -> (r: String)
    ensures
        r@ == hex_lower(b@),
{
    let mut r = String::new();
    let mut i: usize = 0;
    while i < b.len()
        invariant
            i <= b@.len(),
            r@ == hex_lower(b@.take(i as int)),
        decreases b@.len() - i,
    {
        assert(b@.take(i + 1).drop_last() == b@.take(i as int));
        let x = b[i];
        push_char(&mut r, hex_char(x / 16));
        push_char(&mut r, hex_char(x % 16));
        i = i + 1;
    }
    assert(b@.take(b@.len() as int) == b@);
    r
}

/// The fingerprint that `repository check` shows for a synced list: the
/// SHA-256 digest of its bytes, in lower-case hexadecimal.
pub fn get_file_hash(content: &[u8]) -> (r: String)
    ensures
        r@ == hex_lower(sha256(content@)),
        r@.len() == 64,
{
    let d = sha256_digest(content);
    proof {
        lemma_hex_len(d@);
    }
    to_hex_lower(d.as_slice())
}

proof fn lemma_hex_len(b: Seq<u8>)
    ensures
        hex_lower(b).len() == 2 * b.len(),
    decreases b.len(),
{
    if b.len() > 0 {
        lemma_hex_len(b.drop_last());
    }
}

} // verus!
