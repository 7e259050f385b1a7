//! Driving the external depot download tool.
//!
//! The tool is started as `{tool} -app {app id} -dir {directory}` and
//! writes one progress line after another; a line may open with a
//! percentage such as `55.21%`. Every line becomes a
//! [`Progress::Downloading`], and the end of its output a
//! [`Progress::Finished`].
use vstd::prelude::*;
use vstd::string::*;
use crate::platform::{os_name_spec, TargetOs};
use crate::text::{
    after_sep, all_digits, before_sep, chars_of, decimal_text, find_sep, is_digit, parse_u32, parse_u32_in,
    push_decimal, strings_view, trim_end_white_at, trim_start_white_at, trim_white,
};

verus! {

/// One step of a depot download.
#[derive(Debug, Clone, PartialEq, Eq)]
pub enum Progress {
    Downloading(String),
    Finished,
}

/// The whole percent that a progress line opens with: the text before its
/// first `%`, trimmed, must be digits with an optional `.` and fraction
/// digits; the fraction is dropped.
pub open spec fn percent_of(line: Seq<char>) -> Option<u32> {
    match after_sep(line, '%') {
        None => None,
        Some(_) => {
            let token = trim_white(before_sep(line, '%'));
            let whole = before_sep(token, '.');
            match after_sep(token, '.') {
                Some(frac) => if all_digits(frac) && (whole.len() == 0 || whole[0] != '+') {
                    parse_u32(whole)
                } else {
                    None
                },
                None => if whole.len() == 0 || whole[0] != '+' {
                    parse_u32(whole)
                } else {
                    None
                },
            }
        },
    }
}

fn all_digits_in(cs: &Vec<char>, lo: usize, hi: usize) -> (r: bool)
    requires
        lo <= hi <= cs@.len(),
    ensures
        r == all_digits(cs@.subrange(lo as int, hi as int)),
{
    let mut i = lo;
    while i < hi
        invariant
            lo <= i <= hi <= cs@.len(),
            all_digits(cs@.subrange(lo as int, i as int)),
        decreases hi - i,
    {
        if !('0' <= cs[i] && cs[i] <= '9') {
            assert(cs@.subrange(lo as int, hi as int)[i - lo] == cs@[i as int]);
            return false;
        }
        assert forall|j: int| 0 <= j < i + 1 - lo implies is_digit(
            #[trigger] cs@.subrange(lo as int, i + 1)[j],
        ) by {
            if j < i - lo {
                assert(cs@.subrange(lo as int, i + 1)[j] == cs@.subrange(lo as int, i as int)[j]);
            }
        }
        i += 1;
    }
    true
}

/// The whole percent that the progress line `line` opens with, if any.
pub fn parse_percent(line: &str) -> (r: Option<u32>)
    ensures
        r == percent_of(line@),
{
    let cs = chars_of(line);
    let n = cs.len();
    assert(cs@.subrange(0, n as int) =~= cs@);
    let pct = find_sep(&cs, 0, n, '%');
    if pct == n {
        return None;
    }
    let end = trim_end_white_at(&cs, 0, pct);
    let start = trim_start_white_at(&cs, 0, end);
    let dot = find_sep(&cs, start, end, '.');
    if start < dot && cs[start] == '+' {
        return None;
    }
    if dot < end && !all_digits_in(&cs, dot + 1, end) {
        return None;
    }
    parse_u32_in(&cs, start, dot)
}

impl Progress {
    /// The percentage a `Downloading` line opens with.
    pub fn percent(&self) -> (r: Option<u32>)
        ensures
            r == match *self {
                Progress::Downloading(s) => percent_of(s@),
                Progress::Finished => None,
            },
    {
        match self {
            Progress::Downloading(s) => parse_percent(s.as_str()),
            Progress::Finished => None,
        }
    }
}

/// The arguments that start the tool on depot `app_id` into `dir`.
pub open spec fn download_args_spec(app_id: u32, dir: Seq<char>) -> Seq<Seq<char>> {
    seq!["-app"@, decimal_text(app_id as nat), "-dir"@, dir]
}

pub fn download_args(app_id: u32, dir: &str) -> (r: Vec<String>)
    ensures
        strings_view(r@) == download_args_spec(app_id, dir@),
{
    let mut id = String::new();
    push_decimal(&mut id, app_id);
    let mut args: Vec<String> = Vec::new();
    args.push(String::from_str("-app"));
    args.push(id);
    args.push(String::from_str("-dir"));
    args.push(String::from_str(dir));
    assert(strings_view(args@) =~= download_args_spec(app_id, dir@));
    args
}

/// Where the newest release of the tool for `os` is published.
pub open spec fn tool_release_url_spec(os: TargetOs) -> Seq<char> {
    "https://github.com/SteamRE/DepotDownloader/releases/latest/download/DepotDownloader-"@
        + os_name_spec(os) + "-x64.zip"@
}

pub fn tool_release_url(os: TargetOs) -> (r: String)
    ensures
        r@ == tool_release_url_spec(os),
{
    let mut s = String::from_str("https://github.com/SteamRE/DepotDownloader/releases/latest/download/DepotDownloader-");
    s.append(os.name());
    s.append("-x64.zip");
    s
}

/// The tool's executable, relative to its install directory.
pub const TOOL_EXECUTABLE: &'static str = "DepotDownloader";

/// What a depot download has shown so far.
pub struct DownloadStatus {
    pub percent: u32,
    pub log: Vec<String>,
    pub finished: bool,
}

impl DownloadStatus {
    pub fn new() -> (r: DownloadStatus)
        ensures
            r.percent == 0,
            r.log@.len() == 0,
            !r.finished,
    {
        DownloadStatus { percent: 0, log: Vec::new(), finished: false }
    }

    /// Takes one progress step: a line joins the log and updates the
    /// percentage when it opens with one; the end marks the download done.
    pub fn apply(&mut self, p: Progress)
        ensures
            match p {
                Progress::Downloading(s) => {
                    &&& strings_view(final(self).log@)
                        == strings_view(old(self).log@).push(s@)
                    &&& final(self).percent == match percent_of(s@) {
                        Some(v) => v,
                        None => old(self).percent,
                    }
                    &&& final(self).finished == old(self).finished
                },
                Progress::Finished => {
                    &&& final(self).log@ == old(self).log@
                    &&& final(self).percent == old(self).percent
                    &&& final(self).finished
                },
            },
    {
        match p {
            Progress::Downloading(s) => {
                let pct = parse_percent(s.as_str());
                match pct {
                    Some(v) => {
                        self.percent = v;
                    },
                    None => {},
                }
                let ghost before = self.log@;
                self.log.push(s);
                assert(strings_view(self.log@) =~= strings_view(before).push(s@));
            },
            Progress::Finished => {
                self.finished = true;
            },
        }
    }
}

} // verus!
