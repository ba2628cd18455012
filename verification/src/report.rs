//! The file reporter: which outcomes a log file records, and the line
//! that each is recorded as.

use vstd::prelude::*;
use crate::config::ReportOn;
use crate::messages::{
    BusEvent, EntryDTO, EntryDTOView, FailureDTO, FailureDTOView, Outcome, OutcomeView,
};
use crate::text::{
    decimal, push_decimal, push_signed_decimal, push_text, push_trimmed, signed_decimal,
    string_of, trimmed,
};

verus! {

/// The line of an answered request:
/// `<unix seconds> <latency>ms <status code> <url>` and a line feed.
pub open spec fn success_line_text(e: EntryDTOView) -> Seq<char> {
    signed_decimal(e.timestamp_seconds as int) + " "@ + decimal(e.latency as nat) + "ms "@
        + decimal(e.response_code as nat) + " "@ + e.target.url + "\n"@
}

/// The line of a failed request:
/// `<unix seconds> Failed <url> <latency>ms <reason>` and a line feed,
/// the reason without the white space around it.
pub open spec fn failure_line_text(f: FailureDTOView) -> Seq<char> {
    signed_decimal(f.timestamp_seconds as int) + " Failed "@ + f.target.url + " "@ + decimal(
        f.latency as nat,
    ) + "ms "@ + trimmed(f.reason) + "\n"@
}

/// Whether a log file with this filter records answered requests.
pub open spec fn records_success(filter: ReportOn) -> bool {
    filter == ReportOn::Success || filter == ReportOn::Both
}

/// Whether a log file with this filter records failed requests.
pub open spec fn records_failure(filter: ReportOn) -> bool {
    filter == ReportOn::Failure || filter == ReportOn::Both
}

/// The line that a log file with this filter gets for an outcome, if it
/// records the outcome at all.
pub open spec fn line_for(filter: ReportOn, o: OutcomeView) -> Option<Seq<char>> {
    match o {
        OutcomeView::Success(e) => if records_success(filter) {
            Some(success_line_text(e))
        } else {
            None
        },
        OutcomeView::Failure(f) => if records_failure(filter) {
            Some(failure_line_text(f))
        } else {
            None
        },
    }
}

/// The line of an answered request.
pub fn success_line(e: &EntryDTO) -> (r: String)
    ensures
        r@ == success_line_text(e@),
{
    let mut out: Vec<char> = Vec::new();
    push_signed_decimal(&mut out, e.timestamp_seconds);
    push_text(&mut out, " ");
    push_decimal(&mut out, e.latency);
    push_text(&mut out, "ms ");
    push_decimal(&mut out, e.response_code as u128);
    push_text(&mut out, " ");
    push_text(&mut out, e.target.url.as_str());
    push_text(&mut out, "\n");
    proof {
        assert(out@ =~= success_line_text(e@));
    }
    string_of(&out)
}

/// The line of a failed request.
pub fn failure_line(f: &FailureDTO) -> (r: String)
    ensures
        r@ == failure_line_text(f@),
{
    let mut out: Vec<char> = Vec::new();
    push_signed_decimal(&mut out, f.timestamp_seconds);
    push_text(&mut out, " Failed ");
    push_text(&mut out, f.target.url.as_str());
    push_text(&mut out, " ");
    push_decimal(&mut out, f.latency);
    push_text(&mut out, "ms ");
    push_trimmed(&mut out, f.reason.as_str());
    push_text(&mut out, "\n");
    proof {
        assert(out@ =~= failure_line_text(f@));
    }
    string_of(&out)
}

/// The line to append for `outcome`, or `None` where the filter leaves
/// outcomes of its kind out.
pub fn report_line(filter: ReportOn, outcome: &Outcome) -> (r: Option<String>)
    ensures
        match r {
            Some(line) => line_for(filter, outcome@) == Some(line@),
            None => line_for(filter, outcome@) is None,
        },
{
    match outcome {
        Outcome::Success(e) => match filter {
            ReportOn::Success | ReportOn::Both => Some(success_line(e)),
            ReportOn::Failure => None,
        },
        Outcome::Failure(f) => match filter {
            ReportOn::Failure | ReportOn::Both => Some(failure_line(f)),
            ReportOn::Success => None,
        },
    }
}

/// What a file reporter does next.
#[derive(Clone, Debug, PartialEq, Eq)]
pub enum ReporterAction {
    /// Append this line to the log file, then report how it went.
    Append(String),
    /// Nothing to write; receive again.
    Receive,
    /// Warn that this many outcomes were missed; receive again.
    WarnLagged(u64),
    /// Stop: the bus is closed, or the reporter had stopped before.
    Stop,
}

/// The file reporter of one target: where it writes, what it records,
/// and whether it is still at work.
#[derive(Clone, Debug, PartialEq, Eq)]
pub struct FileReporterTask {
    pub location: String,
    pub report_on: ReportOn,
    pub running: bool,
}

impl FileReporterTask {
    /// A reporter at work on the log file at `location`.
    pub fn new(location: String, report_on: ReportOn) -> (r: FileReporterTask)
        ensures
            r.location@ == location@,
            r.report_on == report_on,
            r.running,
    {
        FileReporterTask { location, report_on, running: true }
    }

    /// What to do about what the bus delivered. A reporter at work
    /// appends the line of an outcome that its filter records, passes
    /// over any other, warns of a lag and goes on, and stops when the bus
    /// is closed. A stopped reporter stays stopped.
    pub fn receive(&mut self, event: &BusEvent) -> (action: ReporterAction)
        ensures
            final(self).location == old(self).location,
            final(self).report_on == old(self).report_on,
            final(self).running == (old(self).running && !(*event is Closed)),
            !old(self).running ==> action is Stop,
            old(self).running ==> match *event {
                BusEvent::Message(o) => match line_for(old(self).report_on, o@) {
                    Some(line) => action matches ReporterAction::Append(l) && l@ == line,
                    None => action is Receive,
                },
                BusEvent::Lagged(n) => action == ReporterAction::WarnLagged(n),
                BusEvent::Closed => action is Stop,
            },
    {
        if !self.running {
            return ReporterAction::Stop;
        }
        match event {
            BusEvent::Message(o) => match report_line(self.report_on, o) {
                Some(line) => ReporterAction::Append(line),
                None => ReporterAction::Receive,
            },
            BusEvent::Lagged(n) => ReporterAction::WarnLagged(*n),
            BusEvent::Closed => {
                self.running = false;
                ReporterAction::Stop
            },
        }
    }

    /// Takes note of how an append went: a reporter whose write failed
    /// stops, and only that one. Returns whether it is still at work.
    pub fn written(&mut self, ok: bool) -> (running: bool)
        ensures
            final(self).location == old(self).location,
            final(self).report_on == old(self).report_on,
            final(self).running == (old(self).running && ok),
            running == final(self).running,
    {
        if !ok {
            self.running = false;
        }
        self.running
    }
}

} // verus!
