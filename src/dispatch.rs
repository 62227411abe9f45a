use vstd::prelude::*;
use crate::access_log::{
    access_line, access_line_spec, reason_of, status_label, status_text, HttpVersion, LocalTime,
};
use crate::session::SessionSlot;
use crate::uri::{part_text, RequestUri};

verus! {

/// Where a request stands in its exchange with the preview service.
#[derive(Clone, Copy, Debug, PartialEq, Eq, Structural)]
pub enum Stage {
    /// Waiting for the upstream response.
    Forwarding,
    /// Waiting for the response's headers to be rewritten.
    Rewriting,
    /// The response went back to the client.
    Responded,
    /// The request failed; its connection alone sees the failure.
    Failed,
}

pub open spec fn is_terminal(s: Stage) -> bool {
    s == Stage::Responded || s == Stage::Failed
}

/// What the collaborators report back.
pub enum Event {
    /// The upstream call finished: the response's status code, or an error.
    Forwarded(Result<u16, String>),
    /// The header rewrite finished.
    Rewritten(Result<(), String>),
}

/// What the caller is to do next.
pub enum Action {
    /// Rewrite the upstream response's headers, leaving status and body.
    RewriteHeaders,
    /// Hand the response to the client and print the access line.
    Respond { log_line: String },
    /// Fail this request and print the line that says so.
    Fail { log_line: String },
    /// The event does not belong to this stage: nothing to do.
    Ignore,
}

/// The upstream call to make: the path and query to forward and the
/// identifier of the script that is to run.
pub struct ForwardCall {
    pub path: String,
    pub session_id: String,
}

impl ForwardCall {
    /// The URL of the call on the preview service at `preview_host`.
    pub fn upstream_uri(&self, preview_host: &str) -> (r: String)
        ensures
            r@ == "https://"@ + preview_host@ + self.path@,
    {
        let mut r = String::from_str("https://");
        r.append(preview_host);
        r.append(self.path.as_str());
        r
    }
}

/// The state of one request, from its arrival to its response or failure.
pub struct Dispatch {
    pub stage: Stage,
    pub time: String,
    pub method: String,
    pub host: String,
    pub path: String,
    pub version: HttpVersion,
    pub status: u16,
}

/// The stage that follows `s` on `ev`.
pub open spec fn next_stage(s: Stage, ev: Event) -> Stage {
    match (s, ev) {
        (Stage::Forwarding, Event::Forwarded(Ok(_))) => Stage::Rewriting,
        (Stage::Forwarding, Event::Forwarded(Err(_))) => Stage::Failed,
        (Stage::Rewriting, Event::Rewritten(Ok(_))) => Stage::Responded,
        (Stage::Rewriting, Event::Rewritten(Err(_))) => Stage::Failed,
        _ => s,
    }
}

/// Whether the step from `s` on `ev` prints a line.
pub open spec fn emits(s: Stage, ev: Event) -> bool {
    !is_terminal(s) && is_terminal(next_stage(s, ev))
}

/// The stage after a run of events.
pub open spec fn run_stage(s: Stage, evs: Seq<Event>) -> Stage
    decreases evs.len(),
{
    if evs.len() == 0 {
        s
    } else {
        run_stage(next_stage(s, evs[0]), evs.drop_first())
    }
}

/// How many lines a run of events prints.
pub open spec fn lines_printed(s: Stage, evs: Seq<Event>) -> nat
    decreases evs.len(),
{
    if evs.len() == 0 {
        0
    } else {
        (if emits(s, evs[0]) { 1nat } else { 0nat }) + lines_printed(
            next_stage(s, evs[0]),
            evs.drop_first(),
        )
    }
}

/// The text that stands for the status in the line of a failed request.
pub open spec fn failure_label(err: Seq<char>) -> Seq<char> {
    "failed: "@ + err
}

impl Dispatch {
    /// The access line of a request answered with `self.status`.
    pub open spec fn served_line(&self) -> Seq<char> {
        access_line_spec(
            self.time@,
            self.method@,
            self.host@,
            self.path@,
            self.version,
            status_label(self.status, reason_of(self.status)),
        )
    }

    /// The line of a request that failed with `err`.
    pub open spec fn failed_line(&self, err: Seq<char>) -> Seq<char> {
        access_line_spec(
            self.time@,
            self.method@,
            self.host@,
            self.path@,
            self.version,
            failure_label(err),
        )
    }

    /// The fields that a step leaves as they are.
    pub open spec fn same_request(&self, other: &Dispatch) -> bool {
        &&& self.time@ == other.time@
        &&& self.method@ == other.method@
        &&& self.host@ == other.host@
        &&& self.path@ == other.path@
        &&& self.version == other.version
    }

    /// Takes in a request: records what the log needs, copies the session
    /// identifier out of the slot, and says what to forward.
    pub fn begin(
        host: &str,
        method: &str,
        uri: &RequestUri,
        version: HttpVersion,
        time: &LocalTime,
        slot: &SessionSlot,
    ) -> (r: (Dispatch, ForwardCall))
        requires
            time.well_formed(),
        ensures
            r.0.stage == Stage::Forwarding,
            r.0.time@ == time.stamp(),
            r.0.method@ == method@,
            r.0.host@ == host@,
            r.0.path@ == part_text(uri.path_and_query),
            r.0.version == version,
            r.1.path@ == part_text(uri.path_and_query),
            r.1.session_id@ == slot@,
    {
        let path = uri.forward_path();
        let d = Dispatch {
            stage: Stage::Forwarding,
            time: time.stamp_text(),
            method: String::from_str(method),
            host: String::from_str(host),
            path: path.clone(),
            version,
            status: 0,
        };
        (d, ForwardCall { path, session_id: slot.read() })
    }

    fn failed(&mut self, err: &str) -> (a: Action)
        ensures
            final(self).stage == Stage::Failed,
            final(self).same_request(old(self)),
            final(self).status == old(self).status,
            a matches Action::Fail { log_line } && log_line@ == old(self).failed_line(err@),
    {
        proof {
            reveal_strlit("failed: ");
        }
        let mut label = String::from_str("failed: ");
        label.append(err);
        let line = access_line(
            self.time.as_str(),
            self.method.as_str(),
            self.host.as_str(),
            self.path.as_str(),
            self.version,
            label.as_str(),
        );
        self.stage = Stage::Failed;
        Action::Fail { log_line: line }
    }

    /// Moves the request on by one event and says what to do.
    pub fn step(&mut self, ev: Event) -> (a: Action)
        ensures
            final(self).stage == next_stage(old(self).stage, ev),
            final(self).same_request(old(self)),
            match (old(self).stage, ev) {
                (Stage::Forwarding, Event::Forwarded(Ok(code))) => {
                    &&& a is RewriteHeaders
                    &&& final(self).status == code
                },
                (Stage::Forwarding, Event::Forwarded(Err(e))) => {
                    &&& a matches Action::Fail { log_line } && log_line@ == old(self).failed_line(e@)
                    &&& final(self).status == old(self).status
                },
                (Stage::Rewriting, Event::Rewritten(Ok(_))) => {
                    &&& a matches Action::Respond { log_line } && log_line@
                        == old(self).served_line()
                    &&& final(self).status == old(self).status
                },
                (Stage::Rewriting, Event::Rewritten(Err(e))) => {
                    &&& a matches Action::Fail { log_line } && log_line@ == old(self).failed_line(e@)
                    &&& final(self).status == old(self).status
                },
                _ => {
                    &&& a is Ignore
                    &&& final(self).status == old(self).status
                },
            },
    {
        match (self.stage, ev) {
            (Stage::Forwarding, Event::Forwarded(Ok(code))) => {
                self.status = code;
                self.stage = Stage::Rewriting;
                Action::RewriteHeaders
            },
            (Stage::Forwarding, Event::Forwarded(Err(e))) => self.failed(e.as_str()),
            (Stage::Rewriting, Event::Rewritten(Ok(_))) => {
                let status = status_text(self.status);
                let line = access_line(
                    self.time.as_str(),
                    self.method.as_str(),
                    self.host.as_str(),
                    self.path.as_str(),
                    self.version,
                    status.as_str(),
                );
                self.stage = Stage::Responded;
                Action::Respond { log_line: line }
            },
            (Stage::Rewriting, Event::Rewritten(Err(e))) => self.failed(e.as_str()),
            _ => Action::Ignore,
        }
    }
}

/// Each request prints one line at most, whatever its collaborators report
/// and however often: exactly one once it has been answered or has failed,
/// and none while it is still under way.
pub proof fn lemma_one_line_per_request(evs: Seq<Event>)
    ensures
        lines_printed(Stage::Forwarding, evs) <= 1,
        lines_printed(Stage::Forwarding, evs) == 1 <==> is_terminal(
            run_stage(Stage::Forwarding, evs),
        ),
{
    lemma_lines_from(Stage::Forwarding, evs);
}

proof fn lemma_lines_from(s: Stage, evs: Seq<Event>)
    ensures
        is_terminal(s) ==> lines_printed(s, evs) == 0 && run_stage(s, evs) == s,
        !is_terminal(s) ==> (lines_printed(s, evs) == if is_terminal(run_stage(s, evs)) {
            1nat
        } else {
            0nat
        }),
    decreases evs.len(),
{
    if evs.len() > 0 {
        lemma_lines_from(next_stage(s, evs[0]), evs.drop_first());
    }
}

} // verus!
