//! Request counters, the moving average of request durations, and the
//! banners that the server logs when it starts and stops.
use vstd::prelude::*;
use crate::strmap::StringMap;

verus! {

/// A counter after one more event. It wraps round at the top of `u64`.
pub open spec fn bumped(n: u64) -> u64 {
    if n == u64::MAX {
        0
    } else {
        (n + 1) as u64
    }
}

/// The moving average after a sample. The first sample (the average is still
/// zero) is taken as it is; after that the average keeps nine tenths of its
/// weight.
pub open spec fn smoothed(avg: u64, sample: u64) -> u64 {
    if avg == 0 {
        sample
    } else {
        ((avg * 9 + sample) / 10) as u64
    }
}

/// The per-method counts after one more call of `method`.
pub open spec fn counted(counts: Map<Seq<char>, u64>, method: Seq<char>) -> Map<Seq<char>, u64> {
    counts.insert(
        method,
        if counts.contains_key(method) {
            bumped(counts[method])
        } else {
            1
        },
    )
}

fn bump(n: u64) -> (r: u64)
    ensures
        r == bumped(n),
{
    if n == u64::MAX {
        0
    } else {
        n + 1
    }
}

/// The counters of a running server.
#[derive(Debug)]
pub struct Metrics {
    total_requests: u64,
    total_success: u64,
    total_errors: u64,
    avg_duration_us: u64,
    method_counts: StringMap<u64>,
}

/// The counters at one moment.
#[derive(Debug, Clone)]
pub struct MetricsSnapshot {
    pub total_requests: u64,
    pub total_success: u64,
    pub total_errors: u64,
    pub avg_duration_us: u64,
    pub method_counts: StringMap<u64>,
}

impl Metrics {
    /// The invariant of the per-method counts.
    pub closed spec fn wf(&self) -> bool {
        self.method_counts.wf()
    }

    pub closed spec fn total_requests(&self) -> u64 {
        self.total_requests
    }

    pub closed spec fn total_success(&self) -> u64 {
        self.total_success
    }

    pub closed spec fn total_errors(&self) -> u64 {
        self.total_errors
    }

    pub closed spec fn avg_duration_us(&self) -> u64 {
        self.avg_duration_us
    }

    pub closed spec fn method_counts(&self) -> Map<Seq<char>, u64> {
        self.method_counts@
    }

    /// All counters at zero.
    pub open spec fn is_zero(&self) -> bool {
        &&& self.total_requests() == 0
        &&& self.total_success() == 0
        &&& self.total_errors() == 0
        &&& self.avg_duration_us() == 0
        &&& self.method_counts() == Map::<Seq<char>, u64>::empty()
    }

    /// Fresh counters, all at zero.
    pub fn new() -> (r: Self)
        ensures
            r.wf(),
            r.is_zero(),
    {
        Metrics {
            total_requests: 0,
            total_success: 0,
            total_errors: 0,
            avg_duration_us: 0,
            method_counts: StringMap::new(),
        }
    }

    /// Counts a request.
    pub fn record_request(&mut self)
        ensures
            final(self).total_requests() == bumped(old(self).total_requests()),
            final(self).total_success() == old(self).total_success(),
            final(self).total_errors() == old(self).total_errors(),
            final(self).avg_duration_us() == old(self).avg_duration_us(),
            final(self).method_counts() == old(self).method_counts(),
            old(self).wf() ==> final(self).wf(),
    {
        self.total_requests = bump(self.total_requests);
    }

    /// Counts a successful response.
    pub fn record_success(&mut self)
        ensures
            final(self).total_requests() == old(self).total_requests(),
            final(self).total_success() == bumped(old(self).total_success()),
            final(self).total_errors() == old(self).total_errors(),
            final(self).avg_duration_us() == old(self).avg_duration_us(),
            final(self).method_counts() == old(self).method_counts(),
            old(self).wf() ==> final(self).wf(),
    {
        self.total_success = bump(self.total_success);
    }

    /// Counts an error response.
    pub fn record_error(&mut self)
        ensures
            final(self).total_requests() == old(self).total_requests(),
            final(self).total_success() == old(self).total_success(),
            final(self).total_errors() == bumped(old(self).total_errors()),
            final(self).avg_duration_us() == old(self).avg_duration_us(),
            final(self).method_counts() == old(self).method_counts(),
            old(self).wf() ==> final(self).wf(),
    {
        self.total_errors = bump(self.total_errors);
    }

    /// Takes a request's duration, in microseconds, into the moving average.
    pub fn record_duration(&mut self, duration_us: u64)
        ensures
            final(self).avg_duration_us() == smoothed(old(self).avg_duration_us(), duration_us),
            final(self).total_requests() == old(self).total_requests(),
            final(self).total_success() == old(self).total_success(),
            final(self).total_errors() == old(self).total_errors(),
            final(self).method_counts() == old(self).method_counts(),
            old(self).wf() ==> final(self).wf(),
    {
        let avg: u64 = self.avg_duration_us;
        if avg == 0 {
            self.avg_duration_us = duration_us;
        } else {
            let wide: u128 = (avg as u128 * 9 + duration_us as u128) / 10;
            self.avg_duration_us = wide as u64;
        }
    }

    /// Counts a call of `method`.
    pub fn record_method(&mut self, method: &str)
        requires
            old(self).wf(),
        ensures
            final(self).wf(),
            final(self).method_counts() == counted(old(self).method_counts(), method@),
            final(self).total_requests() == old(self).total_requests(),
            final(self).total_success() == old(self).total_success(),
            final(self).total_errors() == old(self).total_errors(),
            final(self).avg_duration_us() == old(self).avg_duration_us(),
    {
        let next: u64 = match self.method_counts.get(method) {
            Some(n) => bump(*n),
            None => 1,
        };
        self.method_counts.insert(method.to_owned(), next);
    }

    /// The counters as they are now.
    pub fn snapshot(&self) -> (r: MetricsSnapshot)
        requires
            self.wf(),
        ensures
            r.total_requests == self.total_requests(),
            r.total_success == self.total_success(),
            r.total_errors == self.total_errors(),
            r.avg_duration_us == self.avg_duration_us(),
            r.method_counts.wf(),
            r.method_counts@ == self.method_counts(),
    {
        MetricsSnapshot {
            total_requests: self.total_requests,
            total_success: self.total_success,
            total_errors: self.total_errors,
            avg_duration_us: self.avg_duration_us,
            method_counts: self.method_counts.duplicate(),
        }
    }

    /// Sets every counter back to zero.
    pub fn reset(&mut self)
        ensures
            final(self).wf(),
            final(self).is_zero(),
    {
        self.total_requests = 0;
        self.total_success = 0;
        self.total_errors = 0;
        self.avg_duration_us = 0;
        self.method_counts.clear();
    }
}

/// Follows one request from its arrival to its response, and books it in the
/// counters.
#[derive(Debug)]
pub struct RequestTracer {
    method: String,
}

impl RequestTracer {
    /// The method that the traced request calls.
    pub closed spec fn method(&self) -> Seq<char> {
        self.method@
    }

    /// Starts to trace a request, and counts it.
    pub fn new(method: &str, metrics: &mut Metrics) -> (r: Self)
        ensures
            r.method() == method@,
            final(metrics).total_requests() == bumped(old(metrics).total_requests()),
            final(metrics).total_success() == old(metrics).total_success(),
            final(metrics).total_errors() == old(metrics).total_errors(),
            final(metrics).avg_duration_us() == old(metrics).avg_duration_us(),
            final(metrics).method_counts() == old(metrics).method_counts(),
            old(metrics).wf() ==> final(metrics).wf(),
    {
        metrics.record_request();
        RequestTracer { method: method.to_owned() }
    }

    /// Books the request as answered with a result after `elapsed_us`
    /// microseconds.
    pub fn success(self, metrics: &mut Metrics, elapsed_us: u64)
        requires
            old(metrics).wf(),
        ensures
            final(metrics).wf(),
            final(metrics).total_requests() == old(metrics).total_requests(),
            final(metrics).total_success() == bumped(old(metrics).total_success()),
            final(metrics).total_errors() == old(metrics).total_errors(),
            final(metrics).avg_duration_us() == smoothed(old(metrics).avg_duration_us(), elapsed_us),
            final(metrics).method_counts() == counted(old(metrics).method_counts(), self.method()),
    {
        metrics.record_success();
        metrics.record_duration(elapsed_us);
        metrics.record_method(self.method.as_str());
    }

    /// Books the request as answered with an error after `elapsed_us`
    /// microseconds.
    pub fn error(self, metrics: &mut Metrics, elapsed_us: u64)
        requires
            old(metrics).wf(),
        ensures
            final(metrics).wf(),
            final(metrics).total_requests() == old(metrics).total_requests(),
            final(metrics).total_success() == old(metrics).total_success(),
            final(metrics).total_errors() == bumped(old(metrics).total_errors()),
            final(metrics).avg_duration_us() == smoothed(old(metrics).avg_duration_us(), elapsed_us),
            final(metrics).method_counts() == counted(old(metrics).method_counts(), self.method()),
    {
        metrics.record_error();
        metrics.record_duration(elapsed_us);
        metrics.record_method(self.method.as_str());
    }
}

/// The lines that announce the server: a banner, the transport, the address,
/// and that the server is ready.
pub fn log_startup(addr: &str, transport: &str) -> (lines: Vec<String>)
    ensures
        lines@.len() == 6,
        lines@[0]@ == "╔══════════════════════════════════════╗"@,
        lines@[1]@ == "║       DiceRPC Server Started         ║"@,
        lines@[2]@ == "╚══════════════════════════════════════╝"@,
        lines@[3]@ == "Transport: "@ + transport@,
        lines@[4]@ == "Address: "@ + addr@,
        lines@[5]@ == "Ready to accept connections"@,
{
    let mut lines: Vec<String> = Vec::new();
    lines.push("╔══════════════════════════════════════╗".to_owned());
    lines.push("║       DiceRPC Server Started         ║".to_owned());
    lines.push("╚══════════════════════════════════════╝".to_owned());
    let mut line = "Transport: ".to_owned();
    line.append(transport);
    lines.push(line);
    let mut line = "Address: ".to_owned();
    line.append(addr);
    lines.push(line);
    lines.push("Ready to accept connections".to_owned());
    lines
}

/// The lines that announce that the server shuts down.
pub fn log_shutdown() -> (lines: Vec<String>)
    ensures
        lines@.len() == 3,
        lines@[0]@ == "╔══════════════════════════════════════╗"@,
        lines@[1]@ == "║     DiceRPC Server Shutting Down     ║"@,
        lines@[2]@ == "╚══════════════════════════════════════╝"@,
{
    let mut lines: Vec<String> = Vec::new();
    lines.push("╔══════════════════════════════════════╗".to_owned());
    lines.push("║     DiceRPC Server Shutting Down     ║".to_owned());
    lines.push("╚══════════════════════════════════════╝".to_owned());
    lines
}

impl Default for Metrics {
    /// Fresh counters, all at zero.
    fn default() -> (r: Self)
        ensures
            r.wf(),
            r.is_zero(),
    {
        Metrics::new()
    }
}

} // verus!
