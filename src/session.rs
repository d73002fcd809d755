use vstd::prelude::*;
use crate::encode::{input_kind, InputKind};
use crate::error::{error_text, StartError};
use crate::format::{negotiate, negotiated, CapturePlan, ConfigRange, DefaultConfig, SampleFormat};

verus! {

/// The session's hardware slot: empty, or holding the one live capture stream.
pub struct Session<H> {
    stream: Option<H>,
}

/// The stream held after a start that built `h` and whose handshake ended with `ok`.
pub open spec fn held_after_start<H>(held: Option<H>, h: H, ok: bool) -> Option<H> {
    if ok {
        Some(h)
    } else {
        held
    }
}

/// The stream a start hands back for release: the one it replaced, or on
/// failure the one it built.
pub open spec fn released_by_start<H>(held: Option<H>, h: H, ok: bool) -> Option<H> {
    if ok {
        held
    } else {
        Some(h)
    }
}

pub open spec fn started_text() -> Seq<char> {
    "Recording Started"@
}

pub open spec fn stopped_text() -> Seq<char> {
    "Recording Stopped"@
}

impl<H> Session<H> {
    /// The stream held, if any.
    pub closed spec fn held(&self) -> Option<H> {
        self.stream
    }

    /// A session with no stream.
    pub fn new() -> (r: Session<H>)
        ensures
            r.held().is_none(),
    {
        Session { stream: None }
    }

    /// Whether a stream is held.
    pub fn is_active(&self) -> (r: bool)
        ensures
            r == self.held().is_some(),
    {
        self.stream.is_some()
    }

    /// Holds `h` from now on, handing back the stream it replaces.
    pub fn install(&mut self, h: H) -> (prev: Option<H>)
        ensures
            final(self).held() == Some(h),
            prev == old(self).held(),
    {
        let prev = self.stream.take();
        self.stream = Some(h);
        prev
    }

    /// Empties the slot, handing back the stream it held.
    pub fn release(&mut self) -> (prev: Option<H>)
        ensures
            final(self).held().is_none(),
            prev == old(self).held(),
    {
        self.stream.take()
    }
}

/// Negotiates the capture configuration and checks that the encoder handles the
/// device's sample representation; fails with `UnsupportedFormat` exactly when it does not.
pub fn plan_capture(configs: &Vec<ConfigRange>, default: &DefaultConfig) -> (r: Result<
    (CapturePlan, InputKind),
    StartError,
>)
    ensures
        r matches Ok((p, k)) ==> negotiated(configs@, *default, p) && (p.input
            == SampleFormat::F32 ==> k == InputKind::F32) && (p.input == SampleFormat::I16 ==> k
            == InputKind::I16) && p.input != SampleFormat::Other,
        r matches Err(e) ==> e is UnsupportedFormat && exists|p: CapturePlan|
            negotiated(configs@, *default, p) && p.input == SampleFormat::Other,
{
    let plan = negotiate(configs, default);
    match input_kind(plan.input) {
        Some(k) => Ok((plan, k)),
        None => Err(StartError::UnsupportedFormat),
    }
}

/// The reply to a start that failed before anything was committed.
pub fn refuse_start(e: StartError) -> (r: Result<String, String>)
    ensures
        r matches Err(m) && m@ == error_text(e),
{
    Err(e.message())
}

/// Settles a start whose hardware stream is built and running, once the
/// handshake has an outcome. On success the stream becomes the one held and the
/// stream it replaces is handed back for release; on failure the session is
/// left as it was and the new stream itself is handed back for release.
pub fn commit_start<H>(session: &mut Session<H>, stream: H, handshake: Result<(), String>) -> (r: (
    Result<String, String>,
    Option<H>,
))
    ensures
        final(session).held() == held_after_start(old(session).held(), stream, handshake is Ok),
        r.1 == released_by_start(old(session).held(), stream, handshake is Ok),
        handshake is Ok ==> (r.0 matches Ok(m) && m@ == started_text()),
        handshake matches Err(e) ==> (r.0 matches Err(m) && m@ == error_text(
            StartError::Connect(e),
        )),
{
    match handshake {
        Ok(()) => {
            let prev = session.install(stream);
            (Ok(String::from_str("Recording Started")), prev)
        },
        Err(e) => (refuse_start(StartError::Connect(e)), Some(stream)),
    }
}

/// Ends the session: the slot is emptied and the stream it held is handed back
/// for release. Always succeeds; with no stream held nothing changes.
pub fn stop<H>(session: &mut Session<H>) -> (r: (Result<String, String>, Option<H>))
    ensures
        final(session).held().is_none(),
        r.1 == old(session).held(),
        r.0 matches Ok(m) && m@ == stopped_text(),
        old(session).held().is_none() ==> *final(session) == *old(session),
{
    let prev = session.release();
    proof {
        if prev.is_none() {
            assert(*session == *old(session));
        }
    }
    (Ok(String::from_str("Recording Stopped")), prev)
}

/// Starting twice never leaves two streams live: after two successful starts
/// the session holds only the second stream, and the second start hands back
/// the first for release.
pub proof fn second_start_keeps_one_stream<H>(held: Option<H>, first: H, second: H)
    ensures
        held_after_start(held_after_start(held, first, true), second, true) == Some(second),
        released_by_start(held_after_start(held, first, true), second, true) == Some(first),
        released_by_start(held, first, true) == held,
{
}

} // verus!
