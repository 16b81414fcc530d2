//! What a client tells its user.
use super::handshake::ClientInfo;
use crate::protocol::Endpoint;
use crate::text::{decimal, push_decimal};
use vstd::prelude::*;
use vstd::string::*;
use vstd::utf8::encode_utf8;

verus! {

/// Something that the user is told of.
#[derive(Clone, Debug)]
pub enum Event {
    /// The server has received the client.
    UpdateClientInfo(ClientInfo),
}

/// Takes note of events.
pub trait EventRecorder {
    /// The lines in which the recorder puts an event.
    spec fn report(&self, event: Event, lines: Seq<String>) -> bool;

    /// Notes an event: the lines to be shown for it.
    fn log(&self, event: &Event) -> (lines: Vec<String>)
        ensures
            self.report(*event, lines@),
    ;
}

/// Shows events on the terminal.
#[derive(Clone, Copy, Debug, PartialEq, Eq, Structural)]
pub struct StdoutRecorder {}

/// Where the local server behind an endpoint is to be reached.
pub open spec fn route_text(e: Endpoint, host: Seq<char>) -> Seq<char> {
    "Your server "@ + e.protocol.text() + "://localhost:"@ + decimal(e.local_port as nat)
        + " is now available at "@ + e.protocol.text() + "://"@ + host + ":"@ + decimal(
        e.remote_port as nat,
    )
}

/// The edge of a box around a line of `n` bytes.
pub open spec fn border(n: nat) -> Seq<char> {
    seq!['+'] + Seq::new(n + 2, |i: int| '-') + seq!['+']
}

/// The number of bytes of a text.
pub open spec fn byte_len(text: Seq<char>) -> nat {
    encode_utf8(text).len()
}

/// The line number `k` that tells a client about itself: its name, and for each endpoint a box that
/// says where its server is to be reached.
pub open spec fn info_line(info: ClientInfo, k: int) -> Seq<char> {
    if k == 0 {
        "Your Client ID: "@ + info.client_id.text()
    } else {
        let route = route_text(info.endpoints@[(k - 1) / 3], info.host@);
        if (k - 1) % 3 == 1 {
            "| "@ + route + " |"@
        } else {
            border(byte_len(route))
        }
    }
}

/// The lines tell a client about itself.
pub open spec fn tells(info: ClientInfo, lines: Seq<String>) -> bool {
    &&& lines.len() == 1 + 3 * info.endpoints@.len()
    &&& forall|k: int| 0 <= k < lines.len() ==> (#[trigger] lines[k])@ == info_line(info, k)
}

fn route(e: &Endpoint, host: &str) -> (r: String)
    ensures
        r@ == route_text(*e, host@),
{
    let mut out = "Your server ".to_owned();
    out.append(e.protocol.to_string().as_str());
    out.append("://localhost:");
    push_decimal(&mut out, e.local_port as u64);
    out.append(" is now available at ");
    out.append(e.protocol.to_string().as_str());
    out.append("://");
    out.append(host);
    out.append(":");
    push_decimal(&mut out, e.remote_port as u64);
    out
}

fn border_for(text: &str) -> (r: String)
    ensures
        r@ == border(byte_len(text@)),
{
    proof {
        reveal_strlit("+--");
        reveal_strlit("-");
        reveal_strlit("+");
    }
    let n: usize = text.as_bytes().len();
    let mut out = "+--".to_owned();
    assert(out@ =~= seq!['+'] + Seq::new(2, |i: int| '-'));
    let mut i: usize = 0;
    while i < n
        invariant
            i <= n,
            "-"@ == seq!['-'],
            out@ == seq!['+'] + Seq::new((i + 2) as nat, |i: int| '-'),
        decreases n - i,
    {
        out.append("-");
        i = i + 1;
        assert(out@ =~= seq!['+'] + Seq::new((i + 2) as nat, |i: int| '-'));
    }
    out.append("+");
    assert(out@ =~= border(byte_len(text@)));
    out
}

fn framed(text: &str) -> (r: String)
    ensures
        r@ == "| "@ + text@ + " |"@,
{
    let mut out = "| ".to_owned();
    out.append(text);
    out.append(" |");
    out
}

impl EventRecorder for StdoutRecorder {
    open spec fn report(&self, event: Event, lines: Seq<String>) -> bool {
        match event {
            Event::UpdateClientInfo(info) => tells(info, lines),
        }
    }

    /// The lines that the terminal shows for an event.
    fn log(&self, event: &Event) -> (lines: Vec<String>) {
        match event {
            Event::UpdateClientInfo(info) => {
                let mut lines: Vec<String> = Vec::new();
                lines.push(
                    crate::text::join("Your Client ID: ", info.client_id.to_string().as_str()),
                );
                let mut i: usize = 0;
                while i < info.endpoints.len()
                    invariant
                        i <= info.endpoints@.len(),
                        lines@.len() == 1 + 3 * i,
                        forall|k: int|
                            0 <= k < lines@.len() ==> (#[trigger] lines@[k])@ == info_line(
                                *info,
                                k,
                            ),
                    decreases info.endpoints@.len() - i,
                {
                    let ghost n = lines@.len() as int;
                    let message = route(&info.endpoints[i], info.host.as_str());
                    proof {
                        assert((n - 1) / 3 == i && (n - 1) % 3 == 0);
                        assert(n / 3 == i && n % 3 == 1);
                        assert((n + 1) / 3 == i && (n + 1) % 3 == 2);
                    }
                    lines.push(border_for(message.as_str()));
                    lines.push(framed(message.as_str()));
                    lines.push(border_for(message.as_str()));
                    i = i + 1;
                }
                lines
            },
        }
    }
}

/// A recorder was chosen already.
#[derive(Clone, Copy, Debug, PartialEq, Eq, Structural)]
pub struct SetEventRecorderError {}

impl SetEventRecorderError {
    /// The error in words.
    pub fn to_string(&self) -> (r: String)
        ensures
            r@
                == "attempted to set a event recorder after the logging system was already initialized"@,
    {
        "attempted to set a event recorder after the logging system was already initialized"
            .to_owned()
    }
}

/// The place of the recorder, which is chosen once.
pub struct RecorderSlot<R> {
    pub recorder: Option<R>,
}

impl<R> RecorderSlot<R> {
    /// No recorder is chosen.
    pub fn new() -> (r: Self)
        ensures
            r.recorder is None,
    {
        RecorderSlot { recorder: None }
    }
}

/// What becomes of the place of the recorder when one is chosen.
pub open spec fn chosen<R>(
    before: RecorderSlot<R>,
    recorder: R,
    after: RecorderSlot<R>,
    r: Result<(), SetEventRecorderError>,
) -> bool {
    match before.recorder {
        Some(_) => r == Err::<(), _>(SetEventRecorderError {  }) && after == before,
        None => r is Ok && after.recorder == Some(recorder),
    }
}

/// Chooses the recorder, unless one was chosen.
pub fn init_recorder<R>(slot: &mut RecorderSlot<R>, recorder: R) -> (r: Result<
    (),
    SetEventRecorderError,
>)
    ensures
        chosen(*old(slot), recorder, *final(slot), r),
{
    if slot.recorder.is_some() {
        return Err(SetEventRecorderError {  });
    }
    slot.recorder = Some(recorder);
    Ok(())
}

/// Chooses the terminal as the recorder. None may have been chosen before.
pub fn init_stdout_event_recorder(slot: &mut RecorderSlot<StdoutRecorder>)
    requires
        old(slot).recorder is None,
    ensures
        final(slot).recorder == Some(StdoutRecorder {  }),
{
    slot.recorder = Some(StdoutRecorder {  });
}

/// What is shown when the server has received the client.
pub open spec fn recorded<R: EventRecorder>(
    slot: RecorderSlot<R>,
    info: ClientInfo,
    lines: Option<Vec<String>>,
) -> bool {
    match slot.recorder {
        Some(recorder) => lines matches Some(l) && recorder.report(
            Event::UpdateClientInfo(info),
            l@,
        ),
        None => lines is None,
    }
}

/// Has the recorder note that the server has received the client. Without a recorder there is
/// nothing to show.
pub fn record_client_info<R: EventRecorder>(slot: &RecorderSlot<R>, info: ClientInfo) -> (lines:
    Option<Vec<String>>)
    ensures
        recorded(*slot, info, lines),
{
    match &slot.recorder {
        Some(recorder) => Some(recorder.log(&Event::UpdateClientInfo(info))),
        None => None,
    }
}

/// The first recorder that is chosen stays: choosing another is an error and changes nothing.
pub proof fn law_recorder_is_chosen_once<R>(
    before: RecorderSlot<R>,
    first: R,
    between: RecorderSlot<R>,
    r: Result<(), SetEventRecorderError>,
    second: R,
    after: RecorderSlot<R>,
    again: Result<(), SetEventRecorderError>,
)
    requires
        before.recorder is None,
        chosen(before, first, between, r),
        chosen(between, second, after, again),
    ensures
        r is Ok,
        again is Err,
        between.recorder == Some(first),
        after.recorder == Some(first),
{
}

} // verus!
