//! The exchange with an instance's command socket: connect, write the
//! command, read until the peer closes, decode. The exchange is a value that
//! the caller carries from step to step; after each step of I/O the caller
//! reports how it ended and learns what comes next.

use crate::ctl::instance::{Instance, InstanceView};
use crate::error::{HyprError, HyprErrorView};
use crate::shared::{wire_bytes, CommandContent, CommandContentView};
use vstd::prelude::*;
use vstd::utf8::{decode_utf8, encode_utf8, valid_utf8};

verus! {

/// An exchange that has yet to connect: the name of the instance to connect
/// to and the bytes to send.
#[derive(Debug, PartialEq, Eq)]
pub struct Connecting {
    pub instance: String,
    pub payload: Vec<u8>,
}

/// The mathematical value of a [`Connecting`].
pub struct ConnectingView {
    pub instance: Seq<char>,
    pub payload: Seq<u8>,
}

impl View for Connecting {
    type V = ConnectingView;

    open spec fn view(&self) -> ConnectingView {
        ConnectingView { instance: self.instance@, payload: self.payload@ }
    }
}

/// The exchange that sends `content` to `instance`: it connects to the
/// socket that goes by the instance's name and sends the command's bytes. No
/// other field of the instance takes part.
pub open spec fn exchange_with(instance: InstanceView, content: CommandContentView) -> ConnectingView {
    ConnectingView { instance: instance.instance, payload: wire_bytes(content) }
}

/// What a command for the default instance gives: the exchange with that
/// instance, or the error for which there is no default instance.
pub open spec fn exchange_with_default(
    default: Result<&Instance, HyprError>,
    content: CommandContentView,
) -> Result<ConnectingView, HyprErrorView> {
    match default {
        Ok(instance) => Ok(exchange_with(instance@, content)),
        Err(error) => Err(error@),
    }
}

/// The mathematical value of an exchange that may have failed to open.
pub open spec fn opened_view(opened: Result<Connecting, HyprError>) -> Result<
    ConnectingView,
    HyprErrorView,
> {
    match opened {
        Ok(exchange) => Ok(exchange@),
        Err(error) => Err(error@),
    }
}

/// An exchange that is connected and has yet to write its command.
#[derive(Debug, PartialEq, Eq)]
pub struct Writing {
    pub payload: Vec<u8>,
}

/// An exchange that has written its command and reads the response.
#[derive(Debug, PartialEq, Eq)]
pub struct Reading {
    pub response: Vec<u8>,
}

/// Where an exchange stands after a read.
#[derive(Debug, PartialEq, Eq)]
pub enum Progress {
    /// The peer has not closed yet: read again.
    More(Reading),
    /// The exchange is over, with the response or with an error. The
    /// connection is to be closed.
    Done(Result<String, HyprError>),
}

/// The mathematical value of a [`Progress`].
pub enum ProgressView {
    More(Seq<u8>),
    Done(Result<Seq<char>, HyprErrorView>),
}

impl View for Progress {
    type V = ProgressView;

    open spec fn view(&self) -> ProgressView {
        match self {
            Progress::More(reading) => ProgressView::More(reading.response@),
            Progress::Done(Ok(text)) => ProgressView::Done(Ok(text@)),
            Progress::Done(Err(error)) => ProgressView::Done(Err(error@)),
        }
    }
}

/// The path of the command socket of the instance named `instance`, under the
/// runtime directory `runtime_dir`.
pub open spec fn socket_path_of(runtime_dir: Seq<char>, instance: Seq<char>) -> Seq<char> {
    runtime_dir + "/"@ + instance + "/.socket.sock"@
}

/// The text that a complete response stands for, or the error where it is
/// not UTF-8.
pub open spec fn decoded(response: Seq<u8>) -> Result<Seq<char>, HyprErrorView> {
    if valid_utf8(response) {
        Ok(decode_utf8(response))
    } else {
        Err(HyprErrorView::Decode("response is not valid UTF-8"@))
    }
}

/// Where an exchange that has read `response` so far stands after one more
/// read: a failed read ends it with an error, a read of no bytes shows that
/// the peer has closed and ends it with the decoded response, and any other
/// read adds its bytes to the response.
pub open spec fn read_step(response: Seq<u8>, outcome: Result<Seq<u8>, Seq<char>>) -> ProgressView {
    match outcome {
        Ok(chunk) => if chunk.len() == 0 {
            ProgressView::Done(decoded(response))
        } else {
            ProgressView::More(response + chunk)
        },
        Err(message) => ProgressView::Done(Err(HyprErrorView::Transport(message))),
    }
}

/// Where an exchange that has read `response` so far stands after the reads
/// `outcomes`, in order. Reads after the exchange is over do not count.
pub open spec fn read_run(
    response: Seq<u8>,
    outcomes: Seq<Result<Seq<u8>, Seq<char>>>,
) -> ProgressView
    decreases outcomes.len(),
{
    if outcomes.len() == 0 {
        ProgressView::More(response)
    } else {
        match read_step(response, outcomes.first()) {
            ProgressView::More(next) => read_run(next, outcomes.drop_first()),
            ProgressView::Done(result) => ProgressView::Done(result),
        }
    }
}

/// The reads in which `chunks` arrive one by one.
pub open spec fn arrivals(chunks: Seq<Seq<u8>>) -> Seq<Result<Seq<u8>, Seq<char>>> {
    chunks.map_values(|chunk: Seq<u8>| Ok::<Seq<u8>, Seq<char>>(chunk))
}

/// `String::from_utf8` of std: the bytes as a text, where they are UTF-8.
/// The contract claims what std documents: the call succeeds exactly on valid
/// UTF-8, and the text it gives has the given bytes as its encoding.
#[verifier::external_body]
fn text_of(bytes: Vec<u8>) -> (r: Option<String>)
    ensures
        r is Some <==> valid_utf8(bytes@),
        r is Some ==> encode_utf8(r.unwrap()@) == bytes@,
{
    match String::from_utf8(bytes) {
        Ok(text) => Some(text),
        Err(_) => None,
    }
}

/// Decodes a complete response.
pub fn decode(response: Vec<u8>) -> (r: Result<String, HyprError>)
    ensures
        match decoded(response@) {
            Ok(text) => r is Ok && r.unwrap()@ == text,
            Err(error) => r is Err && r.unwrap_err()@ == error,
        },
{
    match text_of(response) {
        Some(text) => {
            proof {
                vstd::utf8::encode_utf8_decode_utf8(text@);
            }
            Ok(text)
        },
        None => Err(HyprError::Decode(String::from_str("response is not valid UTF-8"))),
    }
}

impl Instance {
    /// Opens the exchange that sends `content` to this instance. Of the
    /// instance only its name is used.
    pub fn write_to_socket(&self, content: &CommandContent) -> (r: Connecting)
        ensures
            r@ == exchange_with(self@, content@),
    {
        Connecting { instance: self.instance.clone(), payload: content.as_bytes() }
    }
}

impl Connecting {
    /// The path of the socket to connect to, under the runtime directory
    /// `runtime_dir`.
    pub fn socket_path(&self, runtime_dir: &str) -> (r: String)
        ensures
            r@ == socket_path_of(runtime_dir@, self.instance@),
    {
        let mut path = String::from_str(runtime_dir);
        path.append("/");
        path.append(self.instance.as_str());
        path.append("/.socket.sock");
        path
    }

    /// Takes the outcome of connecting. A failure ends the exchange with a
    /// connectivity error; nothing was sent and there is no response.
    pub fn connected(self, outcome: Result<(), String>) -> (r: Result<Writing, HyprError>)
        ensures
            match outcome {
                Ok(_) => r is Ok && r.unwrap().payload@ == self.payload@,
                Err(message) => r is Err && r.unwrap_err()@ == HyprErrorView::Connectivity(
                    message@,
                ),
            },
    {
        match outcome {
            Ok(_) => Ok(Writing { payload: self.payload }),
            Err(message) => Err(HyprError::Connectivity(message)),
        }
    }
}

impl Writing {
    /// Takes the outcome of writing the whole payload. A failure ends the
    /// exchange with a transport error; the command is not sent again.
    pub fn written(self, outcome: Result<(), String>) -> (r: Result<Reading, HyprError>)
        ensures
            match outcome {
                Ok(_) => r is Ok && r.unwrap().response@ == Seq::<u8>::empty(),
                Err(message) => r is Err && r.unwrap_err()@ == HyprErrorView::Transport(message@),
            },
    {
        match outcome {
            Ok(_) => Ok(Reading { response: Vec::new() }),
            Err(message) => Err(HyprError::Transport(message)),
        }
    }
}

impl Reading {
    /// Takes the outcome of one read: the bytes that arrived, none where the
    /// peer has closed, or the failure.
    pub fn received(self, outcome: Result<Vec<u8>, String>) -> (r: Progress)
        ensures
            r@ == read_step(
                self.response@,
                match outcome {
                    Ok(chunk) => Ok(chunk@),
                    Err(message) => Err(message@),
                },
            ),
    {
        match outcome {
            Ok(chunk) => {
                if chunk.len() == 0 {
                    Progress::Done(decode(self.response))
                } else {
                    let mut response = self.response;
                    let mut chunk = chunk;
                    response.append(&mut chunk);
                    Progress::More(Reading { response })
                }
            },
            Err(message) => Progress::Done(Err(HyprError::Transport(message))),
        }
    }
}

/// While chunks that are not empty arrive, the exchange goes on and its
/// response is what it had followed by the chunks in their order.
pub proof fn chunks_accumulate(response: Seq<u8>, chunks: Seq<Seq<u8>>)
    requires
        forall|i: int| 0 <= i < chunks.len() ==> (#[trigger] chunks[i]).len() > 0,
    ensures
        read_run(response, arrivals(chunks)) == ProgressView::More(response + chunks.flatten()),
    decreases chunks.len(),
{
    if chunks.len() > 0 {
        assert(arrivals(chunks).drop_first() =~= arrivals(chunks.drop_first()));
        chunks_accumulate(response + chunks.first(), chunks.drop_first());
        assert(response + chunks.first() + chunks.drop_first().flatten() =~= response
            + chunks.flatten());
    }
}

/// Reads that follow one another continue where the earlier ones stopped.
pub proof fn read_run_continues(
    response: Seq<u8>,
    first: Seq<Result<Seq<u8>, Seq<char>>>,
    second: Seq<Result<Seq<u8>, Seq<char>>>,
)
    ensures
        read_run(response, first + second) == match read_run(response, first) {
            ProgressView::More(next) => read_run(next, second),
            ProgressView::Done(result) => ProgressView::Done(result),
        },
    decreases first.len(),
{
    if first.len() > 0 {
        assert((first + second).drop_first() =~= first.drop_first() + second);
        if let ProgressView::More(next) = read_step(response, first.first()) {
            read_run_continues(next, first.drop_first(), second);
        }
    }
}

/// A peer that sends chunks and then closes: the exchange ends with what
/// the chunks, put together in their order, decode to.
pub proof fn closed_response_is_decoded(chunks: Seq<Seq<u8>>)
    requires
        forall|i: int| 0 <= i < chunks.len() ==> (#[trigger] chunks[i]).len() > 0,
    ensures
        read_run(Seq::empty(), arrivals(chunks).push(Ok(Seq::empty()))) == ProgressView::Done(
            decoded(chunks.flatten()),
        ),
{
    let closing = seq![Ok::<Seq<u8>, Seq<char>>(Seq::empty())];
    assert(arrivals(chunks).push(Ok(Seq::empty())) =~= arrivals(chunks) + closing);
    chunks_accumulate(Seq::empty(), chunks);
    read_run_continues(Seq::empty(), arrivals(chunks), closing);
    assert(Seq::<u8>::empty() + chunks.flatten() =~= chunks.flatten());
}

/// A peer that sends the UTF-8 encoding of `text`, in chunks cut anywhere,
/// and then closes: the exchange ends with exactly `text`.
pub proof fn response_round_trip(text: Seq<char>, chunks: Seq<Seq<u8>>)
    requires
        forall|i: int| 0 <= i < chunks.len() ==> (#[trigger] chunks[i]).len() > 0,
        chunks.flatten() == encode_utf8(text),
    ensures
        read_run(Seq::empty(), arrivals(chunks).push(Ok(Seq::empty()))) == ProgressView::Done(
            Ok(text),
        ),
{
    closed_response_is_decoded(chunks);
    vstd::utf8::encode_utf8_valid_utf8(text);
    vstd::utf8::encode_utf8_decode_utf8(text);
}

/// A read that fails ends the exchange with a transport error, whatever had
/// arrived before: no part of a response is returned.
pub proof fn failed_read_returns_no_response(chunks: Seq<Seq<u8>>, message: Seq<char>)
    requires
        forall|i: int| 0 <= i < chunks.len() ==> (#[trigger] chunks[i]).len() > 0,
    ensures
        read_run(Seq::empty(), arrivals(chunks).push(Err(message))) == ProgressView::Done(
            Err(HyprErrorView::Transport(message)),
        ),
{
    let failing = seq![Err::<Seq<u8>, Seq<char>>(message)];
    assert(arrivals(chunks).push(Err(message)) =~= arrivals(chunks) + failing);
    chunks_accumulate(Seq::empty(), chunks);
    read_run_continues(Seq::empty(), arrivals(chunks), failing);
}

} // verus!
