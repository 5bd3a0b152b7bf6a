//! The protocol between the launcher and the patch worker: messages,
//! framing, and what the launcher makes of the worker's messages.
//!
//! A frame is the length of the payload in four bytes, most significant
//! first, and the payload.

use vstd::prelude::*;
use crate::bytes::{be_at, fits, has_bytes, u32_at};
use crate::entities::{PatchEntry, PatchProgress, PatchState, Repository};
use crate::error::Error;
use crate::numbers::{decimal, decimal_chars};
use crate::text::{append_chars, append_str, chars_of, string_of};
use crate::zipatch_parser::be_bytes;

verus! {

/// What the launcher sends to the worker.
#[derive(Debug, Clone)]
pub enum PatcherRequest {
    /// The greeting, with the process id of the launcher.
    Hello { parent_pid: u32 },
    /// The batch to apply, in order. The game path is kept as text.
    StartPatch { patches: Vec<PatchEntry>, game_path: String, keep_patches: bool },
    Cancel,
    Shutdown,
}

/// What the worker sends to the launcher.
#[derive(Debug, Clone)]
pub enum PatcherResponse {
    Ready,
    Progress {
        patch_index: usize,
        total_patches: usize,
        version_id: String,
        repository: Repository,
        state: PatchState,
        bytes_processed: u64,
        bytes_total: u64,
    },
    PatchCompleted { patch_index: usize, version_id: String },
    AllCompleted,
    Error { message: String },
    Cancelled,
}

/// Number of bytes of the length before a payload.
pub const MESSAGE_HEADER_SIZE: usize = 4;

/// The largest payload: 16 MiB.
pub const MAX_MESSAGE_SIZE: u32 = 16777216;

/// Seconds the launcher waits for the worker to connect.
pub const CONNECTION_TIMEOUT_SECS: u64 = 10;

/// Seconds the launcher waits for a message during a long operation.
pub const RECV_TIMEOUT_SECS: u64 = 300;

/// Milliseconds the launcher waits for progress before it asks again.
pub const PROGRESS_POLL_MILLIS: u64 = 100;

/// The text of the failure for a payload of `len` bytes that is too large.
pub open spec fn too_large_text(len: nat) -> Seq<char> {
    "message too large: "@ + decimal(len) + " bytes (max "@ + decimal(MAX_MESSAGE_SIZE as nat)
        + ")"@
}

fn too_large(len: u64) -> (e: Error)
    ensures
        e matches Error::Ipc(m) && m@ == too_large_text(len as nat),
{
    let mut msg = chars_of("message too large: ");
    let n = decimal_chars(len);
    append_chars(&mut msg, n.as_slice());
    append_str(&mut msg, " bytes (max ");
    let m = decimal_chars(MAX_MESSAGE_SIZE as u64);
    append_chars(&mut msg, m.as_slice());
    append_str(&mut msg, ")");
    assert(msg@ =~= too_large_text(len as nat));
    Error::Ipc(string_of(msg.as_slice()))
}

/// The frame of a payload. A payload of more than 16 MiB is refused.
pub fn frame_message(payload: &[u8]) -> (r: Result<Vec<u8>, Error>)
    ensures
        payload@.len() <= MAX_MESSAGE_SIZE ==> (r matches Ok(frame) && frame@ == be_bytes(
            payload@.len() as u32,
        ) + payload@),
        payload@.len() > MAX_MESSAGE_SIZE ==> (r matches Err(Error::Ipc(m)) && m@
            == too_large_text(payload@.len())),
{
    if payload.len() > MAX_MESSAGE_SIZE as usize {
        return Err(too_large(payload.len() as u64));
    }
    let v: u32 = payload.len() as u32;
    let mut frame: Vec<u8> = Vec::new();
    frame.push((v / 0x100_0000) as u8);
    frame.push((v / 0x1_0000 % 256) as u8);
    frame.push((v / 0x100 % 256) as u8);
    frame.push((v % 256) as u8);
    assert(frame@ =~= be_bytes(v));
    frame.extend_from_slice(payload);
    Ok(frame)
}

/// The length of the payload that a frame header announces. A length of
/// more than 16 MiB is refused.
pub fn payload_length(header: &[u8; 4]) -> (r: Result<usize, Error>)
    ensures
        be_at(header@, 0, 4) <= MAX_MESSAGE_SIZE ==> (r matches Ok(n) && n == be_at(
            header@,
            0,
            4,
        )),
        be_at(header@, 0, 4) > MAX_MESSAGE_SIZE ==> (r matches Err(Error::Ipc(m)) && m@
            == too_large_text(be_at(header@, 0, 4))),
{
    let len = u32_at(header.as_slice(), 0);
    if len > MAX_MESSAGE_SIZE {
        return Err(too_large(len as u64));
    }
    Ok(len as usize)
}

/// What the start of a stream of bytes holds.
pub enum FrameStatus {
    /// No whole frame yet.
    Incomplete,
    /// The announced payload is too large; the stream cannot be followed.
    TooLarge,
    /// A whole frame: its payload is `buffer[4..end]`, the next frame
    /// begins at `end`.
    Complete { end: usize },
}

/// What the start of `buffer` holds.
pub fn next_frame(buffer: &[u8]) -> (s: FrameStatus)
    ensures
        !fits(buffer@, 0, 4) ==> s is Incomplete,
        fits(buffer@, 0, 4) && be_at(buffer@, 0, 4) > MAX_MESSAGE_SIZE ==> s is TooLarge,
        fits(buffer@, 0, 4) && be_at(buffer@, 0, 4) <= MAX_MESSAGE_SIZE && !fits(
            buffer@,
            4,
            be_at(buffer@, 0, 4) as int,
        ) ==> s is Incomplete,
        fits(buffer@, 0, 4) && be_at(buffer@, 0, 4) <= MAX_MESSAGE_SIZE && fits(
            buffer@,
            4,
            be_at(buffer@, 0, 4) as int,
        ) ==> (s matches FrameStatus::Complete { end } && end == 4 + be_at(buffer@, 0, 4)),
{
    if !has_bytes(buffer, 0, 4) {
        return FrameStatus::Incomplete;
    }
    let len = u32_at(buffer, 0);
    if len > MAX_MESSAGE_SIZE {
        return FrameStatus::TooLarge;
    }
    if !has_bytes(buffer, 4, len as usize) {
        return FrameStatus::Incomplete;
    }
    FrameStatus::Complete { end: 4 + len as usize }
}

/// A frame that was written reads back whole, with the payload it was
/// written from.
pub proof fn lemma_frame_round_trip(payload: Seq<u8>)
    requires
        payload.len() <= MAX_MESSAGE_SIZE,
    ensures
        ({
            let frame = be_bytes(payload.len() as u32) + payload;
            &&& fits(frame, 0, 4)
            &&& be_at(frame, 0, 4) == payload.len()
            &&& frame.subrange(4, 4 + payload.len() as int) == payload
        }),
{
    let frame = be_bytes(payload.len() as u32) + payload;
    crate::zipatch_parser::lemma_be_bytes_value(payload.len() as u32);
    assert(frame.subrange(0, 4) =~= be_bytes(payload.len() as u32));
    assert(frame.subrange(4, 4 + payload.len() as int) =~= payload);
}

/// The place of the socket of the launcher with process id `pid`.
pub fn socket_path(pid: u32) -> (p: String)
    ensures
        p@ == "/tmp/gaveloc_patcher_"@ + decimal(pid as nat) + ".sock"@,
{
    let mut out = chars_of("/tmp/gaveloc_patcher_");
    let n = decimal_chars(pid as u64);
    append_chars(&mut out, n.as_slice());
    append_str(&mut out, ".sock");
    string_of(out.as_slice())
}

/// The first message of the worker must be Ready.
pub fn expect_ready(response: &PatcherResponse) -> (r: Result<(), Error>)
    ensures
        response is Ready ==> r is Ok,
        !(response is Ready) ==> (r matches Err(Error::Ipc(m)) && m@
            == "expected Ready message"@),
{
    match response {
        PatcherResponse::Ready => Ok(()),
        _ => Err(Error::Ipc(String::from_str("expected Ready message"))),
    }
}

/// Whether `r` is what the launcher makes of a message of the worker:
/// progress and the completion of a patch are progress; the completion of
/// all patches is the end, shown as nothing; an error, a cancellation and
/// an unexpected message are failures.
pub open spec fn is_progress_of(r: Result<Option<PatchProgress>, Error>, response: PatcherResponse) -> bool {
    match response {
        PatcherResponse::Progress {
            version_id,
            repository,
            state,
            bytes_processed,
            bytes_total,
            ..
        } => r matches Ok(Some(p)) && p.patch.version_id@ == version_id@ && p.patch.url@.len() == 0
            && p.patch.length == bytes_total && p.patch.hash_type is None
            && p.patch.hash_block_size is None && p.patch.hashes is None && p.patch.repository
            == repository && p.state == state && p.bytes_downloaded == bytes_processed
            && p.bytes_total == bytes_total,
        PatcherResponse::PatchCompleted { version_id, .. } => r matches Ok(Some(p))
            && p.patch.version_id@ == version_id@ && p.patch.url@.len() == 0 && p.patch.length == 0
            && p.patch.hash_type is None && p.patch.hash_block_size is None
            && p.patch.hashes is None && p.patch.repository == Repository::Ffxiv && p.state
            == PatchState::Completed && p.bytes_downloaded == 0 && p.bytes_total == 0,
        PatcherResponse::AllCompleted => r matches Ok(None),
        PatcherResponse::Error { message } => r matches Err(Error::ZiPatchApply(m)) && m@
            == message@,
        PatcherResponse::Cancelled => r matches Err(Error::Cancelled),
        PatcherResponse::Ready => r matches Err(Error::Ipc(m)) && m@ == "unexpected response"@,
    }
}

/// What the launcher makes of a message of the worker.
pub fn progress_from_response(response: PatcherResponse) -> (r: Result<
    Option<PatchProgress>,
    Error,
>)
    ensures
        is_progress_of(r, response),
{
    match response {
        PatcherResponse::Progress {
            version_id,
            repository,
            state,
            bytes_processed,
            bytes_total,
            patch_index,
            total_patches,
        } => Ok(
            Some(
                PatchProgress {
                    patch: PatchEntry {
                        version_id,
                        url: String::new(),
                        length: bytes_total,
                        hash_type: None,
                        hash_block_size: None,
                        hashes: None,
                        repository,
                    },
                    state,
                    bytes_downloaded: bytes_processed,
                    bytes_total,
                },
            ),
        ),
        PatcherResponse::PatchCompleted { version_id, patch_index } => Ok(
            Some(
                PatchProgress {
                    patch: PatchEntry {
                        version_id,
                        url: String::new(),
                        length: 0,
                        hash_type: None,
                        hash_block_size: None,
                        hashes: None,
                        repository: Repository::Ffxiv,
                    },
                    state: PatchState::Completed,
                    bytes_downloaded: 0,
                    bytes_total: 0,
                },
            ),
        ),
        PatcherResponse::AllCompleted => Ok(None),
        PatcherResponse::Error { message } => Err(Error::ZiPatchApply(message)),
        PatcherResponse::Cancelled => Err(Error::Cancelled),
        PatcherResponse::Ready => Err(Error::Ipc(String::from_str("unexpected response"))),
    }
}

/// What a receive gave.
#[derive(Debug, Clone)]
pub enum Received {
    Message(PatcherResponse),
    /// Nothing arrived in time.
    TimedOut,
    /// The connection failed; the reason.
    Failed(String),
}

/// What the launcher makes of a poll for progress: a worker that has died
/// fails the poll whatever arrived; nothing in time is no progress yet.
pub fn receive_progress(worker_alive: bool, received: Received) -> (r: Result<
    Option<PatchProgress>,
    Error,
>)
    ensures
        !worker_alive ==> (r matches Err(Error::Ipc(m)) && m@ == "patcher process died"@),
        worker_alive ==> match received {
            Received::Message(response) => is_progress_of(r, response),
            Received::TimedOut => r matches Ok(None),
            Received::Failed(reason) => r matches Err(Error::Ipc(m)) && m@ == reason@,
        },
{
    if !worker_alive {
        return Err(Error::Ipc(String::from_str("patcher process died")));
    }
    match received {
        Received::Message(response) => progress_from_response(response),
        Received::TimedOut => Ok(None),
        Received::Failed(reason) => Err(Error::Ipc(reason)),
    }
}

} // verus!
