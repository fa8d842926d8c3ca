use kindlebridge::link::{Command, Header, LinkError};
use kindlebridge::model::{
    SyncProgressPhase, SyncPullParams, SyncPullResult, SyncPushParams, SyncPushResult,
    TransferDirection, TransferState,
};
use kindlebridge::pull_stream::{PullAction, PullEvent, PullStream};
use kindlebridge::push_stream::{PushAction, PushEvent, PushSource};
use kindlebridge::rpc_error::{ErrorCode, RpcError};
use kindlebridge::sync_client::{SyncReply, SyncRequest, DEFAULT_SYNC_BLOCK_SIZE};
use kindlebridge::sync_operation::HostSyncOperation;
use std::collections::BTreeMap;

type Operation = HostSyncOperation<()>;

const STREAM: u32 = 5;

fn frame(command: Command, end_stream: bool) -> Header {
    Header {
        command,
        stream_id: STREAM,
        sequence: 1,
        end_stream,
    }
}

fn digest(bytes: &[u8]) -> String {
    blake3::hash(bytes).to_hex().to_string()
}

/// A push as the device sees it.
struct Upload {
    remote_path: String,
    total_size: u64,
    file_hash: String,
    bytes: Vec<u8>,
}

/// A device that keeps what is pushed, complete or not.
#[derive(Default)]
struct Device {
    files: BTreeMap<String, Vec<u8>>,
    uploads: BTreeMap<String, Upload>,
    frames: usize,
}

impl Device {
    fn ready(&mut self, request: SyncRequest) -> SyncReply {
        match request {
            SyncRequest::Push {
                transfer_id,
                remote_path,
                total_size,
                file_hash,
                ..
            } => {
                let id = match transfer_id {
                    Some(id) => id,
                    None => format!("push-{}", self.uploads.len()),
                };
                let upload = self.uploads.entry(id.clone()).or_insert(Upload {
                    remote_path,
                    total_size,
                    file_hash,
                    bytes: Vec::new(),
                });
                SyncReply::Ready {
                    transfer_id: id,
                    offset: upload.bytes.len() as u64,
                    total_size: upload.total_size,
                    file_hash: upload.file_hash.clone(),
                }
            }
            SyncRequest::Pull {
                transfer_id,
                remote_path,
                offset,
                ..
            } => match self.files.get(&remote_path) {
                Some(bytes) => SyncReply::Ready {
                    transfer_id: transfer_id.unwrap_or("pull-0".to_owned()),
                    offset,
                    total_size: bytes.len() as u64,
                    file_hash: digest(bytes),
                },
                None => SyncReply::Failure(RpcError::new(ErrorCode::InvalidParams, "no file")),
            },
        }
    }

    fn complete(&mut self, id: &str) -> SyncReply {
        let upload = &self.uploads[id];
        assert_eq!(digest(&upload.bytes), upload.file_hash);
        self.files
            .insert(upload.remote_path.clone(), upload.bytes.clone());
        SyncReply::Complete {
            transfer_id: id.to_owned(),
            next_offset: upload.bytes.len() as u64,
            total_size: upload.total_size,
        }
    }
}

fn push_params(remote_path: &str, transfer_id: Option<String>, block_size: u32) -> SyncPushParams {
    SyncPushParams {
        serial: "KT6-SYNC".to_owned(),
        local_path: "/tmp/source".to_owned(),
        remote_path: remote_path.to_owned(),
        transfer_id,
        block_size,
    }
}

fn pull_params(transfer_id: Option<String>) -> SyncPullParams {
    SyncPullParams {
        serial: "KT6-SYNC".to_owned(),
        remote_path: "apps/demo/payload.bin".to_owned(),
        local_path: "/tmp/destination".to_owned(),
        transfer_id,
        block_size: DEFAULT_SYNC_BLOCK_SIZE,
    }
}

/// Pushes a source; the link breaks after this many data frames.
fn push(
    device: &mut Device,
    source: &[u8],
    params: SyncPushParams,
    frames_left: usize,
    operation: &mut Operation,
) -> Result<SyncPushResult, LinkError> {
    let mut hashing = match PushSource::begin(params, true, source.len() as u64, operation) {
        Ok(hashing) => hashing,
        Err(_) => panic!("a file is refused"),
    };
    let mut read = 0;
    loop {
        let wanted = hashing.wanted(operation).unwrap();
        if wanted == 0 {
            break;
        }
        hashing.read(&source[read..read + wanted], operation).unwrap();
        read += wanted;
    }
    let (mut stream, mut action) = hashing.finish(operation);
    let mut position = 0;
    let mut id = String::new();
    let mut left = frames_left;
    loop {
        let event = match action {
            PushAction::Open => PushEvent::Opened(STREAM),
            PushAction::Ask(request) => {
                let reply = device.ready(request);
                if let SyncReply::Ready { transfer_id, .. } = &reply {
                    id = transfer_id.clone();
                }
                PushEvent::Replied(frame(Command::Data, false), Ok(reply))
            }
            PushAction::Seek(offset) => {
                position = offset as usize;
                PushEvent::Sought
            }
            PushAction::Read(wanted) => {
                let end = source.len().min(position + wanted as usize);
                let bytes = source[position..end].to_vec();
                position = end;
                PushEvent::Read(bytes)
            }
            PushAction::Send { data, last } => {
                if left == 0 {
                    PushEvent::Failed(LinkError::Connection("cable pulled".to_owned()))
                } else {
                    left -= 1;
                    let upload = device.uploads.get_mut(&id).unwrap();
                    upload.bytes.extend_from_slice(&data);
                    device.frames += 1;
                    assert_eq!(last, upload.bytes.len() as u64 == upload.total_size);
                    PushEvent::Sent
                }
            }
            PushAction::AwaitCompletion => {
                let reply = device.complete(&id);
                PushEvent::Replied(frame(Command::Data, true), Ok(reply))
            }
            PushAction::AwaitClose => PushEvent::Closed(frame(Command::Close, false)),
            PushAction::Reset(error) => return Err(error),
            PushAction::Fail(error) => return Err(error),
            PushAction::Done(result) => return Ok(result),
        };
        let next = stream.advance(event, operation);
        stream = next.0;
        action = next.1;
    }
}

/// The files of a host.
type Files = BTreeMap<String, Vec<u8>>;

/// Pulls a file in frames of a size; the link breaks after this many of them.
fn pull(
    sent: &[u8],
    announced: SyncReply,
    params: SyncPullParams,
    files: &mut Files,
    frames_left: usize,
    operation: &mut Operation,
) -> Result<SyncPullResult, LinkError> {
    let (mut stream, mut action) = PullStream::begin(params);
    let mut announced = Some(announced);
    let mut staging = String::new();
    let mut position = 0;
    let mut read = 0;
    let mut left = frames_left;
    loop {
        let event = match action {
            PullAction::Open => PullEvent::Opened(STREAM),
            PullAction::Measure(path) => {
                PullEvent::Measured(files.get(&path).map(|bytes| bytes.len() as u64))
            }
            PullAction::Ask(SyncRequest::Pull { offset, .. }) => {
                position = offset as usize;
                let reply = announced.take().unwrap();
                let reply = match reply {
                    SyncReply::Ready {
                        transfer_id,
                        total_size,
                        file_hash,
                        ..
                    } => SyncReply::Ready {
                        transfer_id,
                        offset,
                        total_size,
                        file_hash,
                    },
                    other => other,
                };
                PullEvent::Replied(frame(Command::Data, false), Ok(reply))
            }
            PullAction::Ask(other) => panic!("unexpected request {other:?}"),
            PullAction::OpenStaging { path, empty } => {
                let bytes = files.entry(path.clone()).or_default();
                if empty {
                    bytes.clear();
                }
                staging = path;
                PullEvent::StagingOpened(bytes.len() as u64)
            }
            PullAction::ReadStaging(wanted) => {
                let bytes = files[&staging][read..read + wanted].to_vec();
                read += wanted;
                PullEvent::StagingRead(bytes)
            }
            PullAction::Receive => {
                if left == 0 {
                    PullEvent::Failed(LinkError::Connection("cable pulled".to_owned()))
                } else {
                    left -= 1;
                    let end = sent.len().min(position + 65_536);
                    let payload = sent[position..end].to_vec();
                    position = end;
                    PullEvent::Received(frame(Command::Data, end == sent.len()), payload)
                }
            }
            PullAction::Write => {
                files
                    .get_mut(&staging)
                    .unwrap()
                    .extend_from_slice(stream.payload());
                PullEvent::Written
            }
            PullAction::Empty => {
                files.get_mut(&staging).unwrap().clear();
                PullEvent::Emptied
            }
            PullAction::Save => PullEvent::Saved {
                exists: files.contains_key("/tmp/destination"),
                is_regular_file: true,
            },
            PullAction::Replace {
                staging,
                destination,
                remove,
            } => {
                assert_eq!(remove, files.remove(&destination).is_some());
                let bytes = files.remove(&staging).unwrap();
                files.insert(destination, bytes);
                PullEvent::Replaced
            }
            PullAction::AwaitClose => PullEvent::Closed(frame(Command::Close, false)),
            PullAction::Reset(error) => return Err(error),
            PullAction::Fail(error) => return Err(error),
            PullAction::Done(result) => return Ok(result),
        };
        let next = stream.advance(event, operation);
        stream = next.0;
        action = next.1;
    }
}

fn announce(bytes: &[u8]) -> SyncReply {
    SyncReply::Ready {
        transfer_id: "pull-7".to_owned(),
        offset: 0,
        total_size: bytes.len() as u64,
        file_hash: digest(bytes),
    }
}

#[test]
fn raw_sync_stream_round_trips_beyond_the_flow_control_window() {
    let payload: Vec<u8> = (0..(9 * 1024 * 1024 + 123))
        .map(|index| ((index as u64).wrapping_mul(17) & 0xff) as u8)
        .collect();
    let mut device = Device::default();
    let mut operation: Operation = HostSyncOperation::new();
    let pushed = push(
        &mut device,
        &payload,
        push_params("apps/demo/payload.bin", None, DEFAULT_SYNC_BLOCK_SIZE),
        usize::MAX,
        &mut operation,
    )
    .unwrap();
    assert_eq!(pushed.accepted_offset, payload.len() as u64);
    assert_eq!(pushed.state, TransferState::Complete);
    assert_eq!(device.files["apps/demo/payload.bin"], payload);
    assert_eq!(device.frames, 37);

    // The last answer was lost: a retry sends one empty frame and no byte again.
    let replayed = push(
        &mut device,
        &payload,
        push_params(
            "apps/demo/payload.bin",
            Some(pushed.transfer_id.clone()),
            DEFAULT_SYNC_BLOCK_SIZE,
        ),
        usize::MAX,
        &mut operation,
    )
    .unwrap();
    assert_eq!(replayed.transfer_id, pushed.transfer_id);
    assert_eq!(replayed.accepted_offset, payload.len() as u64);
    assert_eq!(device.files["apps/demo/payload.bin"], payload);
    assert_eq!(device.frames, 38);

    let mut files = Files::new();
    let stored = device.files["apps/demo/payload.bin"].clone();
    let pulled = pull(
        &stored,
        announce(&stored),
        pull_params(None),
        &mut files,
        usize::MAX,
        &mut operation,
    )
    .unwrap();
    assert_eq!(pulled.received_size, payload.len() as u64);
    assert_eq!(files["/tmp/destination"], payload);
    assert_eq!(files.len(), 1);
}

#[test]
fn interrupted_push_resumes_after_a_new_device_session() {
    let payload: Vec<u8> = (0..2_500_321_u64)
        .map(|index| (index.wrapping_mul(29) & 0xff) as u8)
        .collect();
    let mut device = Device::default();
    let mut operation: Operation = HostSyncOperation::new();
    let broken = push(
        &mut device,
        &payload,
        push_params("resume/payload.bin", None, 256 * 1024),
        4,
        &mut operation,
    );
    assert!(matches!(broken, Err(LinkError::Connection(_))));
    let transfer_id = "push-0".to_owned();
    assert_eq!(device.uploads[&transfer_id].bytes.len(), 1024 * 1024);
    assert!(device.files.is_empty());

    let resumed = push(
        &mut device,
        &payload,
        push_params("resume/payload.bin", Some(transfer_id.clone()), 256 * 1024),
        usize::MAX,
        &mut operation,
    )
    .unwrap();
    assert_eq!(resumed.transfer_id, transfer_id);
    assert_eq!(resumed.accepted_offset, payload.len() as u64);
    assert_eq!(device.files["resume/payload.bin"], payload);
    assert_eq!(device.frames, 10);
}

#[test]
fn an_interrupted_pull_goes_on_with_its_partial_file() {
    let payload: Vec<u8> = (0..700_000_u64).map(|index| (index % 251) as u8).collect();
    let mut files = Files::new();
    let mut operation: Operation = HostSyncOperation::new();
    files.insert("/tmp/destination".to_owned(), b"old".to_vec());
    let broken = pull(
        &payload,
        announce(&payload),
        pull_params(None),
        &mut files,
        5,
        &mut operation,
    );
    assert!(matches!(broken, Err(LinkError::Connection(_))));
    let staging = "/tmp/destination.kindlebridge.pull-7.part";
    assert_eq!(files[staging].len(), 5 * 65_536);
    assert_eq!(files["/tmp/destination"], b"old");

    let resumed = pull(
        &payload,
        announce(&payload),
        pull_params(Some("pull-7".to_owned())),
        &mut files,
        usize::MAX,
        &mut operation,
    )
    .unwrap();
    assert_eq!(resumed.received_size, 700_000);
    assert_eq!(files["/tmp/destination"], payload);
    assert!(!files.contains_key(staging));
    let progress = operation.snapshot(
        "op".to_owned(),
        TransferDirection::Pull,
        "apps/demo/payload.bin".to_owned(),
    );
    assert_eq!(progress.transferred, 700_000);
    assert_eq!(progress.phase, SyncProgressPhase::Transferring);
}

#[test]
fn a_pull_that_is_not_the_announced_file_is_emptied() {
    let payload = vec![7_u8; 100_000];
    let mut other = payload.clone();
    other[99_999] = 8;
    let mut files = Files::new();
    let mut operation: Operation = HostSyncOperation::new();
    let result = pull(
        &other,
        announce(&payload),
        pull_params(None),
        &mut files,
        usize::MAX,
        &mut operation,
    );
    match result {
        Err(LinkError::Remote(error)) => assert_eq!(error.code, ErrorCode::ChecksumMismatch),
        _ => panic!("a wrong file is accepted"),
    }
    assert_eq!(files["/tmp/destination.kindlebridge.pull-7.part"], b"");
    assert!(!files.contains_key("/tmp/destination"));
}

#[test]
fn a_pull_takes_no_more_than_was_announced() {
    let mut files = Files::new();
    let mut operation: Operation = HostSyncOperation::new();
    let result = pull(
        &[1_u8; 70_000],
        announce(&[1_u8; 60_000]),
        pull_params(None),
        &mut files,
        usize::MAX,
        &mut operation,
    );
    match result {
        Err(LinkError::UnexpectedFrame(message)) => {
            assert_eq!(message, "sync pull exceeded declared size")
        }
        _ => panic!("too many bytes are accepted"),
    }
}

#[test]
fn cancelled_transfers_end_at_the_next_step() {
    let mut operation: Operation = HostSyncOperation::new();
    let (stream, _) = PullStream::begin(pull_params(None));
    let (stream, _) = stream.advance(PullEvent::Opened(STREAM), &mut operation);
    let ready = PullEvent::Replied(frame(Command::Data, false), Ok(announce(b"abcdef")));
    let (stream, _) = stream.advance(ready, &mut operation);
    let (stream, action) = stream.advance(PullEvent::StagingOpened(0), &mut operation);
    assert!(matches!(action, PullAction::Receive));
    let received = PullEvent::Received(frame(Command::Data, false), b"abc".to_vec());
    let (stream, action) = stream.advance(received, &mut operation);
    assert!(matches!(action, PullAction::Write));
    assert_eq!(stream.payload(), b"abc");
    operation.cancel();
    let (_, action) = stream.advance(PullEvent::Written, &mut operation);
    match action {
        PullAction::Reset(LinkError::Remote(error)) => {
            assert_eq!(error.code, ErrorCode::TransferCancelled)
        }
        other => panic!("a cancelled pull goes on with {other:?}"),
    }

    let (stream, _) = PullStream::begin(pull_params(None));
    let (_, action) = stream.advance(PullEvent::Opened(STREAM), &mut operation);
    assert!(matches!(action, PullAction::Fail(LinkError::Remote(_))));
}

#[test]
fn frames_that_do_not_fit_end_a_transfer() {
    let mut operation: Operation = HostSyncOperation::new();
    let (stream, _) = PullStream::begin(pull_params(None));
    let (stream, _) = stream.advance(PullEvent::Opened(STREAM), &mut operation);
    let reply = PullEvent::Replied(
        frame(Command::Data, false),
        Err("expected value at line 1".to_owned()),
    );
    let (_, action) = stream.advance(reply, &mut operation);
    match action {
        PullAction::Fail(LinkError::InvalidPayload { label, .. }) => {
            assert_eq!(label, "sync reply")
        }
        other => panic!("an unreadable reply leads to {other:?}"),
    }

    let mut device = Device::default();
    let params = push_params("a/b", None, 4);
    let source = match PushSource::begin(params, true, 0, &mut operation) {
        Ok(source) => source,
        Err(_) => panic!("a file is refused"),
    };
    let (stream, _) = source.finish(&mut operation);
    let (stream, action) = stream.advance(PushEvent::Opened(STREAM), &mut operation);
    let reply = match action {
        PushAction::Ask(request) => device.ready(request),
        other => panic!("unexpected {other:?}"),
    };
    let replied = PushEvent::Replied(frame(Command::Close, false), Ok(reply));
    let (_, action) = stream.advance(replied, &mut operation);
    match action {
        PushAction::Fail(LinkError::UnexpectedFrame(message)) => {
            assert_eq!(message, "unexpected command or stream identifier")
        }
        other => panic!("a closing frame leads to {other:?}"),
    }
}
