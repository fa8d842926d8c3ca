use kindlebridge::codec::{is_valid_session_id, new_session_id, session_id_of, to_hex};
use kindlebridge::link::LinkError;
use kindlebridge::model::{SyncPullParams, SyncPushParams, TransferState};
use kindlebridge::push_stream::PushSource;
use kindlebridge::rpc_error::{ErrorCode, ErrorDetail};
use kindlebridge::sync_client::{
    check_cancelled, check_destination, host_file_error, is_valid_transfer_id, staging_path,
    validate_start, FileHash, PullOffer, PushOffer, SyncReply, SyncRequest,
};
use kindlebridge::sync_operation::HostSyncOperation;

type Operation = HostSyncOperation<()>;

fn hash(bytes: &[u8]) -> String {
    let mut hash = FileHash::new(bytes.len() as u64);
    let mut rest = bytes;
    while hash.wanted() > 0 {
        let (chunk, later) = rest.split_at(hash.wanted().min(3));
        hash.feed(chunk);
        rest = later;
    }
    assert_eq!(hash.read(), bytes.len() as u64);
    hash.digest()
}

#[test]
fn a_file_is_hashed_piece_by_piece() {
    assert_eq!(
        hash(b"test kindlehf daemon"),
        blake3::hash(b"test kindlehf daemon").to_hex().to_string()
    );
    assert_eq!(hash(b""), blake3::hash(b"").to_hex().to_string());
    assert_eq!(FileHash::new(1_000_000).wanted(), 262_144);
}

#[test]
fn a_cancelled_transfer_goes_no_further() {
    let mut operation: Operation = HostSyncOperation::new();
    check_cancelled(&operation).unwrap();
    operation.cancel();
    assert!(check_cancelled(&operation).is_err());
    let source = match PushSource::begin(push_params(), true, 4, &mut operation) {
        Ok(source) => source,
        Err(_) => panic!("a file is refused"),
    };
    match source.wanted(&operation) {
        Err(error) => assert_eq!(error.code, ErrorCode::TransferCancelled),
        Ok(_) => panic!("a cancelled source is read"),
    }
}

#[test]
fn only_whole_files_are_pushed() {
    let mut operation: Operation = HostSyncOperation::new();
    match PushSource::begin(push_params(), false, 4, &mut operation) {
        Err(error) => assert!(matches!(
            error.detail,
            ErrorDetail::Detail(detail) if detail == "local_path must name a file"
        )),
        Ok(_) => panic!("a directory is pushed"),
    }
    let mut source = match PushSource::begin(push_params(), true, 4, &mut operation) {
        Ok(source) => source,
        Err(_) => panic!("a file is refused"),
    };
    source.read(b"ab", &mut operation).unwrap();
    assert_eq!(source.wanted(&operation).unwrap(), 2);
    let short = source.read(b"", &mut operation).unwrap_err();
    assert!(matches!(
        short.detail,
        ErrorDetail::Detail(detail) if detail == "local file ended while hashing"
    ));
}

fn push_params() -> SyncPushParams {
    SyncPushParams {
        serial: "K".to_owned(),
        local_path: "/tmp/source".to_owned(),
        remote_path: "a/b".to_owned(),
        transfer_id: None,
        block_size: 4,
    }
}

#[test]
fn a_push_sends_every_byte_once() {
    let mut operation: Operation = HostSyncOperation::new();
    let offer = PushOffer::new(&push_params(), 10, "digest");
    let request = offer.request();
    assert!(matches!(
        request,
        SyncRequest::Push { total_size: 10, remote_path, .. } if remote_path == "a/b"
    ));
    let mut transfer = offer
        .accept(
            SyncReply::Ready {
                transfer_id: "push-1".to_owned(),
                offset: 3,
                total_size: 10,
                file_hash: "digest".to_owned(),
            },
            &mut operation,
        )
        .unwrap();
    assert_eq!(transfer.offset(), 3);
    assert!(!transfer.is_done());
    assert!(!transfer.read(4).unwrap());
    assert!(transfer.read(3).unwrap());
    assert!(transfer.is_done());
    transfer.sent(&mut operation);
    let result = transfer
        .complete(SyncReply::Complete {
            transfer_id: "push-1".to_owned(),
            next_offset: 10,
            total_size: 10,
        })
        .unwrap();
    assert_eq!(result.accepted_offset, 10);
    assert_eq!(result.state, TransferState::Complete);
}

#[test]
fn a_pull_is_verified_against_the_announced_digest() {
    let mut operation: Operation = HostSyncOperation::new();
    let params = SyncPullParams {
        serial: "K".to_owned(),
        remote_path: "a/b".to_owned(),
        local_path: "/tmp/destination".to_owned(),
        transfer_id: None,
        block_size: 4,
    };
    assert!(PullOffer::resumed_staging(&params).unwrap().is_none());
    let receive = |bytes: &[u8], digest: &str, operation: &mut Operation| -> Result<(), LinkError> {
        let start = PullOffer::new(&params, 0)
            .accept(
                SyncReply::Ready {
                    transfer_id: "pull-1".to_owned(),
                    offset: 0,
                    total_size: 6,
                    file_hash: digest.to_owned(),
                },
                operation,
            )
            .unwrap();
        assert!(start.starts_empty());
        let prefix = start.open(0).unwrap();
        let mut transfer = start.begin(prefix);
        for chunk in bytes.chunks(4) {
            transfer.receive(chunk, operation)?;
        }
        transfer.verify()?;
        assert_eq!(transfer.complete(operation).received_size, 6);
        Ok(())
    };
    let digest = blake3::hash(b"abcdef").to_hex().to_string();
    receive(b"abcdef", &digest, &mut operation).unwrap();
    assert!(receive(b"abcdeF", &digest, &mut operation).is_err());
    assert!(receive(b"abcdefg", &digest, &mut operation).is_err());
}

#[test]
fn staging_files_lie_beside_their_destination() {
    let path = staging_path("/tmp/destination", "pull-1").unwrap();
    assert_eq!(path, "/tmp/destination.kindlebridge.pull-1.part");
    assert!(is_valid_transfer_id("pull-1"));
    assert!(!is_valid_transfer_id("../pull"));
    assert!(!is_valid_transfer_id(""));
    assert!(staging_path("/tmp/destination", "../pull").is_err());
    check_destination(false, false).unwrap();
    check_destination(true, true).unwrap();
    assert!(check_destination(true, false).is_err());
}

#[test]
fn identifiers_are_random_hexadecimal_text() {
    let first = new_session_id().unwrap();
    let second = new_session_id().unwrap();
    assert!(is_valid_session_id(&first));
    assert_ne!(first, second);
    assert!(!is_valid_session_id("xyz"));
    assert_eq!(to_hex(&[0x00, 0x9f, 0xff]), "009fff");
}

#[test]
fn a_transfer_is_checked_before_it_starts() {
    validate_start(true, 1_048_576, &Some("push-1".to_owned())).unwrap();
    assert!(validate_start(false, 1, &None).is_err());
    assert!(validate_start(true, 0, &None).is_err());
    assert!(validate_start(true, 1_048_577, &None).is_err());
    assert!(validate_start(true, 1, &Some("a/b".to_owned())).is_err());
    let error = host_file_error("read", "/tmp/x", "denied");
    assert_eq!(error.code, ErrorCode::InvalidParams);
    assert_eq!(error.message, "Unable to read host file");
}

#[test]
fn a_resumed_pull_hashes_what_is_already_there() {
    let mut hash = FileHash::new(6);
    hash.feed(b"abc");
    assert_eq!(hash.wanted(), 3);
    hash.feed(b"def");
    assert_eq!(hash.wanted(), 0);
    assert_eq!(hash.digest(), blake3::hash(b"abcdef").to_hex().to_string());
}

#[test]
fn an_identifier_is_that_of_its_bytes() {
    let bytes: Vec<u8> = (0..16).map(|index| index * 17).collect();
    let id = session_id_of(Ok(()), &bytes).unwrap();
    assert_eq!(id, "00112233445566778899aabbccddeeff");
    assert!(is_valid_session_id(&id));
    let failure = session_id_of(Err(getrandom::Error::UNSUPPORTED), &bytes);
    assert_eq!(failure, Err(getrandom::Error::UNSUPPORTED));
}
