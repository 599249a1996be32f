use ipc::handle::HandleLedger;
use ipc::named_pipe::{
    make_pipe_name, pipe_path, read_outcome, server_options, write_outcome, ConnectProgress, IoStart,
    NamedPipeClient, PipeConnectionFuture, ERROR_IO_PENDING, ERROR_NO_DATA, ERROR_PIPE_CONNECTED,
    FILE_FLAG_FIRST_PIPE_INSTANCE, FILE_FLAG_OVERLAPPED, PIPE_REJECT_REMOTE_CLIENTS,
};
use ipc::overlapped::{
    completion_event, overlapped_result, CompletionEvent, OverlappedCompletionInfo, PipeError,
    ERROR_ABANDONED_WAIT_0,
};

const ERROR_BROKEN_PIPE: i32 = 109;
const ERROR_ACCESS_DENIED: i32 = 5;

#[test]
fn pipe_path_prefixes_local_namespace() {
    assert_eq!(pipe_path("test1").as_str(), r"\\.\pipe\test1");
    assert_eq!(pipe_path("").as_str(), r"\\.\pipe\");
}

#[test]
fn pipe_name_is_wide_and_nul_terminated() {
    assert_eq!(make_pipe_name("ab"), vec![97u16, 98, 0]);
    assert_eq!(make_pipe_name(""), vec![0u16]);
    assert_eq!(make_pipe_name("é€"), vec![0xe9u16, 0x20ac, 0]);
    assert_eq!(make_pipe_name("a😀"), vec![97u16, 0xd83d, 0xde00, 0]);
}

#[test]
fn first_server_instance_claims_the_name() {
    let o = server_options(r"\\.\pipe\horse", true);
    assert_eq!(o.name, make_pipe_name(r"\\.\pipe\horse"));
    assert_eq!(o.open_mode, 0x3 | 0x40000000 | 0x80000);
    assert_ne!(o.open_mode & FILE_FLAG_FIRST_PIPE_INSTANCE, 0);
    assert_eq!(o.pipe_mode, 0x8);
    assert_ne!(o.pipe_mode & PIPE_REJECT_REMOTE_CLIENTS, 0);
    assert_eq!(o.max_instances, 255);
    assert_eq!((o.out_buffer_size, o.in_buffer_size, o.default_timeout), (0, 0, 0));
}

#[test]
fn next_server_instance_does_not_claim_the_name() {
    let o = server_options(r"\\.\pipe\horse", false);
    assert_eq!(o.open_mode, 0x3 | 0x40000000);
    assert_eq!(o.open_mode & FILE_FLAG_FIRST_PIPE_INSTANCE, 0);
    assert_ne!(o.open_mode & FILE_FLAG_OVERLAPPED, 0);
    assert_ne!(o.pipe_mode & PIPE_REJECT_REMOTE_CLIENTS, 0);
}

#[test]
fn client_opens_existing_pipe_for_reading_and_writing() {
    let o = NamedPipeClient::options("cow");
    assert_eq!(o.name, make_pipe_name(r"\\.\pipe\cow"));
    assert_eq!(o.desired_access, 0x80000000 | 0x40000000);
    assert_eq!(o.share_mode, 0x3);
    assert_eq!(o.creation_disposition, 3);
    assert_eq!(o.flags, 0x40000000);
}

#[test]
fn read_outcomes() {
    assert_eq!(read_outcome(true, 16, 0), IoStart::Done(16));
    assert_eq!(read_outcome(false, 0, ERROR_IO_PENDING), IoStart::Pending);
    assert_eq!(read_outcome(false, 4, ERROR_NO_DATA), IoStart::Done(0));
    assert_eq!(read_outcome(false, 0, ERROR_BROKEN_PIPE), IoStart::Failed(PipeError::Os(109)));
}

#[test]
fn write_outcomes() {
    assert_eq!(write_outcome(true, 8, 0), IoStart::Done(8));
    assert_eq!(write_outcome(false, 0, ERROR_IO_PENDING), IoStart::Pending);
    assert_eq!(write_outcome(false, 0, ERROR_NO_DATA), IoStart::Failed(PipeError::Os(232)));
    assert_eq!(write_outcome(false, 0, ERROR_BROKEN_PIPE), IoStart::Failed(PipeError::Os(109)));
}

#[test]
fn connect_returning_success_is_connected() {
    match PipeConnectionFuture::new("pipe").connect_returned(true, 0) {
        ConnectProgress::Connected(p) => assert_eq!(p, "pipe"),
        _ => panic!("expected a connection"),
    }
}

#[test]
fn client_connecting_before_the_connect_call_is_connected() {
    match PipeConnectionFuture::new(5u32).connect_returned(false, ERROR_PIPE_CONNECTED) {
        ConnectProgress::Connected(p) => assert_eq!(p, 5),
        _ => panic!("expected a connection"),
    }
}

#[test]
fn pending_connect_completes_with_its_pipe() {
    let pending = match PipeConnectionFuture::new(9u32).connect_returned(false, ERROR_IO_PENDING) {
        ConnectProgress::Pending(f) => f,
        _ => panic!("expected a pending connect"),
    };
    assert_eq!(pending.completed(Ok(0)), Ok(9));

    let pending = match PipeConnectionFuture::new(9u32).connect_returned(false, ERROR_IO_PENDING) {
        ConnectProgress::Pending(f) => f,
        _ => panic!("expected a pending connect"),
    };
    assert_eq!(pending.completed(Err(PipeError::Os(ERROR_BROKEN_PIPE))), Err(PipeError::Os(109)));
}

#[test]
fn failed_connect_reports_the_error() {
    match PipeConnectionFuture::new(1u32).connect_returned(false, ERROR_ACCESS_DENIED) {
        ConnectProgress::Failed(e) => assert_eq!(e, PipeError::Os(5)),
        _ => panic!("expected a failure"),
    }
}

#[test]
fn completion_info_gives_bytes_or_error() {
    let ok = OverlappedCompletionInfo { error: 0, bytes_transferred: 11 };
    assert_eq!(ok.into_result(), Ok(11));
    let failed = OverlappedCompletionInfo { error: 109, bytes_transferred: 0 };
    assert_eq!(failed.into_result(), Err(PipeError::Os(109)));
    assert_eq!(overlapped_result(Some(ok)), Ok(11));
    assert_eq!(overlapped_result(None), Err(PipeError::Cancelled));
}

#[test]
fn watcher_resolves_each_packet() {
    assert_eq!(
        completion_event(true, true, 0, 42),
        CompletionEvent::Resolve(OverlappedCompletionInfo { error: 0, bytes_transferred: 42 })
    );
    assert_eq!(
        completion_event(false, true, ERROR_BROKEN_PIPE, 3),
        CompletionEvent::Resolve(OverlappedCompletionInfo { error: 109, bytes_transferred: 3 })
    );
    assert_eq!(completion_event(false, false, ERROR_BROKEN_PIPE, 0), CompletionEvent::Ignore);
    assert_eq!(completion_event(false, true, ERROR_ABANDONED_WAIT_0, 0), CompletionEvent::PortClosed);
    assert_eq!(completion_event(false, false, 735, 0), CompletionEvent::PortClosed);
}

#[test]
fn handle_ids_increase_and_are_closed_once() {
    let mut ledger = HandleLedger::new();
    assert_eq!(ledger.open_handle(), Some(0));
    assert_eq!(ledger.open_handle(), Some(1));
    assert_eq!(ledger.num_open_handles(), 2);
    assert!(ledger.close_handle(0));
    assert!(!ledger.close_handle(0));
    assert!(!ledger.close_handle(7));
    assert_eq!(ledger.num_open_handles(), 1);
    assert_eq!(ledger.open_handle(), Some(2));
}

#[test]
fn live_handle_count_is_stable_across_iterations() {
    let mut ledger = HandleLedger::new();
    let port = ledger.open_handle().unwrap();
    assert_eq!(ledger.num_open_handles(), 1);
    for _ in 0..100 {
        let server = ledger.open_handle().unwrap();
        let next_server = ledger.open_handle().unwrap();
        let client = ledger.open_handle().unwrap();
        assert_eq!(ledger.num_open_handles(), 4);
        assert!(ledger.close_handle(client));
        assert!(ledger.close_handle(server));
        assert!(ledger.close_handle(next_server));
        assert_eq!(ledger.num_open_handles(), 1);
    }
    assert!(ledger.close_handle(port));
    assert_eq!(ledger.num_open_handles(), 0);
}
