use heci_rs::discovery::{fetched_paths, first_probe, interface_paths, list_length, next_probe};
use heci_rs::{
    add, DeviceError, Guid, Heci, Probe, Transfer, TransferReply, TransferRequest,
    CONNECT_CONTROL_CODE, HECI_TEST, INVALID_HANDLE, INVALID_HANDLE_STATUS, MAX_TRANSFER,
    TRANSFER_FAILED, UVSS_GUID,
};

fn wide(s: &str) -> Vec<u16> {
    s.encode_utf16().collect()
}

#[test]
fn it_works() {
    let result = add(2, 2);
    assert_eq!(result, 4);
}

#[test]
fn parse_reads_each_field() {
    let g = Guid::parse(UVSS_GUID).unwrap();
    assert_eq!(g.data1, 0x4f806aa7);
    assert_eq!(g.data2, 0x9f6f);
    assert_eq!(g.data3, 0x4662);
    assert_eq!(g.data4, [0x90, 0xe5, 0x3f, 0x26, 0xed, 0x87, 0xc5, 0x8f]);
}

#[test]
fn parse_accepts_upper_case() {
    let lower = Guid::parse(HECI_TEST).unwrap();
    let upper = Guid::parse("A6BD915C-FE11-49F1-81C0-74B629F289AC").unwrap();
    assert_eq!(lower, upper);
    assert_eq!(lower.data1, 0xa6bd915c);
    assert_eq!(lower.data4, [0x81, 0xc0, 0x74, 0xb6, 0x29, 0xf2, 0x89, 0xac]);
}

#[test]
fn parse_rejects_malformed_text() {
    assert_eq!(Guid::parse(""), None);
    assert_eq!(Guid::parse("4f806aa7-9f6f-4662-90e5-3f26ed87c58"), None);
    assert_eq!(Guid::parse("4f806aa7-9f6f-4662-90e5-3f26ed87c58fa"), None);
    assert_eq!(Guid::parse("4f806aa7x9f6f-4662-90e5-3f26ed87c58f"), None);
    assert_eq!(Guid::parse("4f806ag7-9f6f-4662-90e5-3f26ed87c58f"), None);
    assert!(!Guid::is_text("{4f806aa7-9f6f-4662-90e5-3f26ed87c5}"));
    assert!(Guid::is_text(UVSS_GUID));
}

#[test]
fn guid_bytes_follow_memory_layout() {
    let g = Guid::parse(UVSS_GUID).unwrap();
    assert_eq!(
        g.to_bytes(),
        [0xa7, 0x6a, 0x80, 0x4f, 0x6f, 0x9f, 0x62, 0x46, 0x90, 0xe5, 0x3f, 0x26, 0xed, 0x87, 0xc5, 0x8f]
    );
}

#[test]
fn list_length_outcomes() {
    assert_eq!(list_length(None), Err(DeviceError::SizeQueryFailed));
    assert_eq!(list_length(Some(0)), Err(DeviceError::NoInterfacesPresent));
    assert_eq!(list_length(Some(1)), Err(DeviceError::NoInterfacesPresent));
    assert_eq!(list_length(Some(2)), Ok(2));
    assert_eq!(list_length(Some(120)), Ok(120));
}

#[test]
fn interface_paths_split_and_skip_blank_entries() {
    let list = wide("\\\\?\\dev#1\0 \t\0\0\\\\?\\dev#2\0\0");
    assert_eq!(interface_paths(&list), vec![wide("\\\\?\\dev#1"), wide("\\\\?\\dev#2")]);
}

#[test]
fn interface_paths_of_empty_and_blank_lists() {
    assert_eq!(interface_paths(&Vec::new()), Vec::<Vec<u16>>::new());
    assert_eq!(interface_paths(&wide("\0\0")), Vec::<Vec<u16>>::new());
    assert_eq!(interface_paths(&wide("  \u{3000}\0\n\0")), Vec::<Vec<u16>>::new());
}

#[test]
fn interface_paths_keep_unterminated_and_surrogate_entries() {
    assert_eq!(interface_paths(&wide("a b\0c")), vec![wide("a b"), wide("c")]);
    assert_eq!(interface_paths(&vec![0xD800, 0]), vec![vec![0xD800]]);
}

#[test]
fn fetched_paths_outcomes() {
    assert_eq!(fetched_paths(None), Err(DeviceError::ListFetchFailed));
    assert_eq!(fetched_paths(Some(wide("x\0\0"))), Ok(vec![wide("x")]));
}

#[test]
fn probe_takes_first_handle_that_opens() {
    assert_eq!(first_probe(0), Probe::Finished(Err(DeviceError::InterfaceNotFound)));
    assert_eq!(first_probe(3), Probe::Open(0));
    assert_eq!(next_probe(3, 0, None), Probe::Open(1));
    assert_eq!(next_probe(3, 1, Some(42)), Probe::Finished(Ok(42)));
    assert_eq!(next_probe(3, 2, None), Probe::Finished(Err(DeviceError::NoValidHandle)));
}

#[test]
fn failed_discovery_makes_every_operation_report_invalid_handle() {
    let errors = [
        DeviceError::SizeQueryFailed,
        DeviceError::ListFetchFailed,
        DeviceError::NoInterfacesPresent,
        DeviceError::NoValidHandle,
        DeviceError::InterfaceNotFound,
    ];
    let client = Guid::parse(HECI_TEST).unwrap();
    for e in errors {
        let mut h = Heci::new(Err(e));
        assert_eq!(h.device, INVALID_HANDLE);
        assert!(!h.is_open());
        assert_eq!(h.connect_request(&client), Err(INVALID_HANDLE_STATUS));
        assert_eq!(h.transfer_request(5), Err(INVALID_HANDLE_STATUS));
        assert_eq!(h.transfer_request(0), Err(INVALID_HANDLE_STATUS));
        assert_eq!(h.close(), None);
    }
}

#[test]
fn missing_interface_class_scenario() {
    let found = list_length(Some(1)).map(|_| 0isize);
    assert_eq!(found, Err(DeviceError::NoInterfacesPresent));
    let h = Heci::new(found);
    let client = Guid::parse(HECI_TEST).unwrap();
    assert_eq!(h.connect_request(&client), Err(INVALID_HANDLE_STATUS));
    assert_eq!(h.transfer_request(5), Err(INVALID_HANDLE_STATUS));
    assert_eq!(h.transfer_request(16), Err(INVALID_HANDLE_STATUS));
}

#[test]
fn connect_sends_client_identifier_once() {
    let h = Heci::new(Ok(7));
    let class = Guid::parse(UVSS_GUID).unwrap();
    let client = Guid::parse(HECI_TEST).unwrap();
    let req = h.connect_request(&client).unwrap();
    assert_eq!(req.handle, 7);
    assert_eq!(req.code, CONNECT_CONTROL_CODE);
    assert_eq!(req.code, 0x8000e004);
    assert_eq!(req.input, client.to_bytes());
    assert_ne!(req.input, class.to_bytes());
}

#[test]
fn write_hello_reports_five() {
    let h = Heci::new(Ok(7));
    let data = "hello".as_bytes();
    let req = h.transfer_request(data.len()).unwrap();
    assert_eq!(req, TransferRequest { handle: 7, len: 5 });
    assert_eq!(req.on_reply(TransferReply::Completed(5)), Transfer::Done(5));
}

#[test]
fn immediate_completion_never_reports_more_than_asked() {
    let h = Heci::new(Ok(3));
    let req = h.transfer_request(5).unwrap();
    assert_eq!(req.on_reply(TransferReply::Completed(3)), Transfer::Done(3));
    assert_eq!(req.on_reply(TransferReply::Completed(0)), Transfer::Done(0));
    assert_eq!(req.on_reply(TransferReply::Completed(9)), Transfer::Done(5));
    assert_eq!(req.on_reply(TransferReply::Failed), Transfer::Done(TRANSFER_FAILED));
}

#[test]
fn pending_transfer_waits_for_completion() {
    let h = Heci::new(Ok(3));
    let req = h.transfer_request(64).unwrap();
    assert_eq!(req.on_reply(TransferReply::Pending), Transfer::AwaitCompletion);
    assert_eq!(req.on_completion(Some(64)), 64);
    assert_eq!(req.on_completion(Some(12)), 12);
    assert_eq!(req.on_completion(Some(100)), 64);
    assert_eq!(req.on_completion(None), TRANSFER_FAILED);
}

#[test]
fn oversized_buffer_is_moved_in_part() {
    let h = Heci::new(Ok(3));
    let big = MAX_TRANSFER as usize + 10;
    let req = h.transfer_request(big).unwrap();
    assert_eq!(req.len, MAX_TRANSFER);
    assert_eq!(req.on_reply(TransferReply::Completed(MAX_TRANSFER)), Transfer::Done(0x7fff_ffff));
    assert_eq!(h.transfer_request(0).unwrap().len, 0);
}

#[test]
fn close_twice_releases_once() {
    let mut h = Heci::new(Ok(9));
    assert!(h.is_open());
    assert_eq!(h.close(), Some(9));
    assert!(!h.is_open());
    assert_eq!(h.close(), None);
    assert_eq!(h.device, INVALID_HANDLE);
}

#[test]
fn write_after_close_reports_invalid_handle() {
    let mut h = Heci::new(Ok(9));
    assert_eq!(h.close(), Some(9));
    assert_eq!(h.transfer_request("hello".len()), Err(INVALID_HANDLE_STATUS));
}
