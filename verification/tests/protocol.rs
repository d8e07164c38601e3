use mtp_tui::listing::{
    fallback_plan, filter_keeps, is_android, needs_manual_walk, plan_listing, recursive_request,
    FolderWalk, ListingPlan, ObjectListing, ParentFilter,
};
use mtp_tui::session::{
    command_bytes, data_header, next_transaction, open_decision, parse_response, read_response,
    CollectStep, DataCollector, DeviceInfoCollector, OpenAction, OpenDecision, OpenHandshake, OpenPhase,
    TransactionCounter,
};
use mtp_tui::stream::{DataFault, ReceiveStream, RecvFeed, RecvStep, StreamError};
use mtp_tui::usb::{
    any_mtp_interface, device_verdict, find_mtp_endpoints, has_mtp_endpoint_layout,
    location_id_from_topology, AltSettingInfo, ClassCodes, EndpointDirection, EndpointFault,
    EndpointInfo, InterfaceInfo, MtpEndpoints, MtpVerdict, TransferType,
};

fn container(kind: u16, code: u16, tx: u32, payload: &[u8]) -> Vec<u8> {
    let mut v = Vec::new();
    v.extend_from_slice(&((12 + payload.len()) as u32).to_le_bytes());
    v.extend_from_slice(&kind.to_le_bytes());
    v.extend_from_slice(&code.to_le_bytes());
    v.extend_from_slice(&tx.to_le_bytes());
    v.extend_from_slice(payload);
    v
}

/// Drives a receive stream over the given bulk reads, collecting the chunks.
fn drive(stream: &mut ReceiveStream, reads: Vec<Vec<u8>>) -> (Vec<u8>, Option<StreamError<String>>) {
    let mut reads = reads.into_iter();
    let mut out = Vec::new();
    loop {
        match stream.step() {
            RecvStep::Yield(chunk) => out.extend_from_slice(&chunk),
            RecvStep::Finish => return (out, None),
            RecvStep::Receive => {
                let next: Result<Vec<u8>, String> = reads.next().ok_or_else(|| "no data".to_string());
                match stream.feed(next) {
                    RecvFeed::Continue => {}
                    RecvFeed::Finish => return (out, None),
                    RecvFeed::Fail(e) => return (out, Some(e)),
                }
            }
        }
    }
}

#[test]
fn receive_stream_yields_payload_then_finishes() {
    let mut s = ReceiveStream::new(7, 0x1009);
    assert_eq!(s.transaction_id(), 7);
    let data = container(2, 0x1009, 7, b"hello world");
    let resp = container(3, 0x2001, 7, &[]);
    let (out, err) = drive(&mut s, vec![data, resp]);
    assert_eq!(out, b"hello world");
    assert!(err.is_none());
    assert!(s.is_done());
    assert_eq!(s.step(), RecvStep::Finish);
}

#[test]
fn receive_stream_handles_split_reads() {
    let mut s = ReceiveStream::new(3, 0x1009);
    let data = container(2, 0x1009, 3, &[1, 2, 3, 4, 5, 6, 7, 8, 9, 10]);
    let (a, b) = data.split_at(5);
    let (b, c) = b.split_at(9);
    let resp = container(3, 0x2001, 3, &[]);
    let (out, err) = drive(&mut s, vec![a.to_vec(), b.to_vec(), c.to_vec(), resp]);
    assert_eq!(out, vec![1, 2, 3, 4, 5, 6, 7, 8, 9, 10]);
    assert!(err.is_none());
}

#[test]
fn receive_stream_reads_again_before_a_glued_response() {
    // A response that arrives in the same read as the end of the data is
    // only looked at after one more read.
    let mut s = ReceiveStream::new(3, 0x1009);
    let mut last = container(2, 0x1009, 3, &[1, 2]);
    last.extend(container(3, 0x2001, 3, &[]));
    let (out, err) = drive(&mut s, vec![last.clone()]);
    assert_eq!(out, vec![1, 2]);
    assert_eq!(err, Some(StreamError::Transport("no data".to_string())));

    let mut s = ReceiveStream::new(3, 0x1009);
    let (out, err) = drive(&mut s, vec![last, vec![0]]);
    assert_eq!(out, vec![1, 2]);
    assert!(err.is_none());
    assert!(s.is_done());
}

#[test]
fn receive_stream_reports_errors() {
    let mut s = ReceiveStream::new(3, 0x1009);
    let (_, err) = drive(&mut s, vec![container(3, 0x2009, 3, &[])]);
    assert_eq!(err, Some(StreamError::Protocol { code: 0x2009, operation: 0x1009 }));

    let mut s = ReceiveStream::new(3, 0x1009);
    let (_, err) = drive(&mut s, vec![container(3, 0x2001, 4, &[])]);
    assert_eq!(err, Some(StreamError::Data(DataFault::TransactionMismatch { expected: 3, got: 4 })));

    let mut s = ReceiveStream::new(3, 0x1009);
    let (_, err) = drive(&mut s, vec![container(4, 0x4002, 3, &[])]);
    assert_eq!(err, Some(StreamError::Data(DataFault::UnexpectedContainer { kind: 4 })));

    let mut s = ReceiveStream::new(3, 0x1009);
    let (_, err) = drive(&mut s, vec![container(9, 0, 3, &[])]);
    assert_eq!(err, Some(StreamError::Data(DataFault::InvalidContainerType { kind: 9 })));

    let mut s = ReceiveStream::new(3, 0x1009);
    let (_, err) = drive(&mut s, vec![Vec::new()]);
    assert_eq!(err, Some(StreamError::Data(DataFault::EmptyResponse)));

    let mut s = ReceiveStream::new(3, 0x1009);
    let (_, err) = drive(&mut s, vec![]);
    assert_eq!(err, Some(StreamError::Transport("no data".to_string())));
    assert!(s.is_done());

    let mut s = ReceiveStream::new(3, 0x1009);
    let mut short = container(3, 0x2001, 3, &[0, 0, 0, 0]);
    short.truncate(14);
    let (_, err) = drive(&mut s, vec![short]);
    assert_eq!(err, Some(StreamError::Data(DataFault::ResponseLengthMismatch { header: 16, have: 14 })));

    let mut s = ReceiveStream::new(3, 0x1009);
    let (_, err) = drive(&mut s, vec![container(3, 0x2001, 3, &[0, 0])]);
    assert_eq!(err, Some(StreamError::Data(DataFault::ResponseParamsUnaligned { bytes: 2 })));
}

#[test]
fn transaction_ids_skip_reserved_values() {
    assert_eq!(next_transaction(1), 2);
    assert_eq!(next_transaction(0xFFFF_FFFD), 0xFFFF_FFFE);
    assert_eq!(next_transaction(0xFFFF_FFFE), 1);
    assert_eq!(next_transaction(0xFFFF_FFFF), 1);
    assert_eq!(next_transaction(0), 1);
    let mut c = TransactionCounter::new();
    assert_eq!(c.take(), 1);
    assert_eq!(c.take(), 2);
}

#[test]
fn command_encoding() {
    let b = command_bytes(0x1002, 0, &vec![1]);
    assert_eq!(b, vec![16, 0, 0, 0, 1, 0, 2, 0x10, 0, 0, 0, 0, 1, 0, 0, 0]);
    let b = command_bytes(0x1001, 5, &vec![]);
    assert_eq!(b, container(1, 0x1001, 5, &[]));
}

#[test]
fn response_parsing() {
    let r = parse_response(&container(3, 0x2001, 9, &[1, 0, 0, 0, 2, 0, 0, 0])).unwrap();
    assert_eq!(r.code, 0x2001);
    assert_eq!(r.transaction_id, 9);
    assert_eq!(r.params, vec![1, 2]);
    let mut short = container(3, 0x2001, 9, &[1, 0, 0, 0]);
    short.truncate(13);
    assert_eq!(parse_response(&short), Err(DataFault::ResponseLengthMismatch { header: 16, have: 13 }));
}

#[test]
fn data_collector_gathers_split_containers() {
    let mut c = DataCollector::new(4);
    let data = container(2, 0x1008, 4, b"abcdef");
    let (a, b) = data.split_at(14);
    let r: CollectStep<String> = c.on_transfer(Ok(a.to_vec()));
    assert_eq!(r, CollectStep::Receive);
    let r: CollectStep<String> = c.on_transfer(Ok(b.to_vec()));
    assert_eq!(r, CollectStep::Receive);
    let r: CollectStep<String> = c.on_transfer(Ok(container(3, 0x2001, 4, &[])));
    assert!(matches!(r, CollectStep::Done(ref resp) if resp.code == 0x2001));
    assert_eq!(c.into_data(), b"abcdef");

    let mut c = DataCollector::new(4);
    let r: CollectStep<String> = c.on_transfer(Ok(vec![1, 2, 3]));
    assert_eq!(r, CollectStep::Fail(StreamError::Data(DataFault::ContainerTooSmall { have: 3 })));

    let mut c = DataCollector::new(4);
    let r: CollectStep<String> = c.on_transfer(Err("gone".to_string()));
    assert_eq!(r, CollectStep::Fail(StreamError::Transport("gone".to_string())));
}

#[test]
fn open_session_decisions() {
    assert_eq!(open_decision(0x2001), OpenDecision::Opened);
    assert_eq!(open_decision(0x201E), OpenDecision::CloseAndRetry);
    assert_eq!(open_decision(0x2002), OpenDecision::Refused(0x2002));
}

#[test]
fn listing_plans() {
    assert_eq!(
        plan_listing(None, true),
        ListingPlan { request_parent: Some(0xFFFF_FFFF), filter: ParentFilter::AndroidRoot }
    );
    assert_eq!(
        plan_listing(None, false),
        ListingPlan { request_parent: None, filter: ParentFilter::Exact(0) }
    );
    assert_eq!(
        plan_listing(Some(42), true),
        ListingPlan { request_parent: Some(42), filter: ParentFilter::Exact(42) }
    );
    assert_eq!(
        fallback_plan(None, 0x2009),
        Some(ListingPlan { request_parent: Some(0xFFFF_FFFF), filter: ParentFilter::AndroidRoot })
    );
    assert_eq!(fallback_plan(Some(5), 0x2009), None);
    assert_eq!(fallback_plan(None, 0x2002), None);
    assert!(filter_keeps(Some(ParentFilter::AndroidRoot), 0));
    assert!(filter_keeps(Some(ParentFilter::AndroidRoot), 0xFFFF_FFFF));
    assert!(!filter_keeps(Some(ParentFilter::AndroidRoot), 3));
    assert!(filter_keeps(None, 3));
    assert!(is_android("microsoft.com: 1.0; android.com: 1.0;"));
    assert!(is_android("ANDROID.COM"));
    assert!(!is_android("microsoft.com: 1.0;"));
}

#[test]
fn object_listing_counts() {
    let mut l = ObjectListing::new(vec![10, 11, 12], Some(ParentFilter::Exact(5)));
    assert_eq!(l.total(), 3);
    assert_eq!(l.fetched(), 0);
    assert_eq!(l.next_handle(), Some(10));
    assert_eq!(l.next_handle(), Some(11));
    assert_eq!(l.fetched(), 2);
    assert_eq!(l.next_handle(), Some(12));
    assert_eq!(l.next_handle(), None);
    assert_eq!(l.fetched(), 3);
    assert!(l.accepts(5));
    assert!(!l.accepts(6));
    assert!(needs_manual_walk(&vec![true, true]));
    assert!(!needs_manual_walk(&vec![true, false]));
    assert!(!needs_manual_walk(&vec![]));
}

fn ep(address: u8, direction: EndpointDirection, transfer_type: TransferType) -> EndpointInfo {
    EndpointInfo { address, direction, transfer_type }
}

#[test]
fn endpoint_selection() {
    let eps = vec![
        ep(0x81, EndpointDirection::In, TransferType::Bulk),
        ep(0x02, EndpointDirection::Out, TransferType::Bulk),
        ep(0x83, EndpointDirection::In, TransferType::Interrupt),
    ];
    assert!(has_mtp_endpoint_layout(&eps));
    assert!(!has_mtp_endpoint_layout(&eps[..2].to_vec()));
    let ifs = vec![
        InterfaceInfo { number: 0, alt: Some(AltSettingInfo { class: 8, subclass: 6, protocol: 80, endpoints: vec![] }) },
        InterfaceInfo { number: 1, alt: Some(AltSettingInfo { class: 6, subclass: 1, protocol: 1, endpoints: eps.clone() }) },
    ];
    assert_eq!(
        find_mtp_endpoints(&ifs),
        Ok(MtpEndpoints { interface: 1, bulk_in: 0x81, bulk_out: 0x02, interrupt_in: 0x83 })
    );
    let none = vec![InterfaceInfo { number: 0, alt: None }];
    assert_eq!(find_mtp_endpoints(&none), Err(EndpointFault::NoMtpInterface));
    let no_int = vec![InterfaceInfo {
        number: 2,
        alt: Some(AltSettingInfo { class: 6, subclass: 1, protocol: 1, endpoints: eps[..2].to_vec() }),
    }];
    assert_eq!(find_mtp_endpoints(&no_int), Err(EndpointFault::NoInterruptIn));
}

#[test]
fn location_id_is_fnv1a() {
    fn fnv(bytes: &[u8]) -> u64 {
        let mut h: u64 = 0xcbf2_9ce4_8422_2325;
        for &b in bytes {
            h ^= b as u64;
            h = h.wrapping_mul(0x0100_0000_01b3);
        }
        h
    }
    let id = location_id_from_topology(&b"1-2".to_vec(), &vec![1, 4]);
    assert_eq!(id, fnv(&[b'1', b'-', b'2', 0xFF, 1, 4]));
    assert_ne!(id, location_id_from_topology(&b"1-2".to_vec(), &vec![1, 5]));
}

#[test]
fn reading_single_responses() {
    let r = read_response(&container(3, 0x2001, 6, &[7, 0, 0, 0]), 6).unwrap();
    assert_eq!((r.code, r.transaction_id, r.params), (0x2001, 6, vec![7]));
    assert_eq!(
        read_response(&container(3, 0x2001, 5, &[]), 6),
        Err(DataFault::TransactionMismatch { expected: 6, got: 5 })
    );
    assert_eq!(read_response(&vec![1, 2, 3], 6), Err(DataFault::ContainerTooSmall { have: 3 }));
    assert_eq!(
        read_response(&container(2, 0x1001, 6, &[]), 6),
        Err(DataFault::UnexpectedContainer { kind: 2 })
    );
}

#[test]
fn data_phase_header() {
    assert_eq!(data_header(0x100D, 9, 100), vec![112, 0, 0, 0, 2, 0, 0x0D, 0x10, 9, 0, 0, 0]);
    let big = data_header(0x100D, 9, u64::from(u32::MAX));
    assert_eq!(&big[..4], &[0xFF, 0xFF, 0xFF, 0xFF]);
    let edge = data_header(0x100D, 9, u64::from(u32::MAX) - 12);
    assert_eq!(&edge[..4], &[0xFF, 0xFF, 0xFF, 0xFF]);
    let below = data_header(0x100D, 9, u64::from(u32::MAX) - 13);
    assert_eq!(&below[..4], &[0xFE, 0xFF, 0xFF, 0xFF]);
}

#[test]
fn recursive_walk_lists_each_folder() {
    assert_eq!(recursive_request(None), Some(0xFFFF_FFFF));
    assert_eq!(recursive_request(Some(4)), Some(4));
    // Tree: root -> {1 (folder), 2 (file)}, 1 -> {3 (folder)}, 3 -> {}.
    let children = |f: Option<u32>| -> (Vec<u32>, Vec<bool>) {
        match f {
            None => (vec![1, 2], vec![true, false]),
            Some(1) => (vec![3], vec![true]),
            _ => (vec![], vec![]),
        }
    };
    let mut walk = FolderWalk::new(None);
    let mut visited = Vec::new();
    while let Some(folder) = walk.next_folder() {
        visited.push(folder);
        let (h, d) = children(folder);
        walk.add_listed(&h, &d);
    }
    assert_eq!(visited, vec![None, Some(1), Some(3)]);
}

#[test]
fn device_info_collection() {
    let mut c = DeviceInfoCollector::new();
    let r: CollectStep<String> = c.on_transfer(Ok(container(2, 0x1001, 0, &[1, 2, 3])));
    assert_eq!(r, CollectStep::Receive);
    let r: CollectStep<String> = c.on_transfer(Ok(container(2, 0x1001, 0, &[4])));
    assert_eq!(r, CollectStep::Receive);
    let r: CollectStep<String> = c.on_transfer(Ok(container(3, 0x2001, 0, &[])));
    assert!(matches!(r, CollectStep::Done(_)));
    assert_eq!(c.into_payload(), vec![1, 2, 3, 4]);

    let mut c = DeviceInfoCollector::new();
    let r: CollectStep<String> = c.on_transfer(Ok(container(3, 0x2002, 0, &[])));
    assert_eq!(r, CollectStep::Fail(StreamError::Protocol { code: 0x2002, operation: 0x1001 }));
    let mut short = container(2, 0x1001, 0, &[1, 2, 3]);
    short.truncate(13);
    let r: CollectStep<String> = c.on_transfer(Ok(short));
    assert_eq!(r, CollectStep::Fail(StreamError::Data(DataFault::DataLengthMismatch { header: 15, have: 13 })));
    let r: CollectStep<String> = c.on_transfer(Ok(container(1, 0x1001, 0, &[])));
    assert_eq!(r, CollectStep::Fail(StreamError::Data(DataFault::UnexpectedContainer { kind: 1 })));
}

fn codes(class: u8, subclass: u8, protocol: u8) -> ClassCodes {
    ClassCodes { class, subclass, protocol }
}

#[test]
fn device_detection_verdicts() {
    assert_eq!(device_verdict(codes(6, 1, 1), &vec![]), MtpVerdict::Mtp);
    assert_eq!(device_verdict(codes(8, 6, 80), &vec![codes(6, 1, 1)]), MtpVerdict::NotMtp);
    assert_eq!(device_verdict(codes(0, 0, 0), &vec![codes(3, 0, 0), codes(0xFF, 1, 1)]), MtpVerdict::Mtp);
    assert_eq!(device_verdict(codes(0xFF, 0xFF, 0), &vec![codes(0xFF, 0xFF, 0)]), MtpVerdict::Inspect);
    let kindle = AltSettingInfo {
        class: 0xFF,
        subclass: 0xFF,
        protocol: 0,
        endpoints: vec![
            ep(0x81, EndpointDirection::In, TransferType::Bulk),
            ep(0x01, EndpointDirection::Out, TransferType::Bulk),
            ep(0x82, EndpointDirection::In, TransferType::Interrupt),
        ],
    };
    let storage = AltSettingInfo { class: 8, subclass: 6, protocol: 80, endpoints: vec![] };
    assert!(any_mtp_interface(&vec![storage, kindle]));
    assert!(!any_mtp_interface(&vec![AltSettingInfo { class: 8, subclass: 6, protocol: 80, endpoints: vec![] }]));
}

#[test]
fn remaining_fault_variants() {
    // A data container cut short and then an empty read.
    let mut c = DataCollector::new(4);
    let data = container(2, 0x1008, 4, b"abcdef");
    let r: CollectStep<String> = c.on_transfer(Ok(data[..14].to_vec()));
    assert_eq!(r, CollectStep::Receive);
    let r: CollectStep<String> = c.on_transfer(Ok(vec![]));
    assert_eq!(r, CollectStep::Fail(StreamError::Data(DataFault::IncompleteData)));

    // A data container whose length field is below the header size.
    let mut bad = container(2, 0x1008, 4, &[]);
    bad[0] = 8;
    let mut c = DataCollector::new(4);
    let r: CollectStep<String> = c.on_transfer(Ok(bad));
    assert_eq!(r, CollectStep::Fail(StreamError::Data(DataFault::DataLengthTooSmall { length: 8 })));

    let only_out = vec![InterfaceInfo {
        number: 0,
        alt: Some(AltSettingInfo {
            class: 6,
            subclass: 1,
            protocol: 1,
            endpoints: vec![ep(0x02, EndpointDirection::Out, TransferType::Bulk)],
        }),
    }];
    assert_eq!(find_mtp_endpoints(&only_out), Err(EndpointFault::NoBulkIn));
    let only_in = vec![InterfaceInfo {
        number: 0,
        alt: Some(AltSettingInfo {
            class: 6,
            subclass: 1,
            protocol: 1,
            endpoints: vec![ep(0x81, EndpointDirection::In, TransferType::Bulk)],
        }),
    }];
    assert_eq!(find_mtp_endpoints(&only_in), Err(EndpointFault::NoBulkOut));
}

fn reply(code: u16, tx: u32) -> Vec<u8> {
    let mut b = vec![12, 0, 0, 0, 3, 0];
    b.extend_from_slice(&code.to_le_bytes());
    b.extend_from_slice(&tx.to_le_bytes());
    b
}

#[test]
fn open_session_recovers_from_stale_session() {
    let (mut h, first) = OpenHandshake::start(1);
    assert_eq!(first, command_bytes(0x1002, 0, &vec![1]));
    let a = h.on_response::<String>(Ok(reply(0x201E, 0)));
    assert_eq!(a, OpenAction::Exchange(command_bytes(0x1003, 1, &vec![])));
    assert_eq!(h.phase, OpenPhase::Closing);
    let a = h.on_response::<String>(Ok(reply(0x2002, 1)));
    assert_eq!(a, OpenAction::Exchange(command_bytes(0x1002, 0, &vec![1])));
    let a = h.on_response::<String>(Ok(reply(0x2001, 0)));
    assert_eq!(a, OpenAction::Opened);
    assert_eq!(h.session_id, 1);
    assert_eq!(h.phase, OpenPhase::Finished);
}

#[test]
fn open_session_refusals_end_the_opening() {
    let (mut h, _) = OpenHandshake::start(1);
    assert_eq!(
        h.on_response::<String>(Ok(reply(0x2002, 0))),
        OpenAction::Fail(StreamError::Protocol { code: 0x2002, operation: 0x1002 })
    );
    assert_eq!(h.phase, OpenPhase::Finished);
    let (mut h, _) = OpenHandshake::start(7);
    h.on_response::<String>(Ok(reply(0x201E, 0)));
    h.on_response::<String>(Err("closed".to_string()));
    assert_eq!(
        h.on_response::<String>(Ok(reply(0x201E, 0))),
        OpenAction::Fail(StreamError::Protocol { code: 0x201E, operation: 0x1002 })
    );
    let (mut h, _) = OpenHandshake::start(1);
    assert_eq!(h.on_response(Err("usb gone".to_string())), OpenAction::Fail(StreamError::Transport("usb gone".to_string())));
    let (mut h, _) = OpenHandshake::start(1);
    assert_eq!(
        h.on_response::<String>(Ok(vec![1, 2, 3])),
        OpenAction::Fail(StreamError::Data(DataFault::ContainerTooSmall { have: 3 }))
    );
}

#[test]
fn counter_ids_skip_reserved_values() {
    let mut c = TransactionCounter::new();
    assert_eq!(c.take(), 1);
    assert_eq!(c.take(), 2);
}
