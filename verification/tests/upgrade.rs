use async_uws::data_storage::DataStorage;
use async_uws::data_storage::SharedDataStorage;
use async_uws::http_request::HttpRequest;
use async_uws::http_response::HttpResponse;
use async_uws::http_response::UpgradeError;
use async_uws::ws_behavior::WsPerSocketUserData;
use async_uws::ws_behavior::WsPerSocketUserDataStorage;
use async_uws::ws_behavior::close_connection;
use async_uws::ws_behavior::finish_close;
use async_uws::ws_channel::SendOutcome;
use async_uws::ws_channel::open_frame_channel;
use async_uws::ws_channel::push_frame;
use async_uws::ws_message::WsMessage;
use std::sync::Arc;
use std::sync::atomic::AtomicBool;

fn upgrade_response(
    aborted: bool,
    registry: &WsPerSocketUserDataStorage,
) -> HttpResponse<false> {
    HttpResponse::new(
        Arc::new(AtomicBool::new(aborted)),
        SharedDataStorage::empty(),
        Some(registry.clone()),
    )
}

#[test]
fn upgrade_registers_state_and_dispatches_native_call() {
    let registry = WsPerSocketUserDataStorage::new();
    let res = upgrade_response(false, &registry);
    let dispatch = res.upgrade(
        "key-1".to_string(),
        Some("chat".to_string()),
        Some("permessage-deflate".to_string()),
        None,
    );
    let dispatch = dispatch.expect("a live connection must dispatch the native upgrade");
    assert_eq!(dispatch.ws_key, "key-1");
    assert_eq!(dispatch.ws_protocol, Some("chat".to_string()));
    assert_eq!(dispatch.ws_extensions, Some("permessage-deflate".to_string()));
    assert!(registry.contains(&"key-1".to_string()));
}

#[test]
fn aborted_upgrade_issues_no_native_call_and_entry_is_removed() {
    let registry = WsPerSocketUserDataStorage::new();
    let res = upgrade_response(true, &registry);
    let dispatch = res.upgrade("key-2".to_string(), None, None, None);
    assert!(dispatch.is_none());
    // The entry was registered before the abort flag was read, so the close
    // path still finds it and discards it.
    assert!(registry.contains(&"key-2".to_string()));
    assert!(registry.remove(&"key-2".to_string()).is_some());
    assert!(!registry.contains(&"key-2".to_string()));
}

#[test]
fn upgrade_attaches_custom_user_data() {
    let registry = WsPerSocketUserDataStorage::new();
    let res = upgrade_response(false, &registry);
    let mut connection_data = DataStorage::new();
    connection_data.add_data("route-meta".to_string());
    let dispatch = res.upgrade(
        "key-3".to_string(),
        None,
        None,
        Some(connection_data.into_shared()),
    );
    assert!(dispatch.is_some());
    let state = registry.remove(&"key-3".to_string()).expect("registered state");
    assert_eq!(state.id, "key-3");
    assert_eq!(state.custom_user_data.get_data::<String>(), Some(&"route-meta".to_string()));
    assert!(state.is_open());
}

#[test]
fn default_upgrade_without_key_fails_the_handshake() {
    let registry = WsPerSocketUserDataStorage::new();
    let res = upgrade_response(false, &registry);
    let req = HttpRequest {
        full_url: "/ws".to_string(),
        headers: vec![("upgrade".to_string(), "websocket".to_string())],
    };
    let outcome = HttpResponse::default_upgrade(&req, res);
    assert!(matches!(outcome, Err(UpgradeError::MissingWebSocketKey)));
    assert_eq!(
        UpgradeError::MissingWebSocketKey.message(),
        "missing sec-websocket-key header"
    );
}

#[test]
fn default_upgrade_reads_the_handshake_headers() {
    let registry = WsPerSocketUserDataStorage::new();
    let res = upgrade_response(false, &registry);
    let req = HttpRequest {
        full_url: "/ws".to_string(),
        headers: vec![
            ("sec-websocket-key".to_string(), "k-abc".to_string()),
            ("sec-websocket-protocol".to_string(), "chat".to_string()),
        ],
    };
    let outcome = HttpResponse::default_upgrade(&req, res).expect("handshake must proceed");
    let dispatch = outcome.expect("a live connection must dispatch");
    assert_eq!(dispatch.ws_key, "k-abc");
    assert_eq!(dispatch.ws_protocol, Some("chat".to_string()));
    assert_eq!(dispatch.ws_extensions, None);
    assert!(registry.contains(&"k-abc".to_string()));
}

#[test]
fn get_header_returns_first_match_not_its_name() {
    let req = HttpRequest {
        full_url: "/".to_string(),
        headers: vec![
            ("x-a".to_string(), "first".to_string()),
            ("x-a".to_string(), "second".to_string()),
        ],
    };
    assert_eq!(req.get_header(&"x-a".to_string()), Some("first".to_string()));
    assert_eq!(req.get_header(&"x-b".to_string()), None);
}

#[test]
fn close_path_discards_entry_and_disables_the_sender() {
    let (sink, stream) = open_frame_channel();
    let registry = WsPerSocketUserDataStorage::new();
    let is_open = Arc::new(AtomicBool::new(true));
    let state = WsPerSocketUserData {
        sink: sink.clone(),
        id: "key-c".to_string(),
        stream: Some(stream),
        storage: registry.clone(),
        is_open: is_open.clone(),
        shared_data_storage: SharedDataStorage::empty(),
        custom_user_data: SharedDataStorage::empty(),
    };
    registry.register("key-c".to_string(), state);
    assert!(registry.contains(&"key-c".to_string()));

    assert!(close_connection(&registry, &"key-c".to_string()));
    assert!(!registry.contains(&"key-c".to_string()));
    assert!(!is_open.load(std::sync::atomic::Ordering::SeqCst));
    // The receiver half went down with the entry: the sender is unusable.
    let r = push_frame(&sink, WsMessage::Ping(vec![]));
    assert!(matches!(r, SendOutcome::ChannelClosed(WsMessage::Ping(_))));
    // Closing the same key again finds nothing.
    assert!(!close_connection(&registry, &"key-c".to_string()));
}

#[test]
fn per_socket_builder_stores_exactly_what_is_given() {
    let (sink, stream) = open_frame_channel();
    let registry = WsPerSocketUserDataStorage::new();
    let mut shared = DataStorage::new();
    shared.add_data(7u32);
    let mut custom = DataStorage::new();
    custom.add_data("meta".to_string());
    let mut state = WsPerSocketUserData::new(
        "key-b".to_string(),
        sink,
        stream,
        registry.clone(),
        shared.into_shared(),
        custom.into_shared(),
    );
    assert_eq!(state.id, "key-b");
    assert!(state.is_open());
    assert_eq!(state.shared_data_storage.get_data::<u32>(), Some(&7));
    assert_eq!(state.custom_user_data.get_data::<String>(), Some(&"meta".to_string()));
    assert!(matches!(state.push_inbound(WsMessage::Ping(vec![1])), SendOutcome::Accepted));
    let mut stream = state.take_stream().expect("receiver half present");
    assert!(matches!(
        async_uws::ws_channel::poll_frame(&mut stream),
        async_uws::ws_channel::ReceivePoll::Frame(WsMessage::Ping(d)) if d == vec![1]
    ));
}

#[test]
fn finish_close_reports_presence_and_clears_the_flag() {
    assert!(!finish_close(None));
    let (sink, stream) = open_frame_channel();
    let registry = WsPerSocketUserDataStorage::new();
    let state = WsPerSocketUserData::new(
        "key-f".to_string(),
        sink,
        stream,
        registry.clone(),
        SharedDataStorage::empty(),
        SharedDataStorage::empty(),
    );
    let flag = state.is_open.clone();
    assert!(finish_close(Some(Box::new(state))));
    assert!(!flag.load(std::sync::atomic::Ordering::SeqCst));
}
