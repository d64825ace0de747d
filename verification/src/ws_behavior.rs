//! Per-route configuration, the backpressure policy for outbound sends, the
//! per-connection state created at upgrade time, and the connection registry
//! that maps each handshake key to that state.

use crate::data_storage::SharedDataStorage;
use crate::ws_message::WsMessage;
use std::collections::HashMap;
use std::sync::Arc;
use std::sync::Mutex;
use std::sync::atomic::AtomicBool;
use std::sync::atomic::Ordering;
use vstd::prelude::*;

verus! {

/// Configuration of one WebSocket route: pure data, immutable after
/// registration, passed through to the native engine which enforces it.
#[derive(Clone, Debug)]
pub struct WsRouteSettings {
    /// Bitmask of the negotiated compressor and decompressor modes.
    pub compression: Option<u32>,
    /// Largest inbound payload, in bytes, the engine will deliver.
    pub max_payload_length: Option<u32>,
    /// Idle seconds before the engine drops the connection; 0 disables.
    pub idle_timeout: Option<u16>,
    /// Largest amount of unsent outbound bytes tolerated per connection.
    pub max_backpressure: Option<u32>,
    /// Whether exceeding the backpressure limit drops the connection.
    pub close_on_backpressure_limit: Option<bool>,
    /// Whether an outbound send resets the idle timeout.
    pub reset_idle_timeout_on_send: Option<bool>,
    /// Whether the engine sends pings on its own.
    pub send_pings_automatically: Option<bool>,
    /// Longest connection lifetime in seconds; 0 means unlimited.
    pub max_lifetime: Option<u16>,
}

/// What an outbound send must do under the backpressure policy.
#[derive(Clone, Copy, PartialEq, Eq, Structural, Debug)]
pub enum BackpressureVerdict {
    /// The frame fits under the limit: send it.
    Proceed,
    /// The limit is exceeded and the policy keeps the connection: the frame
    /// is buffered, and the caller may retry or drop it.
    Buffer,
    /// The limit is exceeded and the policy drops the connection.
    CloseConnection,
}

/// Decides an outbound send of `frame_len` bytes when `pending` unsent bytes
/// are already accumulated, under limit `max_backpressure` and the
/// close-on-limit policy flag.
pub fn backpressure_verdict(
    pending: u64,
    frame_len: u64,
    max_backpressure: u64,
    close_on_limit: bool,
) -> (v: BackpressureVerdict)
    ensures
        pending + frame_len <= max_backpressure ==> v == BackpressureVerdict::Proceed,
        pending + frame_len > max_backpressure && close_on_limit ==> v
            == BackpressureVerdict::CloseConnection,
        pending + frame_len > max_backpressure && !close_on_limit ==> v
            == BackpressureVerdict::Buffer,
{
    let within: bool = pending <= max_backpressure && frame_len <= max_backpressure - pending;
    if within {
        BackpressureVerdict::Proceed
    } else if close_on_limit {
        BackpressureVerdict::CloseConnection
    } else {
        BackpressureVerdict::Buffer
    }
}

impl WsRouteSettings {
    /// The verdict for an outbound send under this route's configuration.
    /// Without a configured limit every send proceeds; the close-on-limit
    /// flag defaults to keeping the connection, as the native engine does.
    pub fn send_verdict(&self, pending: u64, frame_len: u64) -> (v: BackpressureVerdict)
        ensures
            match self.max_backpressure {
                None => v == BackpressureVerdict::Proceed,
                Some(limit) => {
                    &&& pending + frame_len <= limit ==> v == BackpressureVerdict::Proceed
                    &&& pending + frame_len > limit && self.close_on_backpressure_limit == Some(
                        true,
                    ) ==> v == BackpressureVerdict::CloseConnection
                    &&& pending + frame_len > limit && self.close_on_backpressure_limit != Some(
                        true,
                    ) ==> v == BackpressureVerdict::Buffer
                },
            },
    {
        match self.max_backpressure {
            None => BackpressureVerdict::Proceed,
            Some(limit) => {
                let close_on_limit = match self.close_on_backpressure_limit {
                    Some(flag) => flag,
                    None => false,
                };
                backpressure_verdict(pending, frame_len, limit as u64, close_on_limit)
            },
        }
    }
}

/// The per-connection state built at upgrade time and held by the connection
/// registry until the native engine signals close.
pub struct WsPerSocketUserData {
    /// The sender half of the connection's message channel; the native
    /// callback path pushes inbound frames through it.
    pub sink: tokio::sync::mpsc::UnboundedSender<WsMessage>,
    /// The handshake key this connection is registered under.
    pub id: String,
    /// The receiver half of the message channel, present until the owning
    /// task takes it.
    pub stream: Option<tokio::sync::mpsc::UnboundedReceiver<WsMessage>>,
    /// The registry this state is stored in, for the close path.
    pub storage: WsPerSocketUserDataStorage,
    /// Cleared by the native close callback; the sender half is unusable
    /// afterward.
    pub is_open: Arc<AtomicBool>,
    /// The server-wide shared storage.
    pub shared_data_storage: SharedDataStorage,
    /// Application data attached at upgrade time.
    pub custom_user_data: SharedDataStorage,
}

impl WsPerSocketUserData {
    /// Builds the state registered for one connection at upgrade time: the
    /// given channel halves (the receiver held until the owning task takes
    /// it), the handshake key as identity, a freshly opened flag, and the
    /// given registry and storages, each stored exactly as passed.
    pub fn new(
        id: String,
        sink: tokio::sync::mpsc::UnboundedSender<WsMessage>,
        stream: tokio::sync::mpsc::UnboundedReceiver<WsMessage>,
        storage: WsPerSocketUserDataStorage,
        shared_data_storage: SharedDataStorage,
        custom_user_data: SharedDataStorage,
    ) -> (s: WsPerSocketUserData)
        ensures
            s.id@ == id@,
            s.sink == sink,
            s.stream == Some(stream),
            s.storage == storage,
            s.shared_data_storage == shared_data_storage,
            s.custom_user_data == custom_user_data,
    {
        WsPerSocketUserData {
            sink,
            id,
            stream: Some(stream),
            storage,
            is_open: Arc::new(AtomicBool::new(true)),
            shared_data_storage,
            custom_user_data,
        }
    }

    /// Takes the receiver half, leaving none behind: the owning task calls
    /// this once and drives the channel from then on.
    pub fn take_stream(&mut self) -> (r: Option<
        tokio::sync::mpsc::UnboundedReceiver<WsMessage>,
    >)
        ensures
            r == old(self).stream,
            final(self).stream is None,
            final(self).sink == old(self).sink,
            final(self).id == old(self).id,
            final(self).is_open == old(self).is_open,
    {
        self.stream.take()
    }

    /// Pushes one inbound frame into this connection's channel, as the
    /// native callback path does on frame arrival. When the owning task is
    /// gone the frame comes back inside the outcome.
    pub fn push_inbound(&self, message: WsMessage) -> (r: crate::ws_channel::SendOutcome)
        ensures
            r matches crate::ws_channel::SendOutcome::ChannelClosed(back) ==> back == message,
    {
        crate::ws_channel::push_frame(&self.sink, message)
    }

    /// Reads the open flag, cleared by the native close callback.
    pub fn is_open(&self) -> bool {
        self.is_open.load(Ordering::SeqCst)
    }
}

/// The connection registry: handshake key to per-connection state, shared
/// between the loop thread and task threads behind a mutex with short
/// critical sections.
#[verifier::external_body]
pub struct WsPerSocketUserDataStorage {
    inner: Arc<Mutex<HashMap<String, Box<WsPerSocketUserData>>>>,
}

impl WsPerSocketUserDataStorage {
    /// Relies on std's `HashMap::new`, `Mutex::new` and `Arc::new`: a fresh
    /// registry holds no connection.
    #[verifier::external_body]
    pub fn new() -> WsPerSocketUserDataStorage {
        WsPerSocketUserDataStorage { inner: Arc::new(Mutex::new(HashMap::new())) }
    }

    /// Relies on std's `HashMap::insert` under the registry lock: the state
    /// is stored under its handshake key, replacing any earlier entry of the
    /// same key.
    #[verifier::external_body]
    pub fn register(&self, id: String, user_data: WsPerSocketUserData) {
        let mut guard = self.inner.lock().unwrap();
        guard.insert(id, Box::new(user_data));
    }

    /// Relies on std's `HashMap::contains_key` under the registry lock.
    #[verifier::external_body]
    pub fn contains(&self, id: &String) -> bool {
        let guard = self.inner.lock().unwrap();
        guard.contains_key(id)
    }

    /// Relies on std's `HashMap::remove` under the registry lock: the close
    /// path discards the entry of a connection the engine reported gone, and
    /// the removed state comes back to the caller.
    #[verifier::external_body]
    pub fn remove(&self, id: &String) -> Option<Box<WsPerSocketUserData>> {
        let mut guard = self.inner.lock().unwrap();
        guard.remove(id)
    }

    /// Relies on std's `Mutex::lock` and `HashMap::get_mut`: runs `f` on the
    /// entry of key `id`, in place — the entry never moves, so a pointer the
    /// native engine takes into it stays valid — and reports whether an
    /// entry of that key was present.
    #[verifier::external_body]
    pub fn with_entry_mut<F: FnOnce(&mut WsPerSocketUserData)>(&self, id: &String, f: F) -> bool {
        let mut guard = self.inner.lock().unwrap();
        match guard.get_mut(id) {
            Some(entry) => {
                f(entry.as_mut());
                true
            },
            None => false,
        }
    }
}

/// The step after removal on the close path: a removed entry is marked
/// closed and then dropped — and with it the receiver half of the
/// connection's channel, so the sender half is unusable from then on.
/// Returns true exactly when an entry was there to discard.
pub fn finish_close(entry: Option<Box<WsPerSocketUserData>>) -> (was: bool)
    ensures
        was == (entry is Some),
{
    match entry {
        Some(removed) => {
            removed.is_open.store(false, Ordering::SeqCst);
            true
        },
        None => false,
    }
}

/// The close path, run when the native engine reports a connection gone:
/// the entry of that key leaves the registry and is discarded by
/// [`finish_close`]. Returns whether an entry of that key was present.
pub fn close_connection(registry: &WsPerSocketUserDataStorage, id: &String) -> bool {
    finish_close(registry.remove(id))
}

impl Clone for WsPerSocketUserDataStorage {
    /// Relies on std's `Arc::clone`: the clone refers to the same registry
    /// and is the same registry value.
    #[verifier::external_body]
    fn clone(&self) -> (r: WsPerSocketUserDataStorage)
        ensures
            r == *self,
    {
        WsPerSocketUserDataStorage { inner: Arc::clone(&self.inner) }
    }
}

} // verus!
