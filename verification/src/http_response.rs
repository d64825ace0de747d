//! The response object for one HTTP connection and its upgrade path to a
//! WebSocket. The native handle may only be touched on the event loop's own
//! thread, so every operation here decides and returns what must reach the
//! native handle; the unverified runner around the library executes those
//! actions, dispatching the terminal ones onto the loop thread.
//!
//! State machine: a response starts active; `end` consumes it and
//! `end_without_body` marks it responded, both terminal. Write operations on
//! a responded handle are silent no-ops, so handler code stays simple in the
//! presence of abort races.

use crate::data_storage::SharedDataStorage;
use crate::http_request::HttpRequest;
use crate::http_request::header_value;
use crate::ws_behavior::WsPerSocketUserData;
use crate::ws_behavior::WsPerSocketUserDataStorage;
use crate::ws_channel::open_frame_channel;
use std::sync::Arc;
use std::sync::atomic::AtomicBool;
use std::sync::atomic::Ordering;
use vstd::prelude::*;

verus! {

/// A write that must reach the native response handle, synchronously and
/// only while the response is active.
pub enum ResponseAction {
    /// Write the HTTP status line.
    WriteStatus(String),
    /// Write one response header.
    WriteHeader(String, String),
    /// Write one response header with a numeric value.
    WriteHeaderInt(String, u64),
    /// End the response without a body, optionally closing the connection.
    EndWithoutBody(bool),
}

/// The terminal response call, to be dispatched onto the loop thread: end
/// the response with this body, optionally closing the connection.
pub struct EndDispatch {
    /// The response body, if any.
    pub data: Option<&'static str>,
    /// Whether the connection is closed once the response has ended.
    pub close_connection: bool,
}

/// The native upgrade call, to be dispatched onto the loop thread once the
/// connection's state stands in the registry.
pub struct UpgradeDispatch {
    /// The handshake key the connection is registered under.
    pub ws_key: String,
    /// The negotiated subprotocol, if the client offered one.
    pub ws_protocol: Option<String>,
    /// The negotiated extensions, if the client offered any.
    pub ws_extensions: Option<String>,
}

/// Why a handshake cannot proceed.
#[derive(Clone, Copy, PartialEq, Eq, Structural, Debug)]
pub enum UpgradeError {
    /// The request carries no `sec-websocket-key` header: a protocol
    /// violation by the peer, surfaced as a handshake failure rather than a
    /// crash.
    MissingWebSocketKey,
}

impl UpgradeError {
    /// A short description of the handshake failure.
    pub fn message(&self) -> (r: String)
        ensures
            r@ == "missing sec-websocket-key header"@,
    {
        "missing sec-websocket-key header".to_owned()
    }
}

/// The response object handed to handler code: the local side of one native
/// response handle, with the abort flag shared with the native callback
/// path, the server-wide storage, and (for upgrade candidates) the
/// connection registry.
pub struct HttpResponse<const SSL: bool> {
    responded: bool,
    /// Set by the native engine if the peer disconnects before the handler
    /// finishes; never reset once set.
    pub is_aborted: Arc<AtomicBool>,
    data_storage: SharedDataStorage,
    per_socket_data_storage: Option<WsPerSocketUserDataStorage>,
}

impl<const SSL: bool> HttpResponse<SSL> {
    /// True once the response has been ended locally, even if the deferred
    /// native call has not yet run.
    pub closed spec fn spec_responded(&self) -> bool {
        self.responded
    }

    /// The abort flag shared with the native callback path.
    pub closed spec fn spec_abort_flag(&self) -> Arc<AtomicBool> {
        self.is_aborted
    }

    /// True when this response is an upgrade candidate: it carries the
    /// connection registry to put the per-connection state into.
    pub closed spec fn is_upgrade_candidate(&self) -> bool {
        self.per_socket_data_storage is Some
    }

    /// The server-wide shared storage this response reads.
    pub closed spec fn spec_storage(&self) -> SharedDataStorage {
        self.data_storage
    }

    /// The connection registry this response registers into, present
    /// exactly on upgrade requests.
    pub closed spec fn spec_registry(&self) -> Option<WsPerSocketUserDataStorage> {
        self.per_socket_data_storage
    }

    /// A fresh, active response. The registry is present exactly on upgrade
    /// requests.
    pub fn new(
        is_aborted: Arc<AtomicBool>,
        data_storage: SharedDataStorage,
        per_socket_data_storage: Option<WsPerSocketUserDataStorage>,
    ) -> (r: HttpResponse<SSL>)
        ensures
            !r.spec_responded(),
            r.spec_abort_flag() == is_aborted,
            r.spec_storage() == data_storage,
            r.spec_registry() == per_socket_data_storage,
            r.is_upgrade_candidate() == (per_socket_data_storage is Some),
    {
        HttpResponse { responded: false, is_aborted, data_storage, per_socket_data_storage }
    }

    /// Returns whether this response is an upgrade candidate, carrying the
    /// connection registry; `upgrade` may only be called when it is.
    pub fn has_upgrade_storage(&self) -> (r: bool)
        ensures
            r == self.is_upgrade_candidate(),
    {
        self.per_socket_data_storage.is_some()
    }

    /// Looks up server-wide shared data by its type; absent when no value of
    /// that type was ever inserted.
    pub fn data<T: Send + Sync + Clone + 'static>(&self) -> Option<&T> {
        self.data_storage.get_data::<T>()
    }

    /// Writes the status line while active; a silent no-op afterward.
    pub fn write_status(&self, status: &str) -> (a: Option<ResponseAction>)
        ensures
            self.spec_responded() ==> a is None,
            !self.spec_responded() ==> (a matches Some(ResponseAction::WriteStatus(s)) && s@
                == status@),
    {
        if self.responded {
            None
        } else {
            Some(ResponseAction::WriteStatus(status.to_owned()))
        }
    }

    /// Writes one header while active; a silent no-op afterward.
    pub fn write_header(&self, key: &str, value: &str) -> (a: Option<ResponseAction>)
        ensures
            self.spec_responded() ==> a is None,
            !self.spec_responded() ==> (a matches Some(ResponseAction::WriteHeader(k, v)) && k@
                == key@ && v@ == value@),
    {
        if self.responded {
            None
        } else {
            Some(ResponseAction::WriteHeader(key.to_owned(), value.to_owned()))
        }
    }

    /// Writes one numeric header while active; a silent no-op afterward.
    pub fn write_header_int(&self, key: &str, value: u64) -> (a: Option<ResponseAction>)
        ensures
            self.spec_responded() ==> a is None,
            !self.spec_responded() ==> (a matches Some(ResponseAction::WriteHeaderInt(k, v)) && k@
                == key@ && v == value),
    {
        if self.responded {
            None
        } else {
            Some(ResponseAction::WriteHeaderInt(key.to_owned(), value))
        }
    }

    /// Ends the response without a body while active; a silent no-op
    /// afterward. Either way the response counts as responded from now on.
    pub fn end_without_body(&mut self, close_connection: bool) -> (a: Option<ResponseAction>)
        ensures
            final(self).spec_responded(),
            final(self).spec_abort_flag() == old(self).spec_abort_flag(),
            final(self).spec_storage() == old(self).spec_storage(),
            final(self).spec_registry() == old(self).spec_registry(),
            final(self).is_upgrade_candidate() == old(self).is_upgrade_candidate(),
            old(self).spec_responded() ==> a is None,
            !old(self).spec_responded() ==> a == Some(ResponseAction::EndWithoutBody(
                close_connection,
            )),
    {
        if self.responded {
            None
        } else {
            self.responded = true;
            Some(ResponseAction::EndWithoutBody(close_connection))
        }
    }

    /// True once the response has been ended locally — immediately after
    /// `end_without_body`, even before the native call has run — preventing
    /// double-termination races.
    pub fn has_responded(&self) -> (r: bool)
        ensures
            r == self.spec_responded(),
    {
        self.responded
    }

    /// Ends the response with an optional body. The response object is
    /// consumed: the returned terminal call is dispatched onto the loop
    /// thread by the runner, and no further operation on this response can
    /// even be attempted.
    pub fn end(self, data: Option<&'static str>, close_connection: bool) -> (d: EndDispatch)
        ensures
            d.data == data,
            d.close_connection == close_connection,
    {
        EndDispatch { data, close_connection }
    }

    /// Performs the coordinated part of a WebSocket upgrade: opens the
    /// connection's message channel, builds the per-connection state, puts
    /// it into the registry under the handshake key — before the abort flag
    /// is read, so a concurrently aborted connection still has an entry for
    /// the close path to discard — and then decides the dispatch. When the
    /// connection was aborted first, no native upgrade call is issued and
    /// the entry is left for the close path; otherwise the returned dispatch
    /// carries the handshake data for the loop thread.
    pub fn upgrade(
        self,
        ws_key_string: String,
        ws_protocol: Option<String>,
        ws_extensions: Option<String>,
        user_data: Option<SharedDataStorage>,
    ) -> (r: Option<UpgradeDispatch>)
        requires
            self.is_upgrade_candidate(),
        ensures
            r matches Some(u) ==> u.ws_key@ == ws_key_string@ && u.ws_protocol == ws_protocol
                && u.ws_extensions == ws_extensions,
    {
        let HttpResponse { responded: _, is_aborted, data_storage, per_socket_data_storage } = self;
        let ws_per_socket_data_storage = per_socket_data_storage.unwrap();
        let (sink, stream) = open_frame_channel();
        let user_data_id = ws_key_string.clone();

        let custom_user_data = match user_data {
            Some(attached) => attached,
            None => SharedDataStorage::empty(),
        };
        let user_data_state = WsPerSocketUserData::new(
            user_data_id.clone(),
            sink,
            stream,
            ws_per_socket_data_storage.clone(),
            data_storage.clone(),
            custom_user_data,
        );

        ws_per_socket_data_storage.register(user_data_id, user_data_state);

        let aborted = is_aborted.load(Ordering::SeqCst);
        resolve_upgrade(aborted, ws_key_string, ws_protocol, ws_extensions)
    }

    /// The convenience upgrade path: reads the handshake headers from the
    /// request and performs the upgrade with no attached per-connection
    /// payload. A request without the mandatory `sec-websocket-key` header
    /// fails with a handshake error and no upgrade is attempted.
    pub fn default_upgrade(req: &HttpRequest, res: HttpResponse<SSL>) -> (r: Result<
        Option<UpgradeDispatch>,
        UpgradeError,
    >)
        requires
            res.is_upgrade_candidate(),
        ensures
            r is Err <==> header_value(req.headers@, "sec-websocket-key"@) is None,
            r matches Ok(Some(u)) ==> {
                &&& header_value(req.headers@, "sec-websocket-key"@) == Some(u.ws_key@)
                &&& (match u.ws_protocol {
                    Some(p) => header_value(req.headers@, "sec-websocket-protocol"@) == Some(p@),
                    None => header_value(req.headers@, "sec-websocket-protocol"@) is None,
                })
                &&& (match u.ws_extensions {
                    Some(e) => header_value(req.headers@, "sec-websocket-extensions"@) == Some(e@),
                    None => header_value(req.headers@, "sec-websocket-extensions"@) is None,
                })
            },
    {
        let ws_key = req.get_header(&"sec-websocket-key".to_owned());
        match ws_key {
            None => Err(UpgradeError::MissingWebSocketKey),
            Some(ws_key_string) => {
                let ws_protocol = req.get_header(&"sec-websocket-protocol".to_owned());
                let ws_extensions = req.get_header(&"sec-websocket-extensions".to_owned());
                Ok(res.upgrade(ws_key_string, ws_protocol, ws_extensions, None))
            },
        }
    }
}

/// The upgrade coordinator's dispatch decision, taken after the
/// per-connection state stands in the registry: an aborted connection never
/// dispatches the native upgrade call, any other connection dispatches it
/// with exactly the handshake data given.
pub fn resolve_upgrade(
    aborted: bool,
    ws_key: String,
    ws_protocol: Option<String>,
    ws_extensions: Option<String>,
) -> (r: Option<UpgradeDispatch>)
    ensures
        aborted ==> r is None,
        !aborted ==> (r matches Some(u) && u.ws_key@ == ws_key@ && u.ws_protocol == ws_protocol
            && u.ws_extensions == ws_extensions),
{
    if aborted {
        None
    } else {
        Some(UpgradeDispatch { ws_key, ws_protocol, ws_extensions })
    }
}

} // verus!
