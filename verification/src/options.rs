//! Run-wide, read-only configuration. Created once at startup and shared for
//! the whole run; the engine never mutates it.

use vstd::prelude::*;

use crate::readdebt::DebtHandling;

verus! {

#[derive(Clone, Debug)]
pub struct Options {
    pub websocket_text_mode: bool,
    pub websocket_protocol: Option<String>,
    pub udp_oneshot_mode: bool,
    pub unidirectional: bool,
    pub unidirectional_reverse: bool,
    pub exit_on_eof: bool,
    pub oneshot: bool,
    pub unlink_unix_socket: bool,
    pub exec_args: Vec<String>,
    pub ws_c_uri: String,
    pub linemode_strip_newlines: bool,
    pub linemode_strict: bool,
    pub origin: Option<String>,
    pub custom_headers: Vec<(String, Vec<u8>)>,
    pub websocket_version: Option<String>,
    pub websocket_dont_close: bool,
    pub one_message: bool,
    pub no_auto_linemode: bool,
    pub buffer_size: usize,
    pub broadcast_queue_len: usize,
    pub read_debt_handling: DebtHandling,
    pub linemode_zero_terminated: bool,
    pub restrict_uri: Option<String>,
}

impl Default for Options {
    /// Everything off, a 64 KiB copy buffer, a 16-message broadcast queue,
    /// and the lenient debt policy.
    fn default() -> (r: Options)
        ensures
            !r.websocket_text_mode,
            r.websocket_protocol is None,
            !r.udp_oneshot_mode,
            !r.unidirectional,
            !r.unidirectional_reverse,
            !r.exit_on_eof,
            !r.oneshot,
            !r.unlink_unix_socket,
            r.exec_args@.len() == 0,
            r.ws_c_uri@.len() == 0,
            !r.linemode_strip_newlines,
            !r.linemode_strict,
            r.origin is None,
            r.custom_headers@.len() == 0,
            r.websocket_version is None,
            !r.websocket_dont_close,
            !r.one_message,
            !r.no_auto_linemode,
            r.buffer_size == 65536,
            r.broadcast_queue_len == 16,
            r.read_debt_handling == DebtHandling::Silent,
            !r.linemode_zero_terminated,
            r.restrict_uri is None,
    {
        Options {
            websocket_text_mode: false,
            websocket_protocol: None,
            udp_oneshot_mode: false,
            unidirectional: false,
            unidirectional_reverse: false,
            exit_on_eof: false,
            oneshot: false,
            unlink_unix_socket: false,
            exec_args: Vec::new(),
            ws_c_uri: String::new(),
            linemode_strip_newlines: false,
            linemode_strict: false,
            origin: None,
            custom_headers: Vec::new(),
            websocket_version: None,
            websocket_dont_close: false,
            one_message: false,
            no_auto_linemode: false,
            buffer_size: 65536,
            broadcast_queue_len: 16,
            read_debt_handling: DebtHandling::Silent,
            linemode_zero_terminated: false,
            restrict_uri: None,
        }
    }
}

} // verus!
