//! The client's connection state and the decisions of each transaction.
//!
//! The stream itself is opaque here (`C`): the caller opens it, moves the
//! bytes of each exchange over it, and hands the outcome back.
use vstd::prelude::*;
use vstd::string::StringSliceAdditionalSpecFns;

use crate::error::OsvError;
use crate::frame::{encode_request, request_fits, request_frame};

verus! {

/// A client of one remote side: its address and at most one live connection.
pub struct Client<C> {
    host: String,
    port: u16,
    conn: Option<C>,
}

/// The request frame for an exchange, or why none may be sent.
pub open spec fn send_outcome(connected: bool, name: Seq<u8>, value: Seq<u8>) -> Result<Seq<u8>, OsvError> {
    if !connected {
        Err(OsvError::NotConnected)
    } else if !request_fits(name.len(), value.len()) {
        Err(OsvError::RequestTooLarge)
    } else {
        Ok(request_frame(name, value))
    }
}

/// `r` holds the bytes that `p` holds, or the same error.
pub open spec fn frame_as(r: Result<Vec<u8>, OsvError>, p: Result<Seq<u8>, OsvError>) -> bool {
    match p {
        Ok(bytes) => r is Ok && r->Ok_0@ == bytes,
        Err(e) => r == Err::<Vec<u8>, OsvError>(e),
    }
}

impl<C> Client<C> {
    /// The host name or address the client connects to.
    pub closed spec fn spec_host(&self) -> Seq<char> {
        self.host@
    }

    /// The port the client connects to.
    pub closed spec fn spec_port(&self) -> u16 {
        self.port
    }

    /// The live connection, if one is held.
    pub closed spec fn spec_conn(&self) -> Option<C> {
        self.conn
    }

    /// A client for `tcp_ip`:`tcp_port`, not yet connected.
    pub fn new(tcp_ip: String, tcp_port: u16) -> (r: Self)
        ensures
            r.spec_host() == tcp_ip@,
            r.spec_port() == tcp_port,
            r.spec_conn() is None,
    {
        Client { host: tcp_ip, port: tcp_port, conn: None }
    }

    /// The host name or address the client connects to.
    pub fn host(&self) -> (r: &str)
        ensures
            r@ == self.spec_host(),
    {
        self.host.as_str()
    }

    /// The port the client connects to.
    pub fn port(&self) -> (r: u16)
        ensures
            r == self.spec_port(),
    {
        self.port
    }

    /// Whether a connection is held; no I/O.
    pub fn is_connected(&self) -> (r: bool)
        ensures
            r == self.spec_conn() is Some,
    {
        self.conn.is_some()
    }

    /// The live connection, through which an exchange's bytes are moved.
    pub fn stream(&self) -> (r: Option<&C>)
        ensures
            r is Some <==> self.spec_conn() is Some,
            r is Some ==> *r->Some_0 == self.spec_conn()->Some_0,
    {
        self.conn.as_ref()
    }

    /// Records the outcome of an attempt to connect: a new stream replaces
    /// whatever was held, a failure leaves the state as it was.
    pub fn connect_outcome(&mut self, outcome: Option<C>) -> (r: Result<(), OsvError>)
        ensures
            final(self).spec_host() == old(self).spec_host(),
            final(self).spec_port() == old(self).spec_port(),
            outcome is Some ==> r is Ok && final(self).spec_conn() == outcome,
            outcome is None ==> r == Err::<(), OsvError>(OsvError::ConnectionError)
                && final(self).spec_conn() == old(self).spec_conn(),
    {
        match outcome {
            Some(c) => {
                self.conn = Some(c);
                Ok(())
            },
            None => Err(OsvError::ConnectionError),
        }
    }

    /// Gives up the connection, returning it so that it can be shut down;
    /// does nothing when none is held.
    pub fn disconnect(&mut self) -> (r: Option<C>)
        ensures
            r == old(self).spec_conn(),
            final(self).spec_conn() is None,
            final(self).spec_host() == old(self).spec_host(),
            final(self).spec_port() == old(self).spec_port(),
    {
        self.conn.take()
    }

    /// The frame to send for one exchange about `name` (a read when `value`
    /// is empty), or why it cannot be sent.
    pub fn send_request(&self, name: &str, value: &str) -> (r: Result<Vec<u8>, OsvError>)
        ensures
            frame_as(r, send_outcome(self.spec_conn() is Some, name.spec_bytes(), value.spec_bytes())),
    {
        if self.conn.is_none() {
            return Err(OsvError::NotConnected);
        }
        let name_len = name.as_bytes().len();
        let value_len = value.as_bytes().len();
        if name_len > 0xffff || value_len > 0xffff {
            return Err(OsvError::RequestTooLarge);
        }
        let payload: usize = if value_len == 0 { 3 + name_len } else { 5 + name_len + value_len };
        if payload > 0xffff {
            return Err(OsvError::RequestTooLarge);
        }
        Ok(encode_request(name, value))
    }

    /// The frame that reads the variable `name`, or why it cannot be sent.
    pub fn read_request(&self, name: &str) -> (r: Result<Vec<u8>, OsvError>)
        ensures
            name@.len() == 0 ==> r == Err::<Vec<u8>, OsvError>(OsvError::EmptyName),
            name@.len() > 0 ==> frame_as(r, send_outcome(self.spec_conn() is Some, name.spec_bytes(), Seq::empty())),
    {
        if name.is_empty() {
            return Err(OsvError::EmptyName);
        }
        proof {
            reveal_strlit("");
        }
        self.send_request(name, "")
    }

    /// The frame that writes `value` to the variable `name`, or why it cannot
    /// be sent.
    pub fn write_request(&self, name: &str, value: &str) -> (r: Result<Vec<u8>, OsvError>)
        ensures
            name@.len() == 0 ==> r == Err::<Vec<u8>, OsvError>(OsvError::EmptyName),
            name@.len() > 0 && value@.len() == 0 ==> r == Err::<Vec<u8>, OsvError>(OsvError::EmptyValue),
            name@.len() > 0 && value@.len() > 0 ==> frame_as(r, send_outcome(self.spec_conn() is Some, name.spec_bytes(), value.spec_bytes())),
    {
        if name.is_empty() {
            return Err(OsvError::EmptyName);
        }
        if value.is_empty() {
            return Err(OsvError::EmptyValue);
        }
        self.send_request(name, value)
    }
}

} // verus!
