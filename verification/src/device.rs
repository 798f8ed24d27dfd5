//! The connection state machine of a device endpoint: an immutable
//! address plus at most one live connection handle.  The handle type
//! `C` is chosen by the I/O driver that sits on top of this crate;
//! this module tracks only its presence and ownership, so the state
//! "connected" and "a connection handle exists" can never disagree.

use vstd::prelude::*;
use crate::error::ConnectionError;

verus! {

/// A device endpoint.  Created disconnected; a driver hands a freshly
/// opened handle to `complete_connect`, borrows it back one operation
/// at a time through `take_connection` / `restore_connection`, and
/// drops it through `disconnect`.
pub struct Device<C> {
    host: String,
    port: u16,
    conn: Option<C>,
}

impl<C> Device<C> {
    /// True when a connection handle is present.
    pub open spec fn connected(self) -> bool {
        self.spec_conn() is Some
    }

    /// The host name or address given at construction.
    pub closed spec fn spec_host(self) -> Seq<char> {
        self.host@
    }

    /// The port given at construction.
    pub closed spec fn spec_port(self) -> u16 {
        self.port
    }

    /// The connection handle, when one is present.
    pub closed spec fn spec_conn(self) -> Option<C> {
        self.conn
    }

    /// Pure construction: the address is stored, no connection exists
    /// and no I/O is performed.
    pub fn new(host: String, port: u16) -> (d: Device<C>)
        ensures
            !d.connected(),
            d.spec_host() == host@,
            d.spec_port() == port,
    {
        Device { host, port, conn: None }
    }

    /// The construction-time address, unchanged by any later
    /// operation.
    pub fn address(&self) -> (r: (&str, u16))
        ensures
            r.0@ == self.spec_host(),
            r.1 == self.spec_port(),
    {
        (self.host.as_str(), self.port)
    }

    /// Whether a connection handle is currently present.
    pub fn is_connected(&self) -> (b: bool)
        ensures
            b == self.connected(),
    {
        self.conn.is_some()
    }

    /// The decision step of `connect`: succeed exactly when no
    /// connection exists.  A driver opens a socket only after this
    /// returns `Ok`, so a connected device never has a second socket
    /// opened for it.
    pub fn begin_connect(&self) -> (r: Result<(), ConnectionError>)
        ensures
            r is Ok <==> !self.connected(),
            r is Err ==> r->Err_0 == ConnectionError::AlreadyConnected,
    {
        if self.conn.is_some() {
            Err(ConnectionError::AlreadyConnected)
        } else {
            Ok(())
        }
    }

    /// Store a freshly opened connection handle.  Refused — and the
    /// device left exactly as it was — when a connection already
    /// exists, so there is never more than one handle per device.
    pub fn complete_connect(&mut self, conn: C) -> (r: Result<(), ConnectionError>)
        ensures
            final(self).spec_host() == old(self).spec_host(),
            final(self).spec_port() == old(self).spec_port(),
            old(self).connected() ==> r is Err && r->Err_0 == ConnectionError::AlreadyConnected
                && *final(self) == *old(self),
            !old(self).connected() ==> r is Ok && final(self).spec_conn() == Some(conn),
    {
        if self.conn.is_some() {
            Err(ConnectionError::AlreadyConnected)
        } else {
            self.conn = Some(conn);
            Ok(())
        }
    }

    /// Discard the connection; the handle is dropped, which closes
    /// whatever resource the driver put in it.  Fails — and the device
    /// is left exactly as it was — when no connection exists.
    pub fn disconnect(&mut self) -> (r: Result<(), ConnectionError>)
        ensures
            final(self).spec_host() == old(self).spec_host(),
            final(self).spec_port() == old(self).spec_port(),
            !old(self).connected() ==> r is Err && r->Err_0 == ConnectionError::NotConnected
                && *final(self) == *old(self),
            old(self).connected() ==> r is Ok && !final(self).connected(),
    {
        if self.conn.is_some() {
            self.conn = None;
            Ok(())
        } else {
            Err(ConnectionError::NotConnected)
        }
    }

    /// Hand the connection handle to the driver for one I/O
    /// operation.  Fails with `NotConnected` — and the device is left
    /// exactly as it was — when no connection exists.
    pub fn take_connection(&mut self) -> (r: Result<C, ConnectionError>)
        ensures
            final(self).spec_host() == old(self).spec_host(),
            final(self).spec_port() == old(self).spec_port(),
            !old(self).connected() ==> r is Err && r->Err_0 == ConnectionError::NotConnected
                && *final(self) == *old(self),
            old(self).connected() ==> r is Ok && old(self).spec_conn() == Some(r->Ok_0)
                && !final(self).connected(),
    {
        match self.conn.take() {
            Some(conn) => Ok(conn),
            None => Err(ConnectionError::NotConnected),
        }
    }

    /// Put the handle back after an I/O operation.  Total: any handle
    /// already present is replaced and thereby dropped, so two handles
    /// never coexist.
    pub fn restore_connection(&mut self, conn: C)
        ensures
            final(self).spec_host() == old(self).spec_host(),
            final(self).spec_port() == old(self).spec_port(),
            final(self).spec_conn() == Some(conn),
    {
        self.conn = Some(conn);
    }
}

} // verus!
