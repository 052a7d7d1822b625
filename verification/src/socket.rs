use vstd::prelude::*;
use vstd::slice::slice_subrange;
use crate::errors::{CaptureError, ReadFailure};
use crate::filter::bpf_program;
use crate::frame::PacketIter;
use crate::ifname::{encode_interface_name, parse_interface_name, first_zero,
    lemma_first_zero, name_fits, INTERFACE_NAME_FIELD_LEN};
use crate::port::{bpf_stat, BpfDirection, ControlOp, ControlPort, DataLinkLayer, PortOutcome,
    Timeval};

verus! {

/// The 16-byte field that a fitting name encodes to: the name bytes
/// followed by zero padding.
pub open spec fn spec_name_field(name: Seq<u8>) -> Seq<u8>
    recommends
        name_fits(name),
{
    name + Seq::new((INTERFACE_NAME_FIELD_LEN - name.len()) as nat, |i: int| 0u8)
}

/// The operations a successful construction sequence issues on top of
/// `base`: the buffer length first where one was requested, then the
/// bind.
pub open spec fn config_ops(base: Seq<ControlOp>, name: Seq<u8>, buffer_len: Option<u32>)
    -> Seq<ControlOp> {
    match buffer_len {
        Some(l) => base.push(ControlOp::SetBufferLen(l)).push(
            ControlOp::BindInterface(spec_name_field(name)),
        ),
        None => base.push(ControlOp::BindInterface(spec_name_field(name))),
    }
}

/// The responses a successful construction sequence records on top of
/// `base`: one acceptance per issued call.
pub open spec fn accepted_outcomes(base: Seq<PortOutcome>, buffer_len: Option<u32>)
    -> Seq<PortOutcome> {
    match buffer_len {
        Some(_) => base.push(PortOutcome::Accepted).push(PortOutcome::Accepted),
        None => base.push(PortOutcome::Accepted),
    }
}

/// A capture socket owning one device handle, driven through an
/// injectable control port. Configuration, reads and statistics all
/// issue single calls over that port.
pub struct BpfSocket<P: ControlPort> {
    port: P,
}

impl<P: ControlPort> BpfSocket<P> {
    /// Every operation issued through this socket's port, oldest
    /// first.
    pub closed spec fn issued(&self) -> Seq<ControlOp> {
        self.port.issued()
    }

    /// The port's response to each issued operation, in order.
    pub closed spec fn outcomes(&self) -> Seq<PortOutcome> {
        self.port.outcomes()
    }

    /// Wraps an already-acquired handle's port without issuing
    /// anything.
    pub fn new(port: P) -> (r: Self)
        ensures
            r.issued() == port.issued(),
            r.outcomes() == port.outcomes(),
    {
        BpfSocket { port }
    }

    /// Hands the port back, e.g. to inspect a recording port after a
    /// test run. Nothing is issued.
    pub fn into_port(self) -> (r: P)
        ensures
            r.issued() == self.issued(),
            r.outcomes() == self.outcomes(),
    {
        self.port
    }

    /// Runs the construction sequence: where a buffer length was
    /// requested it is set first, strictly before the interface is
    /// bound. The first failure aborts the sequence, so nothing is
    /// issued after a failed call. An interface name that cannot fit
    /// the 16-byte field with its terminator is rejected locally, with
    /// no OS call issued at all.
    pub fn configure(&mut self, interface: &[u8], buffer_len: Option<u32>)
        -> (r: Result<(), CaptureError>)
        ensures
            match r {
                Ok(_) => {
                    // every issued call succeeded
                    &&& name_fits(interface@)
                    &&& final(self).issued()
                        == config_ops(old(self).issued(), interface@, buffer_len)
                    &&& final(self).outcomes()
                        == accepted_outcomes(old(self).outcomes(), buffer_len)
                },
                Err(e) => match e {
                    CaptureError::InvalidArgument => {
                        &&& !name_fits(interface@)
                        &&& final(self).issued() == old(self).issued()
                        &&& final(self).outcomes() == old(self).outcomes()
                    },
                    CaptureError::OsError(code) => {
                        // the surfaced code is the FIRST failing call's own
                        // code, and nothing was issued after that call
                        &&& name_fits(interface@)
                        &&& {
                            ||| (buffer_len matches Some(l)
                                && final(self).issued()
                                    == old(self).issued().push(ControlOp::SetBufferLen(l))
                                && final(self).outcomes()
                                    == old(self).outcomes().push(PortOutcome::Failed(code)))
                            ||| (final(self).issued()
                                == config_ops(old(self).issued(), interface@, buffer_len)
                                && final(self).outcomes() == match buffer_len {
                                    Some(_) => old(self).outcomes().push(
                                        PortOutcome::Accepted,
                                    ).push(PortOutcome::Failed(code)),
                                    None => old(self).outcomes().push(
                                        PortOutcome::Failed(code),
                                    ),
                                })
                        }
                    },
                    _ => false,
                },
            },
    {
        let field = match encode_interface_name(interface) {
            Ok(f) => f,
            Err(e) => {
                return Err(e);
            },
        };
        proof {
            assert(field@ =~= spec_name_field(interface@));
        }
        match buffer_len {
            Some(l) => {
                match self.port.set_buffer_len(l) {
                    Ok(_) => {},
                    Err(code) => {
                        return Err(CaptureError::OsError(code));
                    },
                }
            },
            None => {},
        }
        match self.port.bind_interface(&field) {
            Ok(_) => Ok(()),
            Err(code) => Err(CaptureError::OsError(code)),
        }
    }

    /// Acquires a configured socket in one step: wrap the port, then
    /// run the construction sequence. On any failure the port — and
    /// with it the handle — is dropped, so no partial configuration
    /// persists.
    pub fn open(port: P, interface: &[u8], buffer_len: Option<u32>)
        -> (r: Result<Self, CaptureError>)
        ensures
            match r {
                Ok(sock) => {
                    // success means both configuration calls succeeded
                    &&& name_fits(interface@)
                    &&& sock.issued() == config_ops(port.issued(), interface@, buffer_len)
                    &&& sock.outcomes() == accepted_outcomes(port.outcomes(), buffer_len)
                },
                Err(e) => match e {
                    CaptureError::InvalidArgument => !name_fits(interface@),
                    CaptureError::OsError(_) => name_fits(interface@),
                    _ => false,
                },
            },
    {
        let mut sock = BpfSocket { port };
        match sock.configure(interface, buffer_len) {
            Ok(_) => Ok(sock),
            Err(e) => Err(e),
        }
    }

    /// Reads the effective buffer length. The device may have rounded
    /// a requested length, so this, not the request, is authoritative.
    pub fn get_buffer_len(&mut self) -> (r: Result<u32, CaptureError>)
        ensures
            final(self).issued() == old(self).issued().push(ControlOp::GetBufferLen),
            match r {
                Ok(n) => final(self).outcomes() == old(self).outcomes().push(
                    PortOutcome::Value(n),
                ),
                Err(e) => match e {
                    CaptureError::OsError(code) => final(self).outcomes() == old(
                        self,
                    ).outcomes().push(PortOutcome::Failed(code)),
                    _ => false,
                },
            },
    {
        match self.port.get_buffer_len() {
            Ok(v) => Ok(v),
            Err(code) => Err(CaptureError::OsError(code)),
        }
    }

    /// Reads the bound interface name: the bytes of the returned field
    /// up to its first zero byte. A field with no zero byte is a local
    /// invalid-argument failure.
    pub fn get_interface_name(&mut self) -> (r: Result<Vec<u8>, CaptureError>)
        ensures
            final(self).issued() == old(self).issued().push(ControlOp::GetInterfaceName),
            match r {
                Ok(name) => {
                    &&& name@.len() < INTERFACE_NAME_FIELD_LEN
                    &&& forall|j: int| 0 <= j < name@.len() ==> name@[j] != 0
                    &&& exists|f: Seq<u8>|
                        {
                            &&& final(self).outcomes() == (#[trigger] old(
                                self,
                            ).outcomes().push(PortOutcome::Field(f)))
                            &&& f.len() == INTERFACE_NAME_FIELD_LEN
                            &&& first_zero(f) < f.len()
                            &&& name@ == f.subrange(0, first_zero(f))
                        }
                },
                Err(e) => match e {
                    CaptureError::InvalidArgument => exists|f: Seq<u8>|
                        {
                            &&& final(self).outcomes() == (#[trigger] old(
                                self,
                            ).outcomes().push(PortOutcome::Field(f)))
                            &&& first_zero(f) == f.len()
                        },
                    CaptureError::OsError(code) => final(self).outcomes() == old(
                        self,
                    ).outcomes().push(PortOutcome::Failed(code)),
                    _ => false,
                },
            },
    {
        let field = match self.port.get_interface_name_raw() {
            Ok(f) => f,
            Err(code) => {
                return Err(CaptureError::OsError(code));
            },
        };
        proof {
            assert(self.outcomes() == old(self).outcomes().push(
                PortOutcome::Field(field@),
            ));
        }
        let parsed = parse_interface_name(field.as_slice());
        match parsed {
            Ok(name) => {
                proof {
                    lemma_first_zero(field@);
                    assert forall|j: int| 0 <= j < name@.len() implies name@[j] != 0 by {
                        assert(name@[j] == field@[j]);
                    }
                }
                Ok(name)
            },
            Err(e) => Err(e),
        }
    }

    /// Reads the data-link-layer type of the bound interface.
    pub fn get_data_link_layer(&mut self) -> (r: Result<DataLinkLayer, CaptureError>)
        ensures
            final(self).issued() == old(self).issued().push(ControlOp::GetDataLinkLayer),
            match r {
                Ok(d) => final(self).outcomes() == old(self).outcomes().push(
                    PortOutcome::Value(d.0),
                ),
                Err(e) => match e {
                    CaptureError::OsError(code) => final(self).outcomes() == old(
                        self,
                    ).outcomes().push(PortOutcome::Failed(code)),
                    _ => false,
                },
            },
    {
        match self.port.get_data_link_layer_raw() {
            Ok(raw) => Ok(DataLinkLayer(raw)),
            Err(code) => Err(CaptureError::OsError(code)),
        }
    }

    /// Sets the data-link-layer type.
    pub fn set_data_link_layer(&mut self, value: DataLinkLayer)
        -> (r: Result<(), CaptureError>)
        ensures
            final(self).issued() == old(self).issued().push(
                ControlOp::SetDataLinkLayer(value.0),
            ),
            match r {
                Ok(_) => final(self).outcomes() == old(self).outcomes().push(
                    PortOutcome::Accepted,
                ),
                Err(e) => match e {
                    CaptureError::OsError(code) => final(self).outcomes() == old(
                        self,
                    ).outcomes().push(PortOutcome::Failed(code)),
                    _ => false,
                },
            },
    {
        match self.port.set_data_link_layer_raw(value.0) {
            Ok(_) => Ok(()),
            Err(code) => Err(CaptureError::OsError(code)),
        }
    }

    /// Switches immediate-delivery mode: deliver on any data rather
    /// than waiting for a full buffer or the timeout.
    pub fn set_immediate(&mut self, value: bool) -> (r: Result<(), CaptureError>)
        ensures
            final(self).issued() == old(self).issued().push(ControlOp::SetImmediate(value)),
            match r {
                Ok(_) => final(self).outcomes() == old(self).outcomes().push(
                    PortOutcome::Accepted,
                ),
                Err(e) => match e {
                    CaptureError::OsError(code) => final(self).outcomes() == old(
                        self,
                    ).outcomes().push(PortOutcome::Failed(code)),
                    _ => false,
                },
            },
    {
        match self.port.set_immediate(value) {
            Ok(_) => Ok(()),
            Err(code) => Err(CaptureError::OsError(code)),
        }
    }

    /// Puts the interface in promiscuous mode; there is no unset.
    pub fn set_promiscuous(&mut self) -> (r: Result<(), CaptureError>)
        ensures
            final(self).issued() == old(self).issued().push(ControlOp::SetPromiscuous),
            match r {
                Ok(_) => final(self).outcomes() == old(self).outcomes().push(
                    PortOutcome::Accepted,
                ),
                Err(e) => match e {
                    CaptureError::OsError(code) => final(self).outcomes() == old(
                        self,
                    ).outcomes().push(PortOutcome::Failed(code)),
                    _ => false,
                },
            },
    {
        match self.port.set_promiscuous() {
            Ok(_) => Ok(()),
            Err(code) => Err(CaptureError::OsError(code)),
        }
    }

    /// Installs a filter program, replacing any prior one. The device
    /// copies the program, so the value may be dropped afterwards; an
    /// empty program accepts every frame.
    pub fn set_read_filter(&mut self, program: bpf_program) -> (r: Result<(), CaptureError>)
        requires
            program.well_formed(),
        ensures
            final(self).issued() == old(self).issued().push(
                ControlOp::InstallFilter(program.instructions()),
            ),
            match r {
                Ok(_) => final(self).outcomes() == old(self).outcomes().push(
                    PortOutcome::Accepted,
                ),
                Err(e) => match e {
                    CaptureError::OsError(code) => final(self).outcomes() == old(
                        self,
                    ).outcomes().push(PortOutcome::Failed(code)),
                    _ => false,
                },
            },
    {
        match self.port.install_filter(&program) {
            Ok(_) => Ok(()),
            Err(code) => Err(CaptureError::OsError(code)),
        }
    }

    /// Reads the configured read timeout.
    pub fn get_read_timeout(&mut self) -> (r: Result<Timeval, CaptureError>)
        ensures
            final(self).issued() == old(self).issued().push(ControlOp::GetReadTimeout),
            match r {
                Ok(t) => final(self).outcomes() == old(self).outcomes().push(
                    PortOutcome::Time(t),
                ),
                Err(e) => match e {
                    CaptureError::OsError(code) => final(self).outcomes() == old(
                        self,
                    ).outcomes().push(PortOutcome::Failed(code)),
                    _ => false,
                },
            },
    {
        match self.port.get_read_timeout() {
            Ok(v) => Ok(v),
            Err(code) => Err(CaptureError::OsError(code)),
        }
    }

    /// Sets the read timeout governing blocking reads.
    pub fn set_read_timeout(&mut self, value: Timeval) -> (r: Result<(), CaptureError>)
        ensures
            final(self).issued() == old(self).issued().push(
                ControlOp::SetReadTimeout(value),
            ),
            match r {
                Ok(_) => final(self).outcomes() == old(self).outcomes().push(
                    PortOutcome::Accepted,
                ),
                Err(e) => match e {
                    CaptureError::OsError(code) => final(self).outcomes() == old(
                        self,
                    ).outcomes().push(PortOutcome::Failed(code)),
                    _ => false,
                },
            },
    {
        match self.port.set_read_timeout(value) {
            Ok(_) => Ok(()),
            Err(code) => Err(CaptureError::OsError(code)),
        }
    }

    /// Discards buffered unread data and resets the associated
    /// counters.
    pub fn flush(&mut self) -> (r: Result<(), CaptureError>)
        ensures
            final(self).issued() == old(self).issued().push(ControlOp::Flush),
            match r {
                Ok(_) => final(self).outcomes() == old(self).outcomes().push(
                    PortOutcome::Accepted,
                ),
                Err(e) => match e {
                    CaptureError::OsError(code) => final(self).outcomes() == old(
                        self,
                    ).outcomes().push(PortOutcome::Failed(code)),
                    _ => false,
                },
            },
    {
        match self.port.flush() {
            Ok(_) => Ok(()),
            Err(code) => Err(CaptureError::OsError(code)),
        }
    }

    /// Reads a statistics snapshot.
    pub fn get_stats(&mut self) -> (r: Result<bpf_stat, CaptureError>)
        ensures
            final(self).issued() == old(self).issued().push(ControlOp::GetStats),
            match r {
                Ok(snapshot) => final(self).outcomes() == old(self).outcomes().push(
                    PortOutcome::Stats(snapshot),
                ),
                Err(e) => match e {
                    CaptureError::OsError(code) => final(self).outcomes() == old(
                        self,
                    ).outcomes().push(PortOutcome::Failed(code)),
                    _ => false,
                },
            },
    {
        match self.port.get_stats() {
            Ok(v) => Ok(v),
            Err(code) => Err(CaptureError::OsError(code)),
        }
    }

    /// Reads the capture direction.
    pub fn get_direction(&mut self) -> (r: Result<BpfDirection, CaptureError>)
        ensures
            final(self).issued() == old(self).issued().push(ControlOp::GetDirection),
            match r {
                Ok(d) => final(self).outcomes() == old(self).outcomes().push(
                    PortOutcome::Value(d.0),
                ),
                Err(e) => match e {
                    CaptureError::OsError(code) => final(self).outcomes() == old(
                        self,
                    ).outcomes().push(PortOutcome::Failed(code)),
                    _ => false,
                },
            },
    {
        match self.port.get_direction_raw() {
            Ok(raw) => Ok(BpfDirection(raw)),
            Err(code) => Err(CaptureError::OsError(code)),
        }
    }

    /// Sets the capture direction.
    pub fn set_direction(&mut self, value: BpfDirection) -> (r: Result<(), CaptureError>)
        ensures
            final(self).issued() == old(self).issued().push(
                ControlOp::SetDirection(value.0),
            ),
            match r {
                Ok(_) => final(self).outcomes() == old(self).outcomes().push(
                    PortOutcome::Accepted,
                ),
                Err(e) => match e {
                    CaptureError::OsError(code) => final(self).outcomes() == old(
                        self,
                    ).outcomes().push(PortOutcome::Failed(code)),
                    _ => false,
                },
            },
    {
        match self.port.set_direction_raw(value.0) {
            Ok(_) => Ok(()),
            Err(code) => Err(CaptureError::OsError(code)),
        }
    }

    /// One read attempt filling a prefix of the caller's buffer. Zero
    /// bytes is a valid outcome — a pure timeout — not a failure. A
    /// port in non-blocking mode surfaces would-block as the
    /// distinguished [`CaptureError::WouldBlock`] outcome.
    pub fn read(&mut self, buf: &mut Vec<u8>) -> (r: Result<usize, CaptureError>)
        ensures
            final(self).issued() == old(self).issued().push(ControlOp::ReadPacket),
            final(buf)@.len() == old(buf)@.len(),
            match r {
                Ok(n) => {
                    &&& n <= old(buf)@.len()
                    &&& final(buf)@.skip(n as int) == old(buf)@.skip(n as int)
                    &&& final(self).outcomes() == old(self).outcomes().push(
                        PortOutcome::Bytes(n),
                    )
                },
                Err(e) => final(buf)@ == old(buf)@ && match e {
                    CaptureError::WouldBlock => final(self).outcomes() == old(
                        self,
                    ).outcomes().push(PortOutcome::WouldBlock),
                    CaptureError::OsError(code) => final(self).outcomes() == old(
                        self,
                    ).outcomes().push(PortOutcome::Failed(code)),
                    _ => false,
                },
            },
    {
        match self.port.read_packets(buf) {
            Ok(n) => Ok(n),
            Err(ReadFailure::WouldBlock) => Err(CaptureError::WouldBlock),
            Err(ReadFailure::Os(code)) => Err(CaptureError::OsError(code)),
        }
    }

    /// One read composed with the deframing decoder: the returned walk
    /// covers exactly the bytes this read filled, a prefix of the
    /// caller's buffer.
    pub fn read_iter<'a>(&mut self, buf: &'a mut Vec<u8>)
        -> (r: Result<PacketIter<'a>, CaptureError>)
        ensures
            final(self).issued() == old(self).issued().push(ControlOp::ReadPacket),
            final(buf)@.len() == old(buf)@.len(),
            match r {
                Ok(it) => {
                    &&& it.wf()
                    &&& it.remaining() == it.region()
                    &&& it.region().len() <= final(buf)@.len()
                    &&& it.region() == final(buf)@.subrange(0, it.region().len() as int)
                    &&& final(buf)@.skip(it.region().len() as int) == old(buf)@.skip(
                        it.region().len() as int,
                    )
                    &&& final(self).outcomes() == old(self).outcomes().push(
                        PortOutcome::Bytes(it.region().len() as usize),
                    )
                },
                Err(e) => final(buf)@ == old(buf)@ && match e {
                    CaptureError::WouldBlock => final(self).outcomes() == old(
                        self,
                    ).outcomes().push(PortOutcome::WouldBlock),
                    CaptureError::OsError(code) => final(self).outcomes() == old(
                        self,
                    ).outcomes().push(PortOutcome::Failed(code)),
                    _ => false,
                },
            },
    {
        let n = match self.port.read_packets(buf) {
            Ok(n) => n,
            Err(ReadFailure::WouldBlock) => {
                return Err(CaptureError::WouldBlock);
            },
            Err(ReadFailure::Os(code)) => {
                return Err(CaptureError::OsError(code));
            },
        };
        let region = slice_subrange(buf.as_slice(), 0, n);
        Ok(PacketIter::new(region))
    }
}

} // verus!
