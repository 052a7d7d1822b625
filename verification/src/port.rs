use vstd::prelude::*;
use vstd::std_specs::vec::vec_index_mut;
use vstd::pervasive::arbitrary;
use crate::errors::ReadFailure;
use crate::filter::{bpf_insn, bpf_program};
use crate::ifname::INTERFACE_NAME_FIELD_LEN;

verus! {

/// Raw value of a data-link-layer identifier.
pub type RawDataLinkLayer = u32;

/// The framing type of the bound interface. The OS may define values
/// beyond the named subset below, so this is an open integer
/// identifier, not a closed enumeration.
#[derive(Debug, Clone, Copy, Eq, PartialEq, Hash, Structural)]
pub struct DataLinkLayer(pub RawDataLinkLayer);

/// `DLT_NULL`: no link-layer encapsulation.
pub const DLT_NULL: u32 = 0;

/// `DLT_EN10MB`: Ethernet.
pub const DLT_EN10MB: u32 = 1;

/// `DLT_EN3MB`: experimental 3Mb Ethernet.
pub const DLT_EN3MB: u32 = 2;

/// `DLT_AX25`: amateur radio AX.25.
pub const DLT_AX25: u32 = 3;

/// `DLT_PRONET`: Proteon ProNET token ring.
pub const DLT_PRONET: u32 = 4;

/// `DLT_CHAOS`.
pub const DLT_CHAOS: u32 = 5;

/// `DLT_IEEE802`: IEEE 802 networks.
pub const DLT_IEEE802: u32 = 6;

/// `DLT_ARCNET`.
pub const DLT_ARCNET: u32 = 7;

/// `DLT_SLIP`: serial line IP.
pub const DLT_SLIP: u32 = 8;

/// `DLT_PPP`: point-to-point protocol.
pub const DLT_PPP: u32 = 9;

/// `DLT_FDDI`.
pub const DLT_FDDI: u32 = 10;

/// `DLT_ATM_RFC1483`: LLC/SNAP encapsulated ATM.
pub const DLT_ATM_RFC1483: u32 = 11;

/// `DLT_RAW`: raw IP.
pub const DLT_RAW: u32 = 12;

/// `DLT_LOOP`.
pub const DLT_LOOP: u32 = 108;

impl DataLinkLayer {
    /// Constructs a `DataLinkLayer` from a raw integer.
    pub fn from_raw(raw: RawDataLinkLayer) -> (r: Self)
        ensures
            r.0 == raw,
    {
        DataLinkLayer(raw)
    }

    /// Returns the raw integer for this `DataLinkLayer`.
    pub fn as_raw(self) -> (r: RawDataLinkLayer)
        ensures
            r == self.0,
    {
        self.0
    }
}

/// Raw value of a capture-direction identifier.
pub type RawBpfDirection = u32;

/// Which direction of traffic is captured; an open integer identifier
/// like [`DataLinkLayer`].
#[derive(Debug, Clone, Copy, Eq, PartialEq, Hash, Structural)]
pub struct BpfDirection(pub RawBpfDirection);

/// `BPF_D_IN`: inbound frames only.
pub const DIRECTION_IN: u32 = 0;

/// `BPF_D_INOUT`: both directions.
pub const DIRECTION_IN_OUT: u32 = 1;

/// `BPF_D_OUT`: outbound frames only.
pub const DIRECTION_OUT: u32 = 2;

impl BpfDirection {
    /// Constructs a `BpfDirection` from a raw integer.
    pub fn from_raw(raw: RawBpfDirection) -> (r: Self)
        ensures
            r.0 == raw,
    {
        BpfDirection(raw)
    }

    /// Returns the raw integer for this `BpfDirection`.
    pub fn as_raw(self) -> (r: RawBpfDirection)
        ensures
            r == self.0,
    {
        self.0
    }
}

/// A read timeout: seconds and microseconds, as the OS's native
/// two-field layout orders them.
#[derive(Debug, Clone, Copy, Eq, PartialEq, Structural)]
pub struct Timeval {
    pub tv_sec: i64,
    pub tv_usec: i64,
}

/// A statistics snapshot: frames received by the device and frames
/// dropped for want of buffer space. The pair has no identity beyond
/// the two values.
#[allow(non_camel_case_types)]
#[derive(Debug, Clone, Copy, PartialEq, Eq, Hash, Structural)]
pub struct bpf_stat {
    bs_recv: u32,
    bs_drop: u32,
}

impl bpf_stat {
    pub fn new(received: u32, dropped: u32) -> (r: Self)
        ensures
            r.received_count() == received,
            r.dropped_count() == dropped,
    {
        bpf_stat { bs_recv: received, bs_drop: dropped }
    }

    pub closed spec fn received_count(&self) -> u32 {
        self.bs_recv
    }

    pub closed spec fn dropped_count(&self) -> u32 {
        self.bs_drop
    }

    /// Frames received by the device.
    pub fn received(&self) -> (r: u32)
        ensures
            r == self.received_count(),
    {
        self.bs_recv
    }

    /// Frames dropped for want of buffer space.
    pub fn dropped(&self) -> (r: u32)
        ensures
            r == self.dropped_count(),
    {
        self.bs_drop
    }
}

/// One control-plane operation as issued over a port, recorded in the
/// order of issue. This is the model of the wire: what was asked of
/// the device, with the exact argument bytes where there are any.
pub enum ControlOp {
    SetBufferLen(u32),
    GetBufferLen,
    /// Carries the full 16-byte interface-name field.
    BindInterface(Seq<u8>),
    GetInterfaceName,
    GetDataLinkLayer,
    SetDataLinkLayer(u32),
    SetImmediate(bool),
    SetPromiscuous,
    /// Carries the installed instruction sequence.
    InstallFilter(Seq<bpf_insn>),
    GetReadTimeout,
    SetReadTimeout(Timeval),
    Flush,
    GetStats,
    GetDirection,
    SetDirection(u32),
    ReadPacket,
}

/// The response to one issued operation, paired index for index with
/// the issue log. Recording what the device answered — or the failure
/// code it surfaced — lets callers state that values and error codes
/// are handed on verbatim, never fabricated or reinterpreted.
pub enum PortOutcome {
    /// A set-type call succeeded.
    Accepted,
    /// A get-type call answered this raw value.
    Value(u32),
    /// The get-interface-name call answered this 16-byte field.
    Field(Seq<u8>),
    /// The get-read-timeout call answered this timeout.
    Time(Timeval),
    /// The get-statistics call answered this snapshot.
    Stats(bpf_stat),
    /// A read delivered this many bytes.
    Bytes(usize),
    /// A non-blocking read found nothing available.
    WouldBlock,
    /// The call failed with this OS error code.
    Failed(i32),
}

/// The recorded response of a set-type call.
pub open spec fn unit_outcome(r: Result<(), i32>) -> PortOutcome {
    match r {
        Ok(_) => PortOutcome::Accepted,
        Err(e) => PortOutcome::Failed(e),
    }
}

/// The recorded response of a call answering a raw integer.
pub open spec fn value_outcome(r: Result<u32, i32>) -> PortOutcome {
    match r {
        Ok(v) => PortOutcome::Value(v),
        Err(e) => PortOutcome::Failed(e),
    }
}

/// The recorded response of the get-interface-name call.
pub open spec fn field_outcome(r: Result<Vec<u8>, i32>) -> PortOutcome {
    match r {
        Ok(v) => PortOutcome::Field(v@),
        Err(e) => PortOutcome::Failed(e),
    }
}

/// The recorded response of the get-read-timeout call.
pub open spec fn time_outcome(r: Result<Timeval, i32>) -> PortOutcome {
    match r {
        Ok(t) => PortOutcome::Time(t),
        Err(e) => PortOutcome::Failed(e),
    }
}

/// The recorded response of the get-statistics call.
pub open spec fn stats_outcome(r: Result<bpf_stat, i32>) -> PortOutcome {
    match r {
        Ok(s) => PortOutcome::Stats(s),
        Err(e) => PortOutcome::Failed(e),
    }
}

/// The recorded response of one read attempt.
pub open spec fn read_outcome(r: Result<usize, ReadFailure>) -> PortOutcome {
    match r {
        Ok(n) => PortOutcome::Bytes(n),
        Err(ReadFailure::WouldBlock) => PortOutcome::WouldBlock,
        Err(ReadFailure::Os(e)) => PortOutcome::Failed(e),
    }
}

/// One synchronous control call or read per method, each against the
/// same open device handle. Every method is a single non-waiting call
/// with no internal retry, appends exactly one entry to the issue log
/// and one matching entry to the response log, and surfaces the OS
/// failure code verbatim.
///
/// The port is injectable: the real port drives the OS device, and a
/// recording port lets the configuration protocol run against a fake.
pub trait ControlPort: Sized {
    /// Every operation issued over this port so far, oldest first.
    /// Ports that support reasoning about the issue log override this;
    /// for the rest it is an arbitrary abstract log.
    open spec fn issued(&self) -> Seq<ControlOp> {
        arbitrary()
    }

    /// The response to each issued operation, in the same order. Every
    /// method appends exactly the outcome it returned, so a caller's
    /// result is pinned to the port's own answer.
    open spec fn outcomes(&self) -> Seq<PortOutcome> {
        arbitrary()
    }

    /// Sets the device buffer length in bytes. Must be issued before
    /// the interface is bound; the device may round the value, so the
    /// effective length is whatever a later get returns.
    fn set_buffer_len(&mut self, value: u32) -> (r: Result<(), i32>)
        ensures
            final(self).issued() == old(self).issued().push(ControlOp::SetBufferLen(value)),
            final(self).outcomes() == old(self).outcomes().push(unit_outcome(r)),
    ;

    /// Reads the effective buffer length in bytes.
    fn get_buffer_len(&mut self) -> (r: Result<u32, i32>)
        ensures
            final(self).issued() == old(self).issued().push(ControlOp::GetBufferLen),
            final(self).outcomes() == old(self).outcomes().push(value_outcome(r)),
    ;

    /// Binds the device to the interface named by an encoded 16-byte
    /// name field.
    fn bind_interface(&mut self, field: &Vec<u8>) -> (r: Result<(), i32>)
        requires
            field@.len() == INTERFACE_NAME_FIELD_LEN,
        ensures
            final(self).issued() == old(self).issued().push(
                ControlOp::BindInterface(field@),
            ),
            final(self).outcomes() == old(self).outcomes().push(unit_outcome(r)),
    ;

    /// Reads the bound interface name as the raw 16-byte field.
    fn get_interface_name_raw(&mut self) -> (r: Result<Vec<u8>, i32>)
        ensures
            final(self).issued() == old(self).issued().push(ControlOp::GetInterfaceName),
            final(self).outcomes() == old(self).outcomes().push(field_outcome(r)),
            r matches Ok(v) ==> v@.len() == INTERFACE_NAME_FIELD_LEN,
    ;

    /// Reads the raw data-link-layer identifier.
    fn get_data_link_layer_raw(&mut self) -> (r: Result<u32, i32>)
        ensures
            final(self).issued() == old(self).issued().push(ControlOp::GetDataLinkLayer),
            final(self).outcomes() == old(self).outcomes().push(value_outcome(r)),
    ;

    /// Sets the raw data-link-layer identifier.
    fn set_data_link_layer_raw(&mut self, value: u32) -> (r: Result<(), i32>)
        ensures
            final(self).issued() == old(self).issued().push(
                ControlOp::SetDataLinkLayer(value),
            ),
            final(self).outcomes() == old(self).outcomes().push(unit_outcome(r)),
    ;

    /// Switches between immediate delivery (any data completes a read)
    /// and buffered delivery (a read waits for a full buffer or the
    /// timeout).
    fn set_immediate(&mut self, value: bool) -> (r: Result<(), i32>)
        ensures
            final(self).issued() == old(self).issued().push(ControlOp::SetImmediate(value)),
            final(self).outcomes() == old(self).outcomes().push(unit_outcome(r)),
    ;

    /// Puts the bound interface in promiscuous mode. One-way: there is
    /// no unset.
    fn set_promiscuous(&mut self) -> (r: Result<(), i32>)
        ensures
            final(self).issued() == old(self).issued().push(ControlOp::SetPromiscuous),
            final(self).outcomes() == old(self).outcomes().push(unit_outcome(r)),
    ;

    /// Installs a filter program, replacing any prior one. The device
    /// keeps its own copy. An empty program accepts every frame.
    fn install_filter(&mut self, program: &bpf_program) -> (r: Result<(), i32>)
        requires
            program.well_formed(),
        ensures
            final(self).issued() == old(self).issued().push(
                ControlOp::InstallFilter(program.instructions()),
            ),
            final(self).outcomes() == old(self).outcomes().push(unit_outcome(r)),
    ;

    /// Reads the configured read timeout.
    fn get_read_timeout(&mut self) -> (r: Result<Timeval, i32>)
        ensures
            final(self).issued() == old(self).issued().push(ControlOp::GetReadTimeout),
            final(self).outcomes() == old(self).outcomes().push(time_outcome(r)),
    ;

    /// Sets the read timeout for blocking reads.
    fn set_read_timeout(&mut self, value: Timeval) -> (r: Result<(), i32>)
        ensures
            final(self).issued() == old(self).issued().push(
                ControlOp::SetReadTimeout(value),
            ),
            final(self).outcomes() == old(self).outcomes().push(unit_outcome(r)),
    ;

    /// Discards buffered, unread capture data and resets the
    /// associated counters.
    fn flush(&mut self) -> (r: Result<(), i32>)
        ensures
            final(self).issued() == old(self).issued().push(ControlOp::Flush),
            final(self).outcomes() == old(self).outcomes().push(unit_outcome(r)),
    ;

    /// Reads a statistics snapshot.
    fn get_stats(&mut self) -> (r: Result<bpf_stat, i32>)
        ensures
            final(self).issued() == old(self).issued().push(ControlOp::GetStats),
            final(self).outcomes() == old(self).outcomes().push(stats_outcome(r)),
    ;

    /// Reads the raw capture-direction identifier.
    fn get_direction_raw(&mut self) -> (r: Result<u32, i32>)
        ensures
            final(self).issued() == old(self).issued().push(ControlOp::GetDirection),
            final(self).outcomes() == old(self).outcomes().push(value_outcome(r)),
    ;

    /// Sets the raw capture-direction identifier.
    fn set_direction_raw(&mut self, value: u32) -> (r: Result<(), i32>)
        ensures
            final(self).issued() == old(self).issued().push(ControlOp::SetDirection(value)),
            final(self).outcomes() == old(self).outcomes().push(unit_outcome(r)),
    ;

    /// One read attempt: fills a prefix of `buf` with framed records
    /// and reports how many bytes arrived. Zero bytes is a valid
    /// outcome (a pure timeout), not a failure. A port in
    /// non-blocking mode reports [`ReadFailure::WouldBlock`] when
    /// nothing is available.
    fn read_packets(&mut self, buf: &mut Vec<u8>) -> (r: Result<usize, ReadFailure>)
        ensures
            final(self).issued() == old(self).issued().push(ControlOp::ReadPacket),
            final(self).outcomes() == old(self).outcomes().push(read_outcome(r)),
            final(buf)@.len() == old(buf)@.len(),
            r matches Ok(n) ==> n <= old(buf)@.len() && final(buf)@.skip(n as int) == old(
                buf,
            )@.skip(n as int),
            r is Err ==> final(buf)@ == old(buf)@,
    ;
}

/// Exec-visible tag of one recorded call, for inspecting a
/// [`RecordingPort`] after the fact.
#[derive(Clone, Copy, Debug, PartialEq, Eq, Structural)]
pub enum CallKind {
    SetBufferLen,
    GetBufferLen,
    BindInterface,
    GetInterfaceName,
    GetDataLinkLayer,
    SetDataLinkLayer,
    SetImmediate,
    SetPromiscuous,
    InstallFilter,
    GetReadTimeout,
    SetReadTimeout,
    Flush,
    GetStats,
    GetDirection,
    SetDirection,
    ReadPacket,
}

/// Copies a byte vector.
fn copy_bytes(src: &Vec<u8>) -> (r: Vec<u8>)
    ensures
        r@ == src@,
{
    let mut out: Vec<u8> = Vec::new();
    let mut i: usize = 0;
    while i < src.len()
        invariant
            i <= src@.len(),
            out@ == src@.subrange(0, i as int),
        decreases src@.len() - i,
    {
        out.push(src[i]);
        proof {
            assert(out@ =~= src@.subrange(0, i + 1));
        }
        i = i + 1;
    }
    proof {
        assert(out@ =~= src@);
    }
    out
}

/// A fake device for exercising the configuration protocol without an
/// OS: every call is recorded, selected calls can be scripted to fail,
/// and a small emulation stands in for the device proper. The
/// emulation follows the device's documented behaviour where the tests
/// need it: a set buffer length is rounded up to the device minimum,
/// and — as this fake's own convention — an empty installed program
/// passes the staged frames through while a non-empty one rejects
/// everything, standing in for a reject-all program.
pub struct RecordingPort {
    /// Ghost mirror of every issued operation, oldest first.
    pub history: Ghost<Seq<ControlOp>>,
    /// Ghost mirror of the response to each issued operation.
    pub responses: Ghost<Seq<PortOutcome>>,
    /// Exec-visible tags of the issued operations, oldest first.
    pub calls: Vec<CallKind>,
    /// Effective buffer length.
    pub buffer_len: u32,
    /// Smallest buffer length the fake device accepts.
    pub min_buffer_len: u32,
    /// The 16-byte name field of the last successful bind.
    pub bound_name: Option<Vec<u8>>,
    /// Current data-link-layer identifier.
    pub data_link: u32,
    /// Immediate-delivery mode, once set.
    pub immediate: Option<bool>,
    /// Whether promiscuous mode was requested.
    pub promiscuous: bool,
    /// Current read timeout.
    pub timeout: Timeval,
    /// Current capture direction.
    pub direction: u32,
    /// Length of the installed program, if one was installed.
    pub filter_len: Option<u32>,
    /// Frames staged for reads, already framed as records.
    pub pending: Vec<u8>,
    /// Whether reads report would-block when nothing is staged.
    pub nonblocking: bool,
    /// Scripted failure for the next set-buffer-length call.
    pub fail_set_buffer_len: Option<i32>,
    /// Scripted failure for the next bind call.
    pub fail_bind: Option<i32>,
}

impl RecordingPort {
    /// A fresh fake with nothing recorded, nothing staged, and no
    /// scripted failures.
    pub fn new() -> (r: Self)
        ensures
            r.issued() == Seq::<ControlOp>::empty(),
            r.outcomes() == Seq::<PortOutcome>::empty(),
            r.calls@.len() == 0,
    {
        RecordingPort {
            history: Ghost(Seq::empty()),
            responses: Ghost(Seq::empty()),
            calls: Vec::new(),
            buffer_len: 4096,
            min_buffer_len: 32,
            bound_name: None,
            data_link: DLT_EN10MB,
            immediate: None,
            promiscuous: false,
            timeout: Timeval { tv_sec: 0, tv_usec: 0 },
            direction: DIRECTION_IN_OUT,
            filter_len: None,
            pending: Vec::new(),
            nonblocking: false,
            fail_set_buffer_len: None,
            fail_bind: None,
        }
    }

    /// The buffer-length bound carried end to end: request any length,
    /// bind any 16-byte field, and a following query answers at least
    /// the device minimum. Exact equality with the request is
    /// deliberately not stated — the device may round the value.
    pub fn length_after_configuration(&mut self, requested: u32, field: &Vec<u8>)
        -> (r: Result<u32, i32>)
        requires
            field@.len() == INTERFACE_NAME_FIELD_LEN,
        ensures
            r matches Ok(n) ==> n >= final(self).min_buffer_len,
    {
        match self.set_buffer_len(requested) {
            Ok(_) => {},
            Err(e) => {
                return Err(e);
            },
        }
        match self.bind_interface(field) {
            Ok(_) => {},
            Err(e) => {
                return Err(e);
            },
        }
        self.get_buffer_len()
    }
}

impl ControlPort for RecordingPort {
    open spec fn issued(&self) -> Seq<ControlOp> {
        self.history@
    }

    open spec fn outcomes(&self) -> Seq<PortOutcome> {
        self.responses@
    }

    fn set_buffer_len(&mut self, value: u32) -> (r: Result<(), i32>)
        ensures
            // the fake device rounds a request up to its minimum, so
            // the effective length never falls below it; the exact
            // requested value is not promised
            r is Ok ==> final(self).buffer_len >= final(self).min_buffer_len,
            final(self).min_buffer_len == old(self).min_buffer_len,
    {
        self.history = Ghost(self.history@.push(ControlOp::SetBufferLen(value)));
        self.calls.push(CallKind::SetBufferLen);
        let r: Result<(), i32> = match self.fail_set_buffer_len {
            Some(e) => Err(e),
            None => {
                self.buffer_len = if value < self.min_buffer_len {
                    self.min_buffer_len
                } else {
                    value
                };
                Ok(())
            },
        };
        self.responses = Ghost(self.responses@.push(unit_outcome(r)));
        r
    }

    fn get_buffer_len(&mut self) -> (r: Result<u32, i32>)
        ensures
            r == Ok::<u32, i32>(final(self).buffer_len),
            final(self).buffer_len == old(self).buffer_len,
            final(self).min_buffer_len == old(self).min_buffer_len,
    {
        self.history = Ghost(self.history@.push(ControlOp::GetBufferLen));
        self.calls.push(CallKind::GetBufferLen);
        let r: Result<u32, i32> = Ok(self.buffer_len);
        self.responses = Ghost(self.responses@.push(value_outcome(r)));
        r
    }

    fn bind_interface(&mut self, field: &Vec<u8>) -> (r: Result<(), i32>)
        ensures
            final(self).buffer_len == old(self).buffer_len,
            final(self).min_buffer_len == old(self).min_buffer_len,
    {
        self.history = Ghost(self.history@.push(ControlOp::BindInterface(field@)));
        self.calls.push(CallKind::BindInterface);
        let r: Result<(), i32> = match self.fail_bind {
            Some(e) => Err(e),
            None => {
                self.bound_name = Some(copy_bytes(field));
                Ok(())
            },
        };
        self.responses = Ghost(self.responses@.push(unit_outcome(r)));
        r
    }

    fn get_interface_name_raw(&mut self) -> (r: Result<Vec<u8>, i32>) {
        self.history = Ghost(self.history@.push(ControlOp::GetInterfaceName));
        self.calls.push(CallKind::GetInterfaceName);
        let r: Result<Vec<u8>, i32> = match &self.bound_name {
            Some(v) => {
                if v.len() == INTERFACE_NAME_FIELD_LEN {
                    Ok(copy_bytes(v))
                } else {
                    Err(22)  // the staged field is not a valid name field
                }
            },
            None => Err(6),  // the fake device: nothing bound yet
        };
        self.responses = Ghost(self.responses@.push(field_outcome(r)));
        r
    }

    fn get_data_link_layer_raw(&mut self) -> (r: Result<u32, i32>) {
        self.history = Ghost(self.history@.push(ControlOp::GetDataLinkLayer));
        self.calls.push(CallKind::GetDataLinkLayer);
        let r: Result<u32, i32> = Ok(self.data_link);
        self.responses = Ghost(self.responses@.push(value_outcome(r)));
        r
    }

    fn set_data_link_layer_raw(&mut self, value: u32) -> (r: Result<(), i32>) {
        self.history = Ghost(self.history@.push(ControlOp::SetDataLinkLayer(value)));
        self.calls.push(CallKind::SetDataLinkLayer);
        self.data_link = value;
        let r: Result<(), i32> = Ok(());
        self.responses = Ghost(self.responses@.push(unit_outcome(r)));
        r
    }

    fn set_immediate(&mut self, value: bool) -> (r: Result<(), i32>) {
        self.history = Ghost(self.history@.push(ControlOp::SetImmediate(value)));
        self.calls.push(CallKind::SetImmediate);
        self.immediate = Some(value);
        let r: Result<(), i32> = Ok(());
        self.responses = Ghost(self.responses@.push(unit_outcome(r)));
        r
    }

    fn set_promiscuous(&mut self) -> (r: Result<(), i32>) {
        self.history = Ghost(self.history@.push(ControlOp::SetPromiscuous));
        self.calls.push(CallKind::SetPromiscuous);
        self.promiscuous = true;
        let r: Result<(), i32> = Ok(());
        self.responses = Ghost(self.responses@.push(unit_outcome(r)));
        r
    }

    fn install_filter(&mut self, program: &bpf_program) -> (r: Result<(), i32>) {
        self.history = Ghost(self.history@.push(
            ControlOp::InstallFilter(program.instructions()),
        ));
        self.calls.push(CallKind::InstallFilter);
        let n = program.len();
        self.filter_len = Some(n);
        if n > 0 {
            // this fake treats any non-empty program as reject-all:
            // frames staged for capture stop arriving
            self.pending = Vec::new();
        }
        let r: Result<(), i32> = Ok(());
        self.responses = Ghost(self.responses@.push(unit_outcome(r)));
        r
    }

    fn get_read_timeout(&mut self) -> (r: Result<Timeval, i32>) {
        self.history = Ghost(self.history@.push(ControlOp::GetReadTimeout));
        self.calls.push(CallKind::GetReadTimeout);
        let r: Result<Timeval, i32> = Ok(self.timeout);
        self.responses = Ghost(self.responses@.push(time_outcome(r)));
        r
    }

    fn set_read_timeout(&mut self, value: Timeval) -> (r: Result<(), i32>) {
        self.history = Ghost(self.history@.push(ControlOp::SetReadTimeout(value)));
        self.calls.push(CallKind::SetReadTimeout);
        self.timeout = value;
        let r: Result<(), i32> = Ok(());
        self.responses = Ghost(self.responses@.push(unit_outcome(r)));
        r
    }

    fn flush(&mut self) -> (r: Result<(), i32>) {
        self.history = Ghost(self.history@.push(ControlOp::Flush));
        self.calls.push(CallKind::Flush);
        self.pending = Vec::new();
        let r: Result<(), i32> = Ok(());
        self.responses = Ghost(self.responses@.push(unit_outcome(r)));
        r
    }

    fn get_stats(&mut self) -> (r: Result<bpf_stat, i32>) {
        self.history = Ghost(self.history@.push(ControlOp::GetStats));
        self.calls.push(CallKind::GetStats);
        let r: Result<bpf_stat, i32> = Ok(bpf_stat::new(0, 0));
        self.responses = Ghost(self.responses@.push(stats_outcome(r)));
        r
    }

    fn get_direction_raw(&mut self) -> (r: Result<u32, i32>) {
        self.history = Ghost(self.history@.push(ControlOp::GetDirection));
        self.calls.push(CallKind::GetDirection);
        let r: Result<u32, i32> = Ok(self.direction);
        self.responses = Ghost(self.responses@.push(value_outcome(r)));
        r
    }

    fn set_direction_raw(&mut self, value: u32) -> (r: Result<(), i32>) {
        self.history = Ghost(self.history@.push(ControlOp::SetDirection(value)));
        self.calls.push(CallKind::SetDirection);
        self.direction = value;
        let r: Result<(), i32> = Ok(());
        self.responses = Ghost(self.responses@.push(unit_outcome(r)));
        r
    }

    fn read_packets(&mut self, buf: &mut Vec<u8>) -> (r: Result<usize, ReadFailure>) {
        self.history = Ghost(self.history@.push(ControlOp::ReadPacket));
        self.calls.push(CallKind::ReadPacket);
        if self.pending.len() == 0 && self.nonblocking {
            let r: Result<usize, ReadFailure> = Err(ReadFailure::WouldBlock);
            self.responses = Ghost(self.responses@.push(read_outcome(r)));
            return r;
        }
        let k = if self.pending.len() < buf.len() {
            self.pending.len()
        } else {
            buf.len()
        };
        let mut t: usize = 0;
        while t < k
            invariant
                t <= k,
                k <= buf@.len(),
                k <= self.pending@.len(),
                buf@.len() == old(buf)@.len(),
                forall|j: int| k <= j < buf@.len() ==> buf@[j] == old(buf)@[j],
            decreases k - t,
        {
            let v = self.pending[t];
            let slot = vec_index_mut(buf, t);
            *slot = v;
            t = t + 1;
        }
        proof {
            assert(buf@.skip(k as int) =~= old(buf)@.skip(k as int));
        }
        let r: Result<usize, ReadFailure> = Ok(k);
        self.responses = Ghost(self.responses@.push(read_outcome(r)));
        r
    }
}

} // verus!
