//! A userspace model of a TUN/TAP virtual network adapter.
//!
//! The crate is organised around two components:
//!
//! * [`Iface`] describes one configured virtual interface: its mode, its
//!   kernel-confirmed name and whether the 4-byte packet-info header is in
//!   use.  The functions here build the configuration request handed to the
//!   kernel, interpret the kernel's reply, and state the truncating
//!   delivery semantics of a single packet transfer.
//! * [`adapter`] holds the non-blocking side: the readiness-driven retry
//!   protocol that turns a would-block attempt into a new suspension
//!   instead of an error, and the receive-buffer sizing of the adapter.
//!
//! Opening the control device, issuing the configuration call and the
//! actual read/write system calls are operating-system work and live with
//! the caller; everything they decide on the way is specified and checked
//! here.

use vstd::prelude::*;
use vstd::string::StringSliceAdditionalSpecFns;

pub mod adapter;
pub mod frame;

verus! {

/// The mode in which the virtual network adapter operates.
#[derive(Copy, Clone, Debug, Eq, PartialEq, Hash, Structural)]
pub enum Mode {
    /// TUN mode: packets are IP-layer datagrams.
    Tun,
    /// TAP mode: packets are Ethernet frames.
    Tap,
}

/// The numeric selector the kernel expects for a [`Mode`].
pub open spec fn spec_mode_code(m: Mode) -> int {
    match m {
        Mode::Tun => 1,
        Mode::Tap => 2,
    }
}

impl Mode {
    /// The numeric selector submitted to the kernel's configuration call.
    pub fn code(self) -> (c: i32)
        ensures
            c == spec_mode_code(self),
    {
        match self {
            Mode::Tun => 1,
            Mode::Tap => 2,
        }
    }
}

/// Index of the first zero byte at or after `i`, or the sequence's length
/// when no zero byte follows.
pub open spec fn spec_nul_pos(s: Seq<u8>, i: int) -> int
    decreases s.len() - i,
{
    if i < 0 || i >= s.len() {
        s.len() as int
    } else if s[i] == 0 {
        i
    } else {
        spec_nul_pos(s, i + 1)
    }
}

/// The name the kernel confirmed, read out of the configuration buffer it
/// filled: the bytes up to the first zero byte.
pub open spec fn confirmed_name(s: Seq<u8>) -> Seq<u8> {
    s.take(spec_nul_pos(s, 0))
}

/// The buffer submitted to the kernel's configuration call: the requested
/// name followed by enough zero bytes for the kernel to write the
/// confirmed name back, terminated.
pub open spec fn request_bytes(name: Seq<u8>) -> Seq<u8> {
    name + Seq::new(33, |i: int| 0u8)
}

/// The first zero byte is where `spec_nul_pos` says, nothing before it is
/// zero, and the position stays within the sequence.
pub proof fn lemma_nul_pos_first(s: Seq<u8>, i: int)
    requires
        0 <= i <= s.len(),
    ensures
        i <= spec_nul_pos(s, i) <= s.len(),
        spec_nul_pos(s, i) < s.len() ==> s[spec_nul_pos(s, i)] == 0,
        forall|j: int| i <= j < spec_nul_pos(s, i) ==> s[j] != 0,
    decreases s.len() - i,
{
    if i < s.len() && s[i] != 0 {
        lemma_nul_pos_first(s, i + 1);
    }
}

/// A position with no zero byte before it, and a zero byte (or the end of
/// the sequence) at it, is exactly where the first zero byte search ends.
pub proof fn lemma_nul_pos_unique(s: Seq<u8>, i: int, p: int)
    requires
        0 <= i <= p <= s.len(),
        p == s.len() || s[p] == 0,
        forall|j: int| i <= j < p ==> s[j] != 0,
    ensures
        spec_nul_pos(s, i) == p,
    decreases p - i,
{
    if i < p {
        lemma_nul_pos_unique(s, i + 1, p);
    }
}

/// A request whose name holds no zero byte confirms as itself when the
/// kernel leaves the buffer untouched: the name read back out of
/// `request_bytes(name)` is `name` again.
pub proof fn lemma_request_confirms_unchanged(name: Seq<u8>)
    requires
        !name.contains(0u8),
    ensures
        confirmed_name(request_bytes(name)) == name,
{
    let r = request_bytes(name);
    assert forall|j: int| 0 <= j < name.len() implies r[j] != 0 by {
        assert(r[j] == name[j]);
        assert(name[j] != 0);
    }
    assert(r[name.len() as int] == 0);
    lemma_nul_pos_unique(r, 0, name.len() as int);
    assert(r.take(name.len() as int) =~= name);
}

/// A confirmation buffer that does not open with a zero byte confirms a
/// non-empty name.
pub proof fn lemma_confirmed_name_nonempty(buf: Seq<u8>)
    requires
        buf.len() > 0,
        buf[0] != 0,
    ensures
        confirmed_name(buf).len() > 0,
{
    lemma_nul_pos_first(buf, 0);
}

/// Builds the configuration buffer handed to the kernel: the requested
/// name's bytes followed by 33 zero bytes, terminating the name and
/// leaving room for the kernel to write the confirmed name back.
pub fn setup_request(ifname: &str) -> (buf: Vec<u8>)
    ensures
        buf@ == request_bytes(ifname.spec_bytes()),
{
    let bytes: &[u8] = ifname.as_bytes();
    let mut buf: Vec<u8> = Vec::new();
    let mut i: usize = 0;
    while i < bytes.len()
        invariant
            i <= bytes@.len(),
            bytes@ == ifname.spec_bytes(),
            buf@ == bytes@.take(i as int),
        decreases bytes@.len() - i,
    {
        buf.push(bytes[i]);
        proof {
            assert(bytes@.take(i as int + 1) =~= bytes@.take(i as int).push(bytes@[i as int]));
        }
        i += 1;
    }
    proof {
        assert(bytes@.take(bytes@.len() as int) =~= bytes@);
    }
    let mut k: usize = 0;
    while k < 33
        invariant
            k <= 33,
            buf@ == ifname.spec_bytes() + Seq::new(k as nat, |i: int| 0u8),
        decreases 33 - k,
    {
        buf.push(0);
        proof {
            assert(ifname.spec_bytes() + Seq::new(k as nat + 1, |i: int| 0u8)
                =~= (ifname.spec_bytes() + Seq::new(k as nat, |i: int| 0u8)).push(0u8));
        }
        k += 1;
    }
    buf
}

/// Finds the index of the first zero byte in the buffer, or the buffer's
/// length when there is none.
fn nul_position(buf: &Vec<u8>) -> (p: usize)
    ensures
        p == spec_nul_pos(buf@, 0),
{
    let mut i: usize = 0;
    loop
        invariant
            i <= buf@.len(),
            spec_nul_pos(buf@, 0) == spec_nul_pos(buf@, i as int),
        decreases buf@.len() - i,
    {
        if i == buf.len() {
            return i;
        }
        if buf[i] == 0 {
            return i;
        }
        i += 1;
    }
}

/// An error surfaced by the operating system, carried verbatim as its
/// error code.
#[derive(Copy, Clone, Debug, Eq, PartialEq, Structural)]
pub struct OsErr {
    /// The raw OS error code.
    pub code: i32,
}

/// The abstract state of a configured interface.
pub ghost struct IfaceState {
    /// The descriptor number of the open handle.
    pub fd: int,
    /// The mode the device was created in; fixed for its lifetime.
    pub mode: Mode,
    /// The kernel-confirmed name; fixed for its lifetime.
    pub name: Seq<u8>,
    /// Whether each packet carries the 4-byte packet-info header.
    pub packet_info: bool,
}

/// A configured virtual interface.
///
/// The caller opens the control device and issues the one configuration
/// system call; [`Iface::from_setup`] then interprets the call's outcome.
/// Once built, the mode, the confirmed name and the packet-info flag
/// never change.
#[derive(Debug)]
pub struct Iface {
    fd: i32,
    mode: Mode,
    name: Vec<u8>,
    packet_info: bool,
}

impl View for Iface {
    type V = IfaceState;

    closed spec fn view(&self) -> IfaceState {
        IfaceState { fd: self.fd as int, mode: self.mode, name: self.name@, packet_info: self.packet_info }
    }
}

impl Iface {
    /// Interprets the outcome of the kernel's configuration call on the
    /// handle `fd`.  A negative result is the kernel's rejection and
    /// surfaces the OS error verbatim; otherwise the device is up, under
    /// the name the kernel wrote back into the buffer.
    pub fn from_setup(
        fd: i32,
        mode: Mode,
        packet_info: bool,
        setup_result: i32,
        os_error: i32,
        name_buf: &Vec<u8>,
    ) -> (r: Result<Iface, OsErr>)
        ensures
            setup_result < 0 ==> r == Result::<Iface, OsErr>::Err(OsErr { code: os_error }),
            setup_result >= 0 ==> (r matches Ok(i) && i@ == (IfaceState {
                fd: fd as int,
                mode,
                name: confirmed_name(name_buf@),
                packet_info,
            })),
    {
        if setup_result < 0 {
            return Err(OsErr { code: os_error });
        }
        let name = parse_confirmed_name(name_buf);
        Ok(Iface { fd, mode, name, packet_info })
    }

    /// The mode of the adapter; always the one the device was created
    /// with.
    pub fn mode(&self) -> (m: Mode)
        ensures
            m == self@.mode,
    {
        self.mode
    }

    /// The kernel-confirmed name of the adapter.  The requested name is a
    /// wish; this is what the kernel actually assigned, and it never
    /// changes over the device's lifetime.
    pub fn name(&self) -> (n: &Vec<u8>)
        ensures
            n@ == self@.name,
    {
        &self.name
    }

    /// Whether each packet exchanged with the device carries the 4-byte
    /// packet-info header.
    pub fn packet_info(&self) -> (p: bool)
        ensures
            p == self@.packet_info,
    {
        self.packet_info
    }

    /// The raw descriptor number of the underlying handle, for
    /// integration with readiness-notification machinery.
    pub fn as_raw_fd(&self) -> (fd: i32)
        ensures
            fd == self@.fd,
    {
        self.fd
    }

    /// Consumes the device and hands out the raw descriptor number; the
    /// caller becomes responsible for the handle.
    pub fn into_raw_fd(self) -> (fd: i32)
        ensures
            fd == self@.fd,
    {
        self.fd
    }

    /// A second owner of the same underlying resource: the caller
    /// duplicates the OS handle to `fd`, and the new device shares the
    /// mode, name and framing of this one.  Both see the same kernel-side
    /// adapter; a packet consumed through one is not seen by the other.
    pub fn duplicate(&self, fd: i32) -> (d: Iface)
        ensures
            d@ == (IfaceState { fd: fd as int, ..self@ }),
    {
        let name = copy_bytes(&self.name);
        Iface { fd, mode: self.mode, name, packet_info: self.packet_info }
    }

    /// The bytes to hand to the kernel to send `payload` through this
    /// device: the packet-info header is prepended exactly when the
    /// device was created with packet info.
    pub fn encode_packet(&self, proto: u16, payload: &Vec<u8>) -> (r: Vec<u8>)
        ensures
            r@ == crate::frame::wire_bytes(self@.packet_info, proto, payload@),
    {
        if self.packet_info {
            crate::frame::frame_packet(proto, payload)
        } else {
            copy_bytes(payload)
        }
    }
}

/// A device and a duplicate of it share mode, name and framing; only the
/// descriptor number differs.  A payload encoded for sending through the
/// duplicate is therefore byte-for-byte what the original would hand to
/// the kernel.
pub proof fn lemma_duplicate_sends_identically(
    orig: IfaceState,
    dup: IfaceState,
    proto: u16,
    payload: Seq<u8>,
)
    requires
        dup == (IfaceState { fd: dup.fd, ..orig }),
    ensures
        crate::frame::wire_bytes(dup.packet_info, proto, payload) == crate::frame::wire_bytes(
            orig.packet_info,
            proto,
            payload,
        ),
{
}

/// A fresh buffer holding the same bytes.
fn copy_bytes(src: &Vec<u8>) -> (r: Vec<u8>)
    ensures
        r@ == src@,
{
    let mut r: Vec<u8> = Vec::new();
    let mut j: usize = 0;
    while j < src.len()
        invariant
            j <= src@.len(),
            r@ == src@.take(j as int),
        decreases src@.len() - j,
    {
        r.push(src[j]);
        proof {
            assert(src@.take(j as int + 1) =~= src@.take(j as int).push(src@[j as int]));
        }
        j += 1;
    }
    proof {
        assert(src@.take(src@.len() as int) =~= src@);
    }
    r
}

/// The truncating delivery of one received packet into a caller's
/// buffer: as many of the packet's bytes as fit are copied to the front
/// of the buffer, the rest of the packet is discarded, the rest of the
/// buffer keeps its old contents, and the number of bytes copied is
/// returned.  A short buffer is not an error.
pub fn deliver_truncated(packet: &Vec<u8>, buf: &mut Vec<u8>) -> (n: usize)
    ensures
        packet@.len() <= old(buf)@.len() ==> n == packet@.len(),
        old(buf)@.len() < packet@.len() ==> n == old(buf)@.len(),
        final(buf)@.len() == old(buf)@.len(),
        forall|i: int| 0 <= i < n ==> final(buf)@[i] == packet@[i],
        forall|i: int| n <= i < old(buf)@.len() ==> final(buf)@[i] == old(buf)@[i],
{
    let n = if packet.len() <= buf.len() {
        packet.len()
    } else {
        buf.len()
    };
    let mut i: usize = 0;
    while i < n
        invariant
            i <= n,
            n <= packet@.len(),
            n <= buf@.len(),
            buf@.len() == old(buf)@.len(),
            forall|k: int| 0 <= k < i ==> buf@[k] == packet@[k],
            forall|k: int| i <= k < buf@.len() ==> buf@[k] == old(buf)@[k],
        decreases n - i,
    {
        buf.set(i, packet[i]);
        i += 1;
    }
    n
}

/// Reads the kernel-confirmed interface name out of the configuration
/// buffer the kernel filled: the bytes up to the first zero byte.
pub fn parse_confirmed_name(buf: &Vec<u8>) -> (name: Vec<u8>)
    ensures
        name@ == confirmed_name(buf@),
{
    let p = nul_position(buf);
    proof {
        lemma_nul_pos_first(buf@, 0);
    }
    let mut name: Vec<u8> = Vec::new();
    let mut j: usize = 0;
    while j < p
        invariant
            j <= p,
            p == spec_nul_pos(buf@, 0),
            p <= buf@.len(),
            name@ == buf@.take(j as int),
        decreases p - j,
    {
        name.push(buf[j]);
        proof {
            assert(buf@.take(j as int + 1) =~= buf@.take(j as int).push(buf@[j as int]));
        }
        j += 1;
    }
    name
}

} // verus!
