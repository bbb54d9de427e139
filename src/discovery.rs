//! Finding servers from their broadcast announcements.
use vstd::prelude::*;

verus! {

/// The service name that servers of this client announce.
pub const SERVICE_NAME: &'static str = "sensor_bridge";

/// How long discovery listens, in milliseconds.
pub const DISCOVERY_WINDOW_MS: u64 = 5000;

/// How long one read waits, in milliseconds, so that the window is checked
/// between reads.
pub const READ_TIMEOUT_MS: u64 = 100;

/// Port of the server taken when discovery finds none.
pub const FALLBACK_PORT: u16 = 10489;

/// An IP address: version 4 as its 32 bits, version 6 as its 128 bits, in
/// network order.
#[derive(Clone, Copy, Debug, PartialEq, Eq, Structural)]
pub enum HostAddr {
    V4(u32),
    V6(u128),
}

impl HostAddr {
    /// The version 4 address a.b.c.d.
    pub fn ipv4(a: u8, b: u8, c: u8, d: u8) -> (r: HostAddr)
        ensures
            r == HostAddr::V4((a * 0x1000000 + b * 0x10000 + c * 0x100 + d) as u32),
    {
        HostAddr::V4((a as u32) * 0x1000000 + (b as u32) * 0x10000 + (c as u32) * 0x100 + d as u32)
    }
}

/// A server found by discovery.
pub struct DiscoveredServer {
    pub ip: HostAddr,
    pub port: u16,
    pub service_name: String,
    pub version: String,
}

/// A server as the contracts see it.
pub type ServerView = (HostAddr, u16, Seq<char>, Seq<char>);

impl View for DiscoveredServer {
    type V = ServerView;

    open spec fn view(&self) -> ServerView {
        (self.ip, self.port, self.service_name@, self.version@)
    }
}

/// Whether `servers` holds a server at `ip` and `port`.
pub open spec fn has_addr(servers: Seq<ServerView>, ip: HostAddr, port: u16) -> bool {
    exists|i: int| 0 <= i < servers.len() && (#[trigger] servers[i]).0 == ip && servers[i].1 == port
}

/// No two servers share an address and a port.
pub open spec fn unique_addrs(servers: Seq<ServerView>) -> bool {
    forall|i: int, j: int|
        0 <= i < j < servers.len() ==> !(#[trigger] servers[i].0 == #[trigger] servers[j].0 && servers[i].1
            == servers[j].1)
}

/// The servers after an announcement of (`service_name`, `port`, `version`)
/// arrives from `ip`: kept when it names this service and is not known yet.
pub open spec fn after_announcement(
    servers: Seq<ServerView>,
    ip: HostAddr,
    service_name: Seq<char>,
    port: u16,
    version: Seq<char>,
) -> Seq<ServerView> {
    if service_name == SERVICE_NAME@ && !has_addr(servers, ip, port) {
        servers.push((ip, port, service_name, version))
    } else {
        servers
    }
}

/// The fields of the announcement that bincode reads from `bytes`, if any:
/// service name, server port and version.
pub uninterp spec fn announcement_of(bytes: Seq<u8>) -> Option<(Seq<char>, u16, Seq<char>)>;

/// Relies on `bincode::deserialize` into the fields of an announcement (a
/// struct of a string, a `u16` and a string, which bincode lays out as the
/// tuple of its fields): the outcome depends on the bytes alone.
#[verifier::external_body]
fn decode_announcement(bytes: &[u8]) -> (r: Result<(String, u16, String), bincode::Error>)
    ensures
        match r {
            Ok(a) => announcement_of(bytes@) == Some((a.0@, a.1, a.2@)),
            Err(_) => announcement_of(bytes@) is None,
        },
{
    bincode::deserialize(bytes)
}

/// The servers after the datagram `bytes` arrives from `ip`.
pub open spec fn after_datagram(servers: Seq<ServerView>, ip: HostAddr, bytes: Seq<u8>) -> Seq<ServerView> {
    match announcement_of(bytes) {
        Some((name, port, version)) => after_announcement(servers, ip, name, port, version),
        None => servers,
    }
}

/// The servers found so far, each address and port once, in the order found.
pub struct Discovery {
    servers: Vec<DiscoveredServer>,
}

impl View for Discovery {
    type V = Seq<ServerView>;

    closed spec fn view(&self) -> Seq<ServerView> {
        self.servers@.map_values(|s: DiscoveredServer| s@)
    }
}

impl Discovery {
    pub open spec fn well_formed(&self) -> bool {
        unique_addrs(self@)
    }

    pub fn new() -> (d: Self)
        ensures
            d.well_formed(),
            d@ == Seq::<ServerView>::empty(),
    {
        let d = Discovery { servers: Vec::new() };
        assert(d@ =~= Seq::<ServerView>::empty());
        d
    }

    fn knows(&self, ip: HostAddr, port: u16) -> (r: bool)
        ensures
            r == has_addr(self@, ip, port),
    {
        let mut i: usize = 0;
        while i < self.servers.len()
            invariant
                i <= self.servers@.len(),
                self@.len() == self.servers@.len(),
                forall|k: int| 0 <= k < i ==> !(self@[k].0 == ip && self@[k].1 == port),
            decreases self.servers.len() - i,
        {
            if self.servers[i].ip == ip && self.servers[i].port == port {
                assert(self@[i as int].0 == ip && self@[i as int].1 == port);
                return true;
            }
            i = i + 1;
        }
        false
    }

    /// Takes in an announcement from `ip`. Returns whether it added a server.
    pub fn offer(&mut self, ip: HostAddr, service_name: String, port: u16, version: String) -> (added: bool)
        ensures
            old(self).well_formed() ==> final(self).well_formed(),
            final(self)@ == after_announcement(old(self)@, ip, service_name@, port, version@),
            added == (final(self)@.len() > old(self)@.len()),
    {
        let expected = String::from_str(SERVICE_NAME);
        if service_name != expected || self.knows(ip, port) {
            return false;
        }
        let ghost before = self@;
        let server = DiscoveredServer { ip, port, service_name, version };
        self.servers.push(server);
        assert(self@ =~= before.push(server@));
        true
    }

    /// Takes in one datagram from `ip`; one that is no announcement is
    /// dropped. Returns whether it added a server.
    pub fn receive_datagram(&mut self, ip: HostAddr, bytes: &[u8]) -> (added: bool)
        ensures
            old(self).well_formed() ==> final(self).well_formed(),
            final(self)@ == after_datagram(old(self)@, ip, bytes@),
            added == (final(self)@.len() > old(self)@.len()),
    {
        match decode_announcement(bytes) {
            Ok((name, port, version)) => self.offer(ip, name, port, version),
            Err(_) => false,
        }
    }

    pub fn len(&self) -> (r: usize)
        ensures
            r == self@.len(),
    {
        self.servers.len()
    }

    /// The servers found, in the order found.
    pub fn servers(&self) -> (r: &[DiscoveredServer])
        ensures
            r@.map_values(|s: DiscoveredServer| s@) == self@,
    {
        self.servers.as_slice()
    }

    /// The address and port to connect to: the first server found, or the
    /// local host on the fallback port when none was found.
    pub fn target(&self) -> (r: (HostAddr, u16))
        ensures
            self@.len() > 0 ==> r == (self@[0].0, self@[0].1),
            self@.len() == 0 ==> r == (HostAddr::V4(0x7f000001), FALLBACK_PORT),
    {
        if self.servers.len() > 0 {
            (self.servers[0].ip, self.servers[0].port)
        } else {
            (HostAddr::V4(0x7f000001), FALLBACK_PORT)
        }
    }
}

/// How one read of the discovery socket ended.
#[derive(Clone, Copy, Debug, PartialEq, Eq, Structural)]
pub enum ReadOutcome {
    /// A datagram arrived.
    Datagram,
    /// The short read timeout passed with nothing.
    TimedOut,
    /// The socket failed otherwise.
    Failed,
}

/// Whether discovery reads again after a read that ended as `outcome`,
/// `elapsed_ms` after it started: while the window lasts and the socket works.
pub fn keep_listening(elapsed_ms: u64, outcome: ReadOutcome) -> (r: bool)
    ensures
        r == (elapsed_ms < DISCOVERY_WINDOW_MS && outcome != ReadOutcome::Failed),
{
    elapsed_ms < DISCOVERY_WINDOW_MS && outcome != ReadOutcome::Failed
}

/// The same datagram received twice from the same address gives the same
/// servers as receiving it once: one entry for its address and port.
pub proof fn lemma_repeated_datagram_counted_once(servers: Seq<ServerView>, ip: HostAddr, bytes: Seq<u8>)
    requires
        unique_addrs(servers),
    ensures
        after_datagram(after_datagram(servers, ip, bytes), ip, bytes) == after_datagram(servers, ip, bytes),
        unique_addrs(after_datagram(servers, ip, bytes)),
{
    if let Some((name, port, version)) = announcement_of(bytes) {
        let once = after_datagram(servers, ip, bytes);
        if name == SERVICE_NAME@ && !has_addr(servers, ip, port) {
            assert(once[servers.len() as int].0 == ip && once[servers.len() as int].1 == port);
            assert(has_addr(once, ip, port));
            assert forall|i: int, j: int| 0 <= i < j < once.len() implies !(#[trigger] once[i].0
                == #[trigger] once[j].0 && once[i].1 == once[j].1) by {
                if j == servers.len() {
                    if once[i].0 == ip && once[i].1 == port {
                        assert(servers[i] == once[i]);
                        assert(has_addr(servers, ip, port));
                    }
                } else {
                    assert(servers[i] == once[i] && servers[j] == once[j]);
                }
            }
        }
    }
}

} // verus!
