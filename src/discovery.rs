//! TCP connect-scan of a network: which addresses and ports are probed, how
//! the outcome of each probe decides whether a host is alive, and how the
//! per-host results are merged into one scan report.
//!
//! The probes themselves (socket connects raced against a timer) are made by
//! the caller; this module plans the work and folds the outcomes.
use crate::ip::{ip_network_of, parse_network, IpAddress, IpNet};
use crate::models::Protocol;
use crate::text::{chars_of, contains_char};
use vstd::prelude::*;

verus! {

/// Milliseconds a single connect attempt may take before the port counts
/// as unreachable.
pub const DEFAULT_PROBE_TIMEOUT_MS: u64 = 800;

/// Hosts scanned at the same time.
pub const DEFAULT_HOST_CONCURRENCY: usize = 64;

/// Connect attempts in flight at the same time for one host.
pub const DEFAULT_PORT_CONCURRENCY: usize = 8;

/// SSH, HTTP, HTTPS and RDP.
pub open spec fn default_ports() -> Seq<u16> {
    seq![22, 80, 443, 3389]
}

/// Twenty-four common service ports.
pub open spec fn extended_ports() -> Seq<u16> {
    seq![
        21, 22, 23, 25, 53, 80, 110, 135, 139, 143, 443, 445, 993, 995, 1433, 1521, 3306, 3389,
        5432, 5900, 6379, 8080, 8443, 27017,
    ]
}

/// Both fixed port lists hold each port once.
pub proof fn lemma_fixed_ports_distinct()
    ensures
        default_ports().no_duplicates(),
        extended_ports().no_duplicates(),
{
    let d = default_ports();
    let e = extended_ports();
    assert forall|i: int, j: int| 0 <= i < j < d.len() implies d[i] < d[j] by {}
    assert forall|i: int, j: int| 0 <= i < j < e.len() implies e[i] < e[j] by {}
}

/// The ports probed on each host: the caller's list exactly as given
/// (whatever `extended` says), else the extended set when asked for, else
/// the default set.
pub open spec fn chosen_ports(ports: Option<Seq<u16>>, extended: Option<bool>) -> Seq<u16> {
    match ports {
        Some(p) => p,
        None => if extended == Some(true) {
            extended_ports()
        } else {
            default_ports()
        },
    }
}

/// The default port list: 22, 80, 443, 3389.
pub fn get_default_scan_ports() -> (r: Vec<u16>)
    ensures
        r@ == default_ports(),
        r@.no_duplicates(),
{
    proof {
        lemma_fixed_ports_distinct();
    }
    let r = vec![22u16, 80, 443, 3389];
    assert(r@ =~= default_ports());
    r
}

/// The extended port list of 24 common service ports.
pub fn get_extended_scan_ports() -> (r: Vec<u16>)
    ensures
        r@ == extended_ports(),
        r@.len() == 24,
        r@.no_duplicates(),
{
    proof {
        lemma_fixed_ports_distinct();
    }
    let r = vec![
        21u16, 22, 23, 25, 53, 80, 110, 135, 139, 143, 443, 445, 993, 995, 1433, 1521, 3306, 3389,
        5432, 5900, 6379, 8080, 8443, 27017,
    ];
    assert(r@ =~= extended_ports());
    r
}

/// Picks the port set of a scan request; a list given by the caller is used
/// as it stands, and each fixed set holds every port once.
pub fn select_ports(ports: Option<Vec<u16>>, extended: Option<bool>) -> (r: Vec<u16>)
    ensures
        r@ == chosen_ports(
            match ports {
                Some(p) => Some(p@),
                None => None,
            },
            extended,
        ),
        ports is None ==> r@.no_duplicates(),
{
    proof {
        lemma_fixed_ports_distinct();
    }
    match ports {
        Some(p) => p,
        None => {
            let ext = match extended {
                Some(b) => b,
                None => false,
            };
            if ext {
                get_extended_scan_ports()
            } else {
                get_default_scan_ports()
            }
        },
    }
}

/// How one connect attempt ended.
#[derive(Debug, Clone, Copy, PartialEq, Eq, Structural)]
pub enum ProbeOutcome {
    /// The connection was accepted within the timeout.
    Open,
    /// The host actively refused the connection.
    Closed,
    /// No answer before the deadline, or any other I/O failure.
    Unreachable,
}

/// Classifies a connect attempt: `connected` when it succeeded within the
/// timeout, `refused` when the host answered with a refusal.
pub fn classify_probe(connected: bool, refused: bool) -> (r: ProbeOutcome)
    ensures
        connected ==> r == ProbeOutcome::Open,
        !connected && refused ==> r == ProbeOutcome::Closed,
        !connected && !refused ==> r == ProbeOutcome::Unreachable,
{
    if connected {
        ProbeOutcome::Open
    } else if refused {
        ProbeOutcome::Closed
    } else {
        ProbeOutcome::Unreachable
    }
}

/// One open port of a scanned host.
#[derive(Debug, Clone, Copy, PartialEq, Eq, Structural)]
pub struct ScannedPort {
    pub port: u16,
    pub protocol: Protocol,
}

/// A host of the scan with the ports found open on it, in probe order.
#[derive(Debug, Clone)]
pub struct ScannedHost {
    pub ip: IpAddress,
    pub open_ports: Vec<ScannedPort>,
}

impl ScannedHost {
    /// The host as its address and the numbers of its open ports.
    pub open spec fn view(self) -> (IpAddress, Seq<u16>) {
        (self.ip, self.open_ports@.map_values(|p: ScannedPort| p.port))
    }

    /// Each open port is listed once and is one of `ports`.
    pub open spec fn ports_within(self, ports: Seq<u16>) -> bool {
        &&& self.view().1.no_duplicates()
        &&& forall|m: int| 0 <= m < self.open_ports@.len() ==> ports.contains(
            #[trigger] self.open_ports@[m].port,
        )
    }

    /// Every open port of a TCP connect-scan is a TCP port.
    pub open spec fn all_tcp(self) -> bool {
        forall|k: int| 0 <= k < self.open_ports@.len() ==> #[trigger] self.open_ports@[k].protocol
            == Protocol::Tcp
    }
}

/// The ports among `ports` whose probe came back open, in probe order, each
/// listed once.
pub open spec fn open_ports_of(ports: Seq<u16>, outcomes: Seq<ProbeOutcome>) -> Seq<u16>
    decreases ports.len(),
{
    if ports.len() == 0 {
        seq![]
    } else {
        let rest = open_ports_of(ports.drop_last(), outcomes);
        if outcomes[ports.len() - 1] == ProbeOutcome::Open && !rest.contains(ports.last()) {
            rest.push(ports.last())
        } else {
            rest
        }
    }
}

/// Whether some probe of port `p` among `ports` came back open.
pub open spec fn opened(ports: Seq<u16>, outcomes: Seq<ProbeOutcome>, p: u16) -> bool {
    exists|j: int| 0 <= j < ports.len() && ports[j] == p && outcomes[j] == ProbeOutcome::Open
}

/// The open ports of a host are exactly those with an open probe, each once.
pub proof fn lemma_open_ports_members(ports: Seq<u16>, outcomes: Seq<ProbeOutcome>)
    requires
        ports.len() <= outcomes.len(),
    ensures
        open_ports_of(ports, outcomes).no_duplicates(),
        forall|p: u16| open_ports_of(ports, outcomes).contains(p) <==> opened(ports, outcomes, p),
    decreases ports.len(),
{
    if ports.len() > 0 {
        let t = ports.drop_last();
        let n = ports.len() - 1;
        lemma_open_ports_members(t, outcomes);
        let rest = open_ports_of(t, outcomes);
        let cur = open_ports_of(ports, outcomes);
        assert forall|p: u16| opened(ports, outcomes, p) <==> opened(t, outcomes, p) || (p
            == ports[n] && outcomes[n] == ProbeOutcome::Open) by {
            if opened(ports, outcomes, p) {
                let j = choose|j: int|
                    0 <= j < ports.len() && ports[j] == p && outcomes[j] == ProbeOutcome::Open;
                if j < n {
                    assert(t[j] == p);
                }
            }
            if opened(t, outcomes, p) {
                let j = choose|j: int|
                    0 <= j < t.len() && t[j] == p && outcomes[j] == ProbeOutcome::Open;
                assert(ports[j] == p);
            }
        }
        if outcomes[n] == ProbeOutcome::Open && !rest.contains(ports.last()) {
            assert(cur == rest.push(ports[n]));
            assert forall|p: u16| cur.contains(p) <==> rest.contains(p) || p == ports[n] by {
                assert(cur[rest.len() as int] == ports[n]);
                if cur.contains(p) && p != ports[n] {
                    let i = choose|i: int| 0 <= i < cur.len() && cur[i] == p;
                    assert(rest[i] == p);
                }
                if rest.contains(p) {
                    let i = choose|i: int| 0 <= i < rest.len() && rest[i] == p;
                    assert(cur[i] == p);
                }
            }
        }
    }
}

/// Whether any probe of a host came back open.
pub open spec fn any_open(outcomes: Seq<ProbeOutcome>) -> bool {
    exists|j: int| 0 <= j < outcomes.len() && outcomes[j] == ProbeOutcome::Open
}

/// The report entry of one host: present exactly when a port is open.
pub open spec fn host_entry(ip: IpAddress, ports: Seq<u16>, outcomes: Seq<ProbeOutcome>) -> Option<
    (IpAddress, Seq<u16>),
> {
    if any_open(outcomes) {
        Some((ip, open_ports_of(ports, outcomes)))
    } else {
        None
    }
}

/// The alive hosts among the first `n` targets, in target order.
pub open spec fn alive_prefix(
    targets: Seq<IpAddress>,
    ports: Seq<u16>,
    outcomes: Seq<Seq<ProbeOutcome>>,
    n: int,
) -> Seq<(IpAddress, Seq<u16>)>
    decreases n,
{
    if n <= 0 {
        seq![]
    } else {
        let rest = alive_prefix(targets, ports, outcomes, n - 1);
        match host_entry(targets[n - 1], ports, outcomes[n - 1]) {
            Some(e) => rest.push(e),
            None => rest,
        }
    }
}

/// The alive hosts of a whole scan, in target order.
pub open spec fn alive_hosts(
    targets: Seq<IpAddress>,
    ports: Seq<u16>,
    outcomes: Seq<Seq<ProbeOutcome>>,
) -> Seq<(IpAddress, Seq<u16>)> {
    alive_prefix(targets, ports, outcomes, targets.len() as int)
}

/// A host has an open port in the report exactly when one of its probes
/// came back open.
pub proof fn lemma_open_ports_nonempty(ports: Seq<u16>, outcomes: Seq<ProbeOutcome>)
    requires
        ports.len() == outcomes.len(),
    ensures
        open_ports_of(ports, outcomes).len() > 0 <==> any_open(outcomes),
        open_ports_of(ports, outcomes).len() <= ports.len(),
    decreases ports.len(),
{
    if ports.len() > 0 {
        let n = ports.len() - 1;
        lemma_open_ports_nonempty(ports.drop_last(), outcomes.take(n as int));
        lemma_open_ports_prefix(ports.drop_last(), outcomes, outcomes.take(n as int));
        if any_open(outcomes) && outcomes[n as int] != ProbeOutcome::Open {
            let j = choose|j: int| 0 <= j < outcomes.len() && outcomes[j] == ProbeOutcome::Open;
            assert(outcomes.take(n as int)[j] == ProbeOutcome::Open);
        }
        if any_open(outcomes.take(n as int)) {
            let j = choose|j: int|
                0 <= j < outcomes.take(n as int).len() && outcomes.take(n as int)[j]
                    == ProbeOutcome::Open;
            assert(outcomes[j] == ProbeOutcome::Open);
        }
    }
}

/// Only the outcomes of the probed ports matter.
proof fn lemma_open_ports_prefix(ports: Seq<u16>, a: Seq<ProbeOutcome>, b: Seq<ProbeOutcome>)
    requires
        ports.len() <= a.len(),
        ports.len() <= b.len(),
        forall|j: int| 0 <= j < ports.len() ==> a[j] == b[j],
    ensures
        open_ports_of(ports, a) == open_ports_of(ports, b),
    decreases ports.len(),
{
    if ports.len() > 0 {
        lemma_open_ports_prefix(ports.drop_last(), a, b);
    }
}

/// Folds the probe outcomes of one host: the host is returned exactly when
/// at least one of its ports answered open, with those ports in probe order.
pub fn host_result(ip: IpAddress, ports: &Vec<u16>, outcomes: &Vec<ProbeOutcome>) -> (r: Option<
    ScannedHost,
>)
    requires
        ports@.len() == outcomes@.len(),
    ensures
        r is Some <==> any_open(outcomes@),
        r matches Some(h) ==> h.all_tcp() && Some(h.view()) == host_entry(ip, ports@, outcomes@),
        r matches Some(h) ==> h.ip == ip && h.open_ports@.len() > 0 && h.ports_within(ports@),
{
    let open = open_ports(ip, ports, outcomes);
    proof {
        lemma_open_ports_nonempty(ports@, outcomes@);
    }
    if open.open_ports.len() > 0 {
        Some(open)
    } else {
        None
    }
}

/// The host with every port whose probe came back open, in probe order;
/// the list is empty when none did.
pub fn open_ports(ip: IpAddress, ports: &Vec<u16>, outcomes: &Vec<ProbeOutcome>) -> (r: ScannedHost)
    requires
        ports@.len() == outcomes@.len(),
    ensures
        r.ip == ip,
        r.view().1 == open_ports_of(ports@, outcomes@),
        r.view().1.no_duplicates(),
        forall|p: u16| r.view().1.contains(p) <==> opened(ports@, outcomes@, p),
        r.ports_within(ports@),
        r.all_tcp(),
{
    let mut found: Vec<ScannedPort> = Vec::new();
    let mut i: usize = 0;
    while i < ports.len()
        invariant
            i <= ports@.len() == outcomes@.len(),
            found@.map_values(|p: ScannedPort| p.port) == open_ports_of(
                ports@.take(i as int),
                outcomes@,
            ),
            forall|k: int| 0 <= k < found@.len() ==> #[trigger] found@[k].protocol == Protocol::Tcp,
        decreases ports@.len() - i,
    {
        assert(ports@.take(i as int + 1).drop_last() =~= ports@.take(i as int));
        if outcomes[i] == ProbeOutcome::Open && !listed(&found, ports[i]) {
            found.push(ScannedPort { port: ports[i], protocol: Protocol::Tcp });
            assert(found@.map_values(|p: ScannedPort| p.port) =~= open_ports_of(
                ports@.take(i as int),
                outcomes@,
            ).push(ports@[i as int]));
        }
        i = i + 1;
    }
    assert(ports@.take(ports@.len() as int) =~= ports@);
    let r = ScannedHost { ip, open_ports: found };
    proof {
        lemma_open_ports_members(ports@, outcomes@);
        assert forall|m: int| 0 <= m < r.open_ports@.len() implies ports@.contains(
            #[trigger] r.open_ports@[m].port,
        ) by {
            let p = r.open_ports@[m].port;
            assert(r.view().1[m] == p);
            assert(r.view().1.contains(p));
            assert(opened(ports@, outcomes@, p));
            let j = choose|j: int|
                0 <= j < ports@.len() && ports@[j] == p && outcomes@[j] == ProbeOutcome::Open;
            assert(ports@[j] == p);
        }
    }
    r
}

/// Whether `port` is already among `found`.
fn listed(found: &Vec<ScannedPort>, port: u16) -> (r: bool)
    ensures
        r == found@.map_values(|p: ScannedPort| p.port).contains(port),
{
    let ghost seen = found@.map_values(|p: ScannedPort| p.port);
    let mut k: usize = 0;
    while k < found.len()
        invariant
            k <= found@.len(),
            seen == found@.map_values(|p: ScannedPort| p.port),
            forall|j: int| 0 <= j < k ==> seen[j] != port,
        decreases found@.len() - k,
    {
        if found[k].port == port {
            assert(seen[k as int] == port);
            return true;
        }
        k = k + 1;
    }
    false
}

/// Why a scan could not start.
#[derive(Debug, Clone)]
pub enum ScanError {
    /// The target is not a valid CIDR network or address.
    InvalidTarget(String),
    /// The network holds more addresses than this machine can list.
    TargetTooLarge(String),
}

impl ScanError {
    /// A message for the user, naming the offending target.
    pub fn message(&self) -> (r: String)
        ensures
            r@ == self.spec_message(),
    {
        match self {
            ScanError::InvalidTarget(t) => String::from_str("Invalid CIDR or address: ").concat(t.as_str()),
            ScanError::TargetTooLarge(t) => String::from_str("Network too large to scan: ").concat(t.as_str()),
        }
    }

    pub open spec fn spec_message(self) -> Seq<char> {
        match self {
            ScanError::InvalidTarget(t) => "Invalid CIDR or address: "@ + t@,
            ScanError::TargetTooLarge(t) => "Network too large to scan: "@ + t@,
        }
    }
}

/// The work of one scan: every address to probe and the ports probed on each.
#[derive(Debug, Clone)]
pub struct ScanPlan {
    pub targets: Vec<IpAddress>,
    pub ports: Vec<u16>,
}

/// Plans the scan of a parsed network: all of its addresses, network and
/// broadcast included, with the chosen ports.
pub fn plan_for_network(net: IpNet, cidr: &str, ports: Option<Vec<u16>>, extended: Option<bool>) -> (r:
    Result<ScanPlan, ScanError>)
    requires
        net.wf(),
    ensures
        r is Err <==> net.size() > usize::MAX,
        r matches Err(e) ==> (e matches ScanError::TargetTooLarge(t) && t@ == cidr@),
        r matches Ok(p) ==> {
            &&& p.targets@ == net.addresses()
            &&& p.targets@.len() == net.size()
            &&& p.targets@.no_duplicates()
            &&& p.ports@ == chosen_ports(
                match ports {
                    Some(v) => Some(v@),
                    None => None,
                },
                extended,
            )
        },
{
    match net.host_count() {
        None => Err(ScanError::TargetTooLarge(String::from_str(cidr))),
        Some(n) => {
            let targets = net.expand(n);
            proof {
                net.lemma_addresses_distinct();
            }
            Ok(ScanPlan { targets, ports: select_ports(ports, extended) })
        },
    }
}

/// Plans the scan of a CIDR string: an invalid string is refused as a whole,
/// before anything is probed.
pub fn plan_scan(cidr: &str, ports: Option<Vec<u16>>, extended: Option<bool>) -> (r: Result<
    ScanPlan,
    ScanError,
>)
    ensures
        ip_network_of(cidr@) is None <==> r matches Err(ScanError::InvalidTarget(_)),
        r matches Err(ScanError::InvalidTarget(t)) ==> t@ == cidr@,
        ip_network_of(cidr@) matches Some(net) ==> {
            &&& r is Err <==> net.size() > usize::MAX
            &&& r matches Err(e) ==> (e matches ScanError::TargetTooLarge(t) && t@ == cidr@)
            &&& r matches Ok(p) ==> {
                &&& p.targets@ == net.addresses()
                &&& p.targets@.len() == net.size()
                &&& p.targets@.no_duplicates()
                &&& p.ports@ == chosen_ports(
                    match ports {
                        Some(v) => Some(v@),
                        None => None,
                    },
                    extended,
                )
            }
        },
{
    match parse_network(cidr) {
        None => Err(ScanError::InvalidTarget(String::from_str(cidr))),
        Some(net) => plan_for_network(net, cidr, ports, extended),
    }
}

/// The number of addresses in a CIDR range, where it parses and the count
/// fits in a `usize`.
pub fn estimate_host_count(cidr: &str) -> (r: Option<usize>)
    ensures
        match ip_network_of(cidr@) {
            None => r is None,
            Some(net) => (r is None <==> net.size() > usize::MAX) && (r matches Some(n) ==> n
                == net.size()),
        },
{
    match parse_network(cidr) {
        None => None,
        Some(net) => net.host_count(),
    }
}

/// The address of a single-host scan: a bare address, with no `/` prefix
/// length of any kind.
pub fn parse_single_host(ip: &str) -> (r: Result<IpAddress, ScanError>)
    ensures
        r is Ok <==> !ip@.contains('/') && (ip_network_of(ip@) matches Some(net) && net.prefix
            == net.addr.bits()),
        r matches Ok(a) ==> (ip_network_of(ip@) matches Some(net) && a == net.addr),
        r matches Err(e) ==> (e matches ScanError::InvalidTarget(t) && t@ == ip@),
{
    let v = chars_of(ip);
    if contains_char(&v, 0, v.len(), '/') {
        assert(v@.subrange(0, v@.len() as int) =~= ip@);
        return Err(ScanError::InvalidTarget(String::from_str(ip)));
    }
    assert(v@.subrange(0, v@.len() as int) =~= ip@);
    match parse_network(ip) {
        Some(net) => {
            let full: u8 = match net.addr {
                IpAddress::V4(_) => 32,
                IpAddress::V6(_) => 128,
            };
            if net.prefix == full {
                Ok(net.addr)
            } else {
                Err(ScanError::InvalidTarget(String::from_str(ip)))
            }
        },
        None => Err(ScanError::InvalidTarget(String::from_str(ip))),
    }
}

/// A scan request: the target range and, optionally, the ports to probe or
/// the wish for the extended port set.
#[derive(Debug, Clone)]
pub struct ScanNetworkRequest {
    /// CIDR notation target (e.g., "192.168.1.0/24")
    pub cidr: String,
    /// Custom ports to scan (defaults to 22, 80, 443, 3389)
    pub ports: Option<Vec<u16>>,
    /// Use the extended port list (24 common ports)
    pub extended: Option<bool>,
}

/// The report of a finished scan.
#[derive(Debug, Clone)]
pub struct ScanNetworkResponse {
    /// Whether the scan ran
    pub success: bool,
    /// Hosts with at least one open port
    pub hosts: Vec<ScannedHost>,
    /// Number of addresses probed
    pub hosts_scanned: usize,
    /// Number of hosts with an open port
    pub hosts_alive: usize,
    /// Ports probed on each host
    pub ports_scanned: Vec<u16>,
    /// Wall-clock time from expansion to the last probe, in milliseconds
    pub duration_ms: u64,
}

impl ScanNetworkResponse {
    /// The reported hosts as addresses with their open ports.
    pub open spec fn host_views(self) -> Seq<(IpAddress, Seq<u16>)> {
        self.hosts@.map_values(|h: ScannedHost| h.view())
    }
}

/// Whether `outcomes` holds one outcome per planned port for each target.
pub open spec fn outcomes_fit(plan: ScanPlan, outcomes: Seq<Vec<ProbeOutcome>>) -> bool {
    &&& outcomes.len() == plan.targets@.len()
    &&& forall|i: int| 0 <= i < outcomes.len() ==> (#[trigger] outcomes[i])@.len() == plan.ports@.len()
}

/// The outcome matrix as sequences.
pub open spec fn outcome_views(outcomes: Seq<Vec<ProbeOutcome>>) -> Seq<Seq<ProbeOutcome>> {
    outcomes.map_values(|o: Vec<ProbeOutcome>| o@)
}

/// Merges the probe outcomes of a whole scan, `outcomes[i][j]` being that of
/// port `plan.ports[j]` on `plan.targets[i]`. Every target counts as scanned;
/// exactly the targets with an open port are reported, in target order.
pub fn finish_scan(plan: ScanPlan, outcomes: &Vec<Vec<ProbeOutcome>>, duration_ms: u64) -> (r:
    ScanNetworkResponse)
    requires
        outcomes_fit(plan, outcomes@),
    ensures
        r.success,
        r.hosts_scanned == plan.targets@.len(),
        r.host_views() == alive_hosts(plan.targets@, plan.ports@, outcome_views(outcomes@)),
        r.hosts_alive == r.hosts@.len(),
        forall|k: int| 0 <= k < r.hosts@.len() ==> (#[trigger] r.hosts@[k]).open_ports@.len() > 0,
        forall|k: int|
            0 <= k < r.hosts@.len() ==> (#[trigger] r.hosts@[k]).all_tcp() && r.hosts@[k].ports_within(
                r.ports_scanned@,
            ),
        forall|k: int| 0 <= k < r.hosts@.len() ==> plan.targets@.contains((#[trigger] r.hosts@[k]).ip),
        plan.targets@.no_duplicates() ==> forall|k1: int, k2: int|
            0 <= k1 < k2 < r.hosts@.len() ==> (#[trigger] r.hosts@[k1]).ip != (#[trigger] r.hosts@[k2]).ip,
        r.ports_scanned@ == plan.ports@,
        r.duration_ms == duration_ms,
{
    let ghost views = outcome_views(outcomes@);
    let mut hosts: Vec<ScannedHost> = Vec::new();
    let mut i: usize = 0;
    while i < plan.targets.len()
        invariant
            outcomes_fit(plan, outcomes@),
            views == outcome_views(outcomes@),
            i <= plan.targets@.len(),
            hosts@.map_values(|h: ScannedHost| h.view()) == alive_prefix(
                plan.targets@,
                plan.ports@,
                views,
                i as int,
            ),
            forall|k: int| 0 <= k < hosts@.len() ==> (#[trigger] hosts@[k]).open_ports@.len() > 0,
            forall|k: int|
                0 <= k < hosts@.len() ==> (#[trigger] hosts@[k]).all_tcp() && hosts@[k].ports_within(
                    plan.ports@,
                ),
            forall|k: int|
                0 <= k < hosts@.len() ==> exists|j: int|
                    0 <= j < i && plan.targets@[j] == (#[trigger] hosts@[k]).ip,
            plan.targets@.no_duplicates() ==> forall|k1: int, k2: int|
                0 <= k1 < k2 < hosts@.len() ==> (#[trigger] hosts@[k1]).ip != (#[trigger] hosts@[k2]).ip,
        decreases plan.targets@.len() - i,
    {
        assert(outcomes@[i as int]@.len() == plan.ports@.len());
        let entry = host_result(plan.targets[i], &plan.ports, &outcomes[i]);
        assert(views[i as int] == outcomes@[i as int]@);
        match entry {
            Some(h) => {
                proof {
                    if plan.targets@.no_duplicates() {
                        assert forall|k: int| 0 <= k < hosts@.len() implies (#[trigger] hosts@[k]).ip
                            != h.ip by {
                            let j = choose|j: int| 0 <= j < i && plan.targets@[j] == hosts@[k].ip;
                        }
                    }
                }
                hosts.push(h);
                assert(hosts@.map_values(|h: ScannedHost| h.view()) =~= alive_prefix(
                    plan.targets@,
                    plan.ports@,
                    views,
                    i as int,
                ).push(h.view()));
            },
            None => {},
        }
        i = i + 1;
    }
    let n = hosts.len();
    proof {
        assert forall|k: int| 0 <= k < hosts@.len() implies plan.targets@.contains(
            (#[trigger] hosts@[k]).ip,
        ) by {
            let j = choose|j: int| 0 <= j < i && plan.targets@[j] == hosts@[k].ip;
        }
    }
    ScanNetworkResponse {
        success: true,
        hosts,
        hosts_scanned: plan.targets.len(),
        hosts_alive: n,
        ports_scanned: plan.ports,
        duration_ms,
    }
}

/// Splits `total` jobs into consecutive batches of at most `limit` jobs,
/// so that no more than `limit` run at once: `[start, end)` ranges that
/// cover `0..total` in order, none empty.
pub fn plan_batches(total: usize, limit: usize) -> (r: Vec<(usize, usize)>)
    requires
        limit > 0,
    ensures
        total == 0 ==> r@.len() == 0,
        total > 0 ==> r@.len() > 0 && r@[0].0 == 0 && r@.last().1 == total,
        forall|k: int|
            0 <= k < r@.len() ==> (#[trigger] r@[k]).0 < r@[k].1 && r@[k].1 - r@[k].0 <= limit,
        forall|k: int| 0 < k < r@.len() ==> (#[trigger] r@[k]).0 == r@[k - 1].1,
{
    let mut out: Vec<(usize, usize)> = Vec::new();
    let mut start: usize = 0;
    while start < total
        invariant
            start <= total,
            limit > 0,
            out@.len() == 0 ==> start == 0,
            out@.len() > 0 ==> out@[0].0 == 0 && out@.last().1 == start,
            forall|k: int|
                0 <= k < out@.len() ==> (#[trigger] out@[k]).0 < out@[k].1 && out@[k].1 - out@[k].0
                    <= limit,
            forall|k: int| 0 < k < out@.len() ==> (#[trigger] out@[k]).0 == out@[k - 1].1,
        decreases total - start,
    {
        let end: usize = if total - start > limit {
            start + limit
        } else {
            total
        };
        out.push((start, end));
        start = end;
    }
    out
}

/// Tuning of the scanner: the ports probed, the connect timeout, and the two
/// fan-out bounds (hosts at once, connects at once per host).
#[derive(Debug, Clone)]
pub struct TcpScannerConfig {
    pub ports: Vec<u16>,
    pub timeout_ms: u64,
    pub host_concurrency: usize,
    pub port_concurrency: usize,
}

impl Default for TcpScannerConfig {
    fn default() -> (r: Self)
        ensures
            r.ports@ == default_ports(),
            r.timeout_ms == DEFAULT_PROBE_TIMEOUT_MS,
            r.host_concurrency == DEFAULT_HOST_CONCURRENCY,
            r.port_concurrency == DEFAULT_PORT_CONCURRENCY,
    {
        TcpScannerConfig {
            ports: get_default_scan_ports(),
            timeout_ms: DEFAULT_PROBE_TIMEOUT_MS,
            host_concurrency: DEFAULT_HOST_CONCURRENCY,
            port_concurrency: DEFAULT_PORT_CONCURRENCY,
        }
    }
}

/// A host is reported exactly when one of its ports answered open: every
/// reported host has an open port, every target with an open port is
/// reported with those ports, and, the targets being distinct, a target
/// with no open port is never reported.
pub proof fn lemma_alive_iff_open(
    targets: Seq<IpAddress>,
    ports: Seq<u16>,
    outcomes: Seq<Seq<ProbeOutcome>>,
)
    requires
        outcomes.len() == targets.len(),
        forall|i: int| 0 <= i < outcomes.len() ==> (#[trigger] outcomes[i]).len() == ports.len(),
    ensures
        forall|k: int|
            0 <= k < alive_hosts(targets, ports, outcomes).len() ==> (#[trigger] alive_hosts(
                targets,
                ports,
                outcomes,
            )[k]).1.len() > 0,
        forall|i: int|
            0 <= i < targets.len() && any_open(#[trigger] outcomes[i]) ==> alive_hosts(
                targets,
                ports,
                outcomes,
            ).contains((targets[i], open_ports_of(ports, outcomes[i]))),
        targets.no_duplicates() ==> forall|i: int|
            0 <= i < targets.len() && !any_open(#[trigger] outcomes[i]) ==> forall|k: int|
                0 <= k < alive_hosts(targets, ports, outcomes).len() ==> (#[trigger] alive_hosts(
                    targets,
                    ports,
                    outcomes,
                )[k]).0 != targets[i],
{
    lemma_alive_prefix(targets, ports, outcomes, targets.len() as int);
}

/// Whether `a` is one of the first `n` targets, with an open port.
pub open spec fn open_target_before(
    targets: Seq<IpAddress>,
    outcomes: Seq<Seq<ProbeOutcome>>,
    n: int,
    a: IpAddress,
) -> bool {
    exists|i: int| 0 <= i < n && a == targets[i] && any_open(outcomes[i])
}

proof fn lemma_alive_prefix(
    targets: Seq<IpAddress>,
    ports: Seq<u16>,
    outcomes: Seq<Seq<ProbeOutcome>>,
    n: int,
)
    requires
        0 <= n <= targets.len(),
        outcomes.len() == targets.len(),
        forall|i: int| 0 <= i < outcomes.len() ==> (#[trigger] outcomes[i]).len() == ports.len(),
    ensures
        forall|k: int|
            0 <= k < alive_prefix(targets, ports, outcomes, n).len() ==> (#[trigger] alive_prefix(
                targets,
                ports,
                outcomes,
                n,
            )[k]).1.len() > 0,
        forall|k: int|
            0 <= k < alive_prefix(targets, ports, outcomes, n).len() ==> open_target_before(
                targets,
                outcomes,
                n,
                (#[trigger] alive_prefix(targets, ports, outcomes, n)[k]).0,
            ),
        forall|i: int|
            0 <= i < n && any_open(#[trigger] outcomes[i]) ==> alive_prefix(
                targets,
                ports,
                outcomes,
                n,
            ).contains((targets[i], open_ports_of(ports, outcomes[i]))),
    decreases n,
{
    if n > 0 {
        lemma_alive_prefix(targets, ports, outcomes, n - 1);
        lemma_open_ports_nonempty(ports, outcomes[n - 1]);
        let rest = alive_prefix(targets, ports, outcomes, n - 1);
        let cur = alive_prefix(targets, ports, outcomes, n);
        if any_open(outcomes[n - 1]) {
            let e = (targets[n - 1], open_ports_of(ports, outcomes[n - 1]));
            assert(cur == rest.push(e));
            assert forall|k: int| 0 <= k < cur.len() implies (#[trigger] cur[k]).1.len() > 0
                && open_target_before(targets, outcomes, n, cur[k].0) by {
                if k < rest.len() {
                    assert(cur[k] == rest[k]);
                    let i = choose|i: int|
                        0 <= i < n - 1 && rest[k].0 == targets[i] && any_open(outcomes[i]);
                    assert(0 <= i < n && cur[k].0 == targets[i] && any_open(outcomes[i]));
                } else {
                    assert(cur[k] == e);
                    assert(cur[k].0 == targets[n - 1] && any_open(outcomes[n - 1]));
                }
            }
            assert forall|i: int| 0 <= i < n && any_open(#[trigger] outcomes[i]) implies cur.contains(
                (targets[i], open_ports_of(ports, outcomes[i])),
            ) by {
                if i < n - 1 {
                    let k = choose|k: int|
                        0 <= k < rest.len() && rest[k] == (
                            targets[i],
                            open_ports_of(ports, outcomes[i]),
                        );
                    assert(cur[k] == rest[k]);
                } else {
                    assert(cur[cur.len() - 1] == e);
                }
            }
        } else {
            assert(cur == rest);
            assert forall|k: int| 0 <= k < cur.len() implies open_target_before(
                targets,
                outcomes,
                n,
                (#[trigger] cur[k]).0,
            ) by {
                assert(cur[k] == rest[k]);
                let i = choose|i: int| 0 <= i < n - 1 && rest[k].0 == targets[i] && any_open(outcomes[i]);
                assert(0 <= i < n && cur[k].0 == targets[i] && any_open(outcomes[i]));
            }
        }
    }
}

} // verus!
