//! Reading Nmap's XML report: attribute values, addresses, host names and
//! port elements, found by plain text search.
use crate::models::{DiscoveredHost, DiscoveredPort, OsMatch, PortState, Protocol};
use crate::nmap::{opt_view, split_words, words};
use crate::text::{
    chars_of, concat_chars, find_in, find_sub, first_match, parse_unsigned, parse_unsigned_range, rfind_in,
    rfind_sub, starts_with, str_eq,
};
use vstd::prelude::*;

verus! {

/// The value of `attr` on the first `<element` of `xml`: the text between
/// `attr="` (searched from that element on) and the next `"`.
pub open spec fn attr_value(xml: Seq<char>, element: Seq<char>, attr: Seq<char>) -> Option<
    Seq<char>,
> {
    match find_sub(xml, seq!['<'] + element) {
        None => None,
        Some(pos) => {
            let after = xml.subrange(pos, xml.len() as int);
            match find_sub(after, attr + seq!['=', '"']) {
                None => None,
                Some(ap) => {
                    let rest = after.subrange(ap + attr.len() + 2, after.len() as int);
                    match find_sub(rest, seq!['"']) {
                        None => None,
                        Some(e) => Some(rest.take(e)),
                    }
                },
            }
        },
    }
}

/// The quoted text that starts at `start` of `xml`, up to the next `"`.
pub open spec fn quoted_from(xml: Seq<char>, start: int) -> Option<Seq<char>> {
    let rest = xml.subrange(start, xml.len() as int);
    match find_sub(rest, seq!['"']) {
        None => None,
        Some(e) => Some(rest.take(e)),
    }
}

/// The text between `from` and the next `"` of `v`, as a string.
fn quoted(xml: &str, v: &Vec<char>, from: usize) -> (r: Option<String>)
    requires
        v@ == xml@,
        from <= v@.len(),
    ensures
        opt_view(r) == quoted_from(xml@, from as int),
{
    let quote = vec!['"'];
    assert(quote@ =~= seq!['"']);
    match find_in(v, from, v.len(), &quote) {
        None => None,
        Some(e) => {
            let s = xml.substring_char(from, from + e);
            assert(s@ =~= xml@.subrange(from as int, xml@.len() as int).take(e as int));
            Some(String::from_str(s))
        },
    }
}

/// Extracts an attribute value of the first element of a kind.
pub fn extract_xml_attr(xml: &str, element: &str, attr: &str) -> (r: Option<String>)
    ensures
        opt_view(r) == attr_value(xml@, element@, attr@),
{
    let v = chars_of(xml);
    let n = v.len();
    let lt = vec!['<'];
    assert(lt@ =~= seq!['<']);
    let elem_pat = concat_chars(&lt, &chars_of(element));
    assert(v@.subrange(0, n as int) =~= v@);
    match find_in(&v, 0, n, &elem_pat) {
        None => None,
        Some(pos) => {
            let attr_chars = chars_of(attr);
            let eq_quote = vec!['=', '"'];
            assert(eq_quote@ =~= seq!['=', '"']);
            let attr_pat = concat_chars(&attr_chars, &eq_quote);
            match find_in(&v, pos, n, &attr_pat) {
                None => None,
                Some(ap) => {
                    let ghost after = v@.subrange(pos as int, n as int);
                    let start = pos + ap + attr_chars.len() + 2;
                    assert(after.subrange(ap + attr@.len() + 2, after.len() as int) =~= v@.subrange(
                        start as int,
                        n as int,
                    ));
                    quoted(xml, &v, start)
                },
            }
        },
    }
}

/// The address of the given type (`ipv4`, `ipv6`, `mac`): the `addr="..."`
/// that comes last before the first `addrtype="<type>"`.
pub open spec fn address_value(xml: Seq<char>, addr_type: Seq<char>) -> Option<Seq<char>> {
    match find_sub(xml, "addrtype=\""@ + addr_type + seq!['"']) {
        None => None,
        Some(pos) => match rfind_sub(xml.take(pos), "addr=\""@) {
            None => None,
            Some(a) => quoted_from(xml, a + "addr=\""@.len()),
        },
    }
}

fn extract_address(xml: &str, addr_type: &str) -> (r: Option<String>)
    ensures
        opt_view(r) == address_value(xml@, addr_type@),
{
    let v = chars_of(xml);
    let n = v.len();
    let quote = vec!['"'];
    assert(quote@ =~= seq!['"']);
    let type_pat = concat_chars(&concat_chars(&chars_of("addrtype=\""), &chars_of(addr_type)), &quote);
    assert(v@.subrange(0, n as int) =~= v@);
    match find_in(&v, 0, n, &type_pat) {
        None => None,
        Some(pos) => {
            let addr_pat = chars_of("addr=\"");
            assert(v@.subrange(0, pos as int) =~= v@.take(pos as int));
            match rfind_in(&v, 0, pos, &addr_pat) {
                None => None,
                Some(a) => quoted(xml, &v, a + addr_pat.len()),
            }
        },
    }
}

/// The `name="..."` value found from the first `<hostname` on.
pub open spec fn hostname_value(xml: Seq<char>) -> Option<Seq<char>> {
    match find_sub(xml, "<hostname"@) {
        None => None,
        Some(pos) => {
            let after = xml.subrange(pos, xml.len() as int);
            match find_sub(after, "name=\""@) {
                None => None,
                Some(np) => quoted_from(after, np + "name=\""@.len()),
            }
        },
    }
}

fn extract_hostname(xml: &str) -> (r: Option<String>)
    ensures
        opt_view(r) == hostname_value(xml@),
{
    let v = chars_of(xml);
    let n = v.len();
    let host_pat = chars_of("<hostname");
    assert(v@.subrange(0, n as int) =~= v@);
    match find_in(&v, 0, n, &host_pat) {
        None => None,
        Some(pos) => {
            let name_pat = chars_of("name=\"");
            match find_in(&v, pos, n, &name_pat) {
                None => None,
                Some(np) => {
                    let start = pos + np + name_pat.len();
                    let ghost after = v@.subrange(pos as int, n as int);
                    assert(after.subrange(np + name_pat@.len(), after.len() as int) =~= v@.subrange(
                        start as int,
                        n as int,
                    ));
                    quoted(xml, &v, start)
                },
            }
        },
    }
}

/// The protocol an attribute names; TCP unless it says `udp` or `sctp`.
pub open spec fn protocol_named(o: Option<Seq<char>>) -> Protocol {
    if o == Some("udp"@) {
        Protocol::Udp
    } else if o == Some("sctp"@) {
        Protocol::Sctp
    } else {
        Protocol::Tcp
    }
}

/// The port state an attribute names; filtered when unknown.
pub open spec fn state_named(o: Option<Seq<char>>) -> PortState {
    if o == Some("open"@) {
        PortState::Open
    } else if o == Some("closed"@) {
        PortState::Closed
    } else if o == Some("filtered"@) {
        PortState::Filtered
    } else if o == Some("unfiltered"@) {
        PortState::Unfiltered
    } else if o == Some("open|filtered"@) {
        PortState::OpenFiltered
    } else if o == Some("closed|filtered"@) {
        PortState::ClosedFiltered
    } else {
        PortState::Filtered
    }
}

fn protocol_of(o: &Option<String>) -> (r: Protocol)
    ensures
        r == protocol_named(opt_view(*o)),
{
    match o {
        Some(s) => {
            if str_eq(s.as_str(), "udp") {
                Protocol::Udp
            } else if str_eq(s.as_str(), "sctp") {
                Protocol::Sctp
            } else {
                Protocol::Tcp
            }
        },
        None => Protocol::Tcp,
    }
}

fn state_of(o: &Option<String>) -> (r: PortState)
    ensures
        r == state_named(opt_view(*o)),
{
    match o {
        Some(s) => {
            let t = s.as_str();
            if str_eq(t, "open") {
                PortState::Open
            } else if str_eq(t, "closed") {
                PortState::Closed
            } else if str_eq(t, "filtered") {
                PortState::Filtered
            } else if str_eq(t, "unfiltered") {
                PortState::Unfiltered
            } else if str_eq(t, "open|filtered") {
                PortState::OpenFiltered
            } else if str_eq(t, "closed|filtered") {
                PortState::ClosedFiltered
            } else {
                PortState::Filtered
            }
        },
        None => PortState::Filtered,
    }
}

/// What a port element tells: its number, protocol, state and service.
pub type PortFacts = (
    u16,
    Protocol,
    PortState,
    Option<Seq<char>>,
    Option<Seq<char>>,
    Option<Seq<char>>,
    Option<Seq<char>>,
);

/// The facts of one port element; none when `portid` is no port number.
pub open spec fn port_facts(px: Seq<char>) -> Option<PortFacts> {
    match attr_value(px, "port"@, "portid"@) {
        None => None,
        Some(id) => match parse_unsigned(id, 65535) {
            None => None,
            Some(n) => Some(
                (
                    n as u16,
                    protocol_named(attr_value(px, "port"@, "protocol"@)),
                    state_named(attr_value(px, "state"@, "state"@)),
                    attr_value(px, "service"@, "name"@),
                    attr_value(px, "service"@, "product"@),
                    attr_value(px, "service"@, "version"@),
                    attr_value(px, "service"@, "extrainfo"@),
                ),
            ),
        },
    }
}

impl DiscoveredPort {
    pub open spec fn facts(self) -> PortFacts {
        (
            self.port,
            self.protocol,
            self.state,
            opt_view(self.service),
            opt_view(self.product),
            opt_view(self.version),
            opt_view(self.extra_info),
        )
    }
}

/// Where the port element that starts at `start` ends: after its
/// `</port>`, else after the first `/>`.
pub open spec fn port_element_end(xml: Seq<char>, start: int) -> Option<int> {
    let tail = xml.subrange(start, xml.len() as int);
    match find_sub(tail, "</port>"@) {
        Some(e) => Some(start + e + "</port>"@.len()),
        None => match find_sub(tail, "/>"@) {
            Some(e) => Some(start + e + "/>"@.len()),
            None => None,
        },
    }
}

/// The facts of the port elements of `xml` from position `cur` on, in order.
pub open spec fn ports_from(xml: Seq<char>, cur: int) -> Seq<PortFacts>
    decreases xml.len() - cur,
{
    if cur < 0 || cur > xml.len() {
        seq![]
    } else {
        match find_sub(xml.subrange(cur, xml.len() as int), "<port "@) {
            None => seq![],
            Some(ps) => match port_element_end(xml, cur + ps) {
                None => seq![],
                Some(end) => if 0 <= ps && cur + ps <= end && cur < end && end <= xml.len() {
                    let rest = ports_from(xml, end);
                    match port_facts(xml.subrange(cur + ps, end)) {
                        Some(f) => seq![f] + rest,
                        None => rest,
                    }
                } else {
                    seq![]
                },
            },
        }
    }
}

/// Reads one port element; none when its `portid` is no port number.
fn port_from_xml(px: &str) -> (r: Option<DiscoveredPort>)
    ensures
        match port_facts(px@) {
            None => r is None,
            Some(f) => r matches Some(p) && p.facts() == f && p.scripts@.len() == 0,
        },
{
    let id = match extract_xml_attr(px, "port", "portid") {
        None => {
            return None;
        },
        Some(id) => id,
    };
    let digits = chars_of(id.as_str());
    assert(digits@.subrange(0, digits@.len() as int) =~= digits@);
    let port = match parse_unsigned_range(&digits, 0, digits.len(), 65535) {
        None => {
            return None;
        },
        Some(n) => n as u16,
    };
    let protocol = protocol_of(&extract_xml_attr(px, "port", "protocol"));
    let state = state_of(&extract_xml_attr(px, "state", "state"));
    Some(
        DiscoveredPort {
            port,
            protocol,
            state,
            service: extract_xml_attr(px, "service", "name"),
            product: extract_xml_attr(px, "service", "product"),
            version: extract_xml_attr(px, "service", "version"),
            extra_info: extract_xml_attr(px, "service", "extrainfo"),
            scripts: Vec::new(),
        },
    )
}

pub open spec fn port_facts_of(ports: Seq<DiscoveredPort>) -> Seq<PortFacts> {
    ports.map_values(|p: DiscoveredPort| p.facts())
}

proof fn lemma_find_sub_some(s: Seq<char>, p: Seq<char>)
    ensures
        find_sub(s, p) matches Some(i) ==> first_match(s, p, i),
{
}

/// The port elements of a host's XML, in document order; elements whose
/// `portid` is no port number are skipped.
#[verifier::rlimit(60)]
fn parse_ports(xml: &str) -> (r: Vec<DiscoveredPort>)
    ensures
        port_facts_of(r@) == ports_from(xml@, 0),
        forall|k: int| 0 <= k < r@.len() ==> (#[trigger] r@[k]).scripts@.len() == 0,
{
    let v = chars_of(xml);
    let n = v.len();
    let port_pat = chars_of("<port ");
    let close_pat = chars_of("</port>");
    let short_close = chars_of("/>");
    proof {
        reveal_strlit("</port>");
        reveal_strlit("/>");
    }
    let mut ports: Vec<DiscoveredPort> = Vec::new();
    let mut cur: usize = 0;
    loop
        invariant
            v@ == xml@,
            n == v@.len(),
            port_pat@ == "<port "@,
            close_pat@ == "</port>"@,
            short_close@ == "/>"@,
            cur <= n,
            port_facts_of(ports@) + ports_from(xml@, cur as int) == ports_from(xml@, 0),
            "</port>"@.len() == 7,
            "/>"@.len() == 2,
            forall|k: int| 0 <= k < ports@.len() ==> (#[trigger] ports@[k]).scripts@.len() == 0,
        ensures
            port_facts_of(ports@) == ports_from(xml@, 0),
            forall|k: int| 0 <= k < ports@.len() ==> (#[trigger] ports@[k]).scripts@.len() == 0,
        decreases n - cur,
    {
        let ghost here = ports_from(xml@, cur as int);
        let ps = match find_in(&v, cur, n, &port_pat) {
            None => {
                assert(here == Seq::<PortFacts>::empty());
                assert(port_facts_of(ports@) + here =~= port_facts_of(ports@));
                break;
            },
            Some(ps) => ps,
        };
        proof {
            lemma_find_sub_some(v@.subrange(cur as int, n as int), port_pat@);
        }
        let start = cur + ps;
        let end = match find_in(&v, start, n, &close_pat) {
            Some(e) => {
                proof {
                    lemma_find_sub_some(v@.subrange(start as int, n as int), close_pat@);
                }
                start + e + close_pat.len()
            },
            None => match find_in(&v, start, n, &short_close) {
                Some(e) => {
                    proof {
                        lemma_find_sub_some(v@.subrange(start as int, n as int), short_close@);
                    }
                    start + e + short_close.len()
                },
                None => {
                    assert(here == Seq::<PortFacts>::empty());
                    assert(port_facts_of(ports@) + here =~= port_facts_of(ports@));
                    break;
                },
            },
        };
        assert(port_element_end(xml@, start as int) == Some(end as int));
        let px = xml.substring_char(start, end);
        let ghost old_ports = ports@;
        match port_from_xml(px) {
            Some(p) => {
                ports.push(p);
                assert(port_facts_of(ports@) =~= port_facts_of(old_ports).push(p.facts()));
                assert(here == seq![p.facts()] + ports_from(xml@, end as int));
                assert(port_facts_of(ports@) + ports_from(xml@, end as int) =~= port_facts_of(old_ports) + here);
            },
            None => {
                assert(here == ports_from(xml@, end as int));
            },
        }
        cur = end;
    }
    ports
}

/// What an OS match element tells: name, accuracy, family, generation and
/// device type.
pub type OsFacts = (Seq<char>, u8, Option<Seq<char>>, Option<Seq<char>>, Option<Seq<char>>);

impl OsMatch {
    pub open spec fn facts(self) -> OsFacts {
        (self.name@, self.accuracy, opt_view(self.os_family), opt_view(self.os_gen), opt_view(self.device_type))
    }
}

/// The facts of one OS match element; none without a name. An accuracy
/// that is no number up to 255 counts as 0.
pub open spec fn os_facts(ox: Seq<char>) -> Option<OsFacts> {
    match attr_value(ox, "osmatch"@, "name"@) {
        None => None,
        Some(name) => Some(
            (
                name,
                match attr_value(ox, "osmatch"@, "accuracy"@) {
                    Some(a) => match parse_unsigned(a, 255) {
                        Some(n) => n as u8,
                        None => 0,
                    },
                    None => 0,
                },
                attr_value(ox, "osclass"@, "osfamily"@),
                attr_value(ox, "osclass"@, "osgen"@),
                attr_value(ox, "osclass"@, "type"@),
            ),
        ),
    }
}

/// Where the OS match element that starts at `start` ends: after the
/// first `/>`, else after its `</osmatch>`.
pub open spec fn os_element_end(xml: Seq<char>, start: int) -> Option<int> {
    let tail = xml.subrange(start, xml.len() as int);
    match find_sub(tail, "/>"@) {
        Some(e) => Some(start + e + "/>"@.len()),
        None => match find_sub(tail, "</osmatch>"@) {
            Some(e) => Some(start + e + "</osmatch>"@.len()),
            None => None,
        },
    }
}

/// The facts of the OS match elements of `xml` from `cur` on, in order.
pub open spec fn os_matches_from(xml: Seq<char>, cur: int) -> Seq<OsFacts>
    decreases xml.len() - cur,
{
    if cur < 0 || cur > xml.len() {
        seq![]
    } else {
        match find_sub(xml.subrange(cur, xml.len() as int), "<osmatch "@) {
            None => seq![],
            Some(ps) => match os_element_end(xml, cur + ps) {
                None => seq![],
                Some(end) => if 0 <= ps && cur + ps <= end && cur < end && end <= xml.len() {
                    let rest = os_matches_from(xml, end);
                    match os_facts(xml.subrange(cur + ps, end)) {
                        Some(f) => seq![f] + rest,
                        None => rest,
                    }
                } else {
                    seq![]
                },
            },
        }
    }
}

/// Puts `x` after every entry at least as accurate, and before the others.
pub open spec fn insert_by_accuracy(sorted: Seq<OsFacts>, x: OsFacts) -> Seq<OsFacts>
    decreases sorted.len(),
{
    if sorted.len() == 0 {
        seq![x]
    } else if sorted.last().1 >= x.1 {
        sorted.push(x)
    } else {
        insert_by_accuracy(sorted.drop_last(), x).push(sorted.last())
    }
}

/// The stable sort of `s` by accuracy, most accurate first.
pub open spec fn sorted_by_accuracy(s: Seq<OsFacts>) -> Seq<OsFacts>
    decreases s.len(),
{
    if s.len() == 0 {
        seq![]
    } else {
        insert_by_accuracy(sorted_by_accuracy(s.drop_last()), s.last())
    }
}

proof fn lemma_insert_at(s: Seq<OsFacts>, x: OsFacts, j: int)
    requires
        0 <= j <= s.len(),
        forall|k: int| j <= k < s.len() ==> (#[trigger] s[k]).1 < x.1,
        j > 0 ==> s[j - 1].1 >= x.1,
    ensures
        insert_by_accuracy(s, x) == s.insert(j, x),
    decreases s.len(),
{
    if s.len() == 0 {
        assert(s.insert(j, x) =~= seq![x]);
    } else if s.last().1 >= x.1 {
        assert(j == s.len());
        assert(s.insert(j, x) =~= s.push(x));
    } else {
        lemma_insert_at(s.drop_last(), x, j);
        assert(s.drop_last().insert(j, x).push(s.last()) =~= s.insert(j, x));
    }
}

pub open spec fn os_facts_of(m: Seq<OsMatch>) -> Seq<OsFacts> {
    m.map_values(|o: OsMatch| o.facts())
}

/// Reads one OS match element; none when it has no name.
fn os_match_from_xml(ox: &str) -> (r: Option<OsMatch>)
    ensures
        match os_facts(ox@) {
            None => r is None,
            Some(f) => r matches Some(m) && m.facts() == f,
        },
{
    let name = match extract_xml_attr(ox, "osmatch", "name") {
        None => {
            return None;
        },
        Some(n) => n,
    };
    let accuracy: u8 = match extract_xml_attr(ox, "osmatch", "accuracy") {
        Some(a) => {
            let digits = chars_of(a.as_str());
            assert(digits@.subrange(0, digits@.len() as int) =~= digits@);
            match parse_unsigned_range(&digits, 0, digits.len(), 255) {
                Some(n) => n as u8,
                None => 0,
            }
        },
        None => 0,
    };
    Some(
        OsMatch {
            name,
            accuracy,
            os_family: extract_xml_attr(ox, "osclass", "osfamily"),
            os_gen: extract_xml_attr(ox, "osclass", "osgen"),
            device_type: extract_xml_attr(ox, "osclass", "type"),
        },
    )
}

/// Inserts `m` into `sorted` after every match at least as accurate.
fn insert_sorted(sorted: &mut Vec<OsMatch>, m: OsMatch)
    ensures
        os_facts_of(final(sorted)@) == insert_by_accuracy(os_facts_of(old(sorted)@), m.facts()),
{
    let mut j: usize = sorted.len();
    while j > 0 && sorted[j - 1].accuracy < m.accuracy
        invariant
            j <= sorted@.len(),
            forall|k: int| j <= k < sorted@.len() ==> (#[trigger] sorted@[k]).accuracy < m.accuracy,
        decreases j,
    {
        j = j - 1;
    }
    let ghost before = sorted@;
    sorted.insert(j, m);
    proof {
        lemma_insert_at(os_facts_of(before), m.facts(), j as int);
        assert(os_facts_of(sorted@) =~= os_facts_of(before).insert(j as int, m.facts()));
    }
}

/// The OS match elements of a host's XML, most accurate first; among equally
/// accurate ones the document order is kept.
#[verifier::rlimit(60)]
fn parse_os_matches(xml: &str) -> (r: Vec<OsMatch>)
    ensures
        os_facts_of(r@) == sorted_by_accuracy(os_matches_from(xml@, 0)),
{
    let v = chars_of(xml);
    let n = v.len();
    let open_pat = chars_of("<osmatch ");
    let close_pat = chars_of("</osmatch>");
    let short_close = chars_of("/>");
    proof {
        reveal_strlit("</osmatch>");
        reveal_strlit("/>");
    }
    let mut sorted: Vec<OsMatch> = Vec::new();
    let ghost mut seen: Seq<OsFacts> = seq![];
    let mut cur: usize = 0;
    loop
        invariant
            v@ == xml@,
            n == v@.len(),
            open_pat@ == "<osmatch "@,
            close_pat@ == "</osmatch>"@,
            short_close@ == "/>"@,
            cur <= n,
            "</osmatch>"@.len() == 10,
            "/>"@.len() == 2,
            seen + os_matches_from(xml@, cur as int) == os_matches_from(xml@, 0),
            os_facts_of(sorted@) == sorted_by_accuracy(seen),
        ensures
            os_facts_of(sorted@) == sorted_by_accuracy(os_matches_from(xml@, 0)),
        decreases n - cur,
    {
        let ghost here = os_matches_from(xml@, cur as int);
        let ps = match find_in(&v, cur, n, &open_pat) {
            None => {
                assert(seen + here =~= seen);
                break;
            },
            Some(ps) => ps,
        };
        proof {
            lemma_find_sub_some(v@.subrange(cur as int, n as int), open_pat@);
        }
        let start = cur + ps;
        let end = match find_in(&v, start, n, &short_close) {
            Some(e) => {
                proof {
                    lemma_find_sub_some(v@.subrange(start as int, n as int), short_close@);
                }
                start + e + short_close.len()
            },
            None => match find_in(&v, start, n, &close_pat) {
                Some(e) => {
                    proof {
                        lemma_find_sub_some(v@.subrange(start as int, n as int), close_pat@);
                    }
                    start + e + close_pat.len()
                },
                None => {
                    assert(seen + here =~= seen);
                    break;
                },
            },
        };
        assert(os_element_end(xml@, start as int) == Some(end as int));
        let ox = xml.substring_char(start, end);
        match os_match_from_xml(ox) {
            Some(m) => {
                let ghost f = m.facts();
                insert_sorted(&mut sorted, m);
                proof {
                    assert(seen.push(f).drop_last() =~= seen);
                    assert(here == seq![f] + os_matches_from(xml@, end as int));
                    assert(seen.push(f) + os_matches_from(xml@, end as int) =~= seen + here);
                    seen = seen.push(f);
                }
            },
            None => {
                assert(here == os_matches_from(xml@, end as int));
            },
        }
        cur = end;
    }
    sorted
}

/// What a host element tells: address, MAC, vendor, host name, status,
/// ports and OS matches.
pub type HostFacts = (
    Seq<char>,
    Option<Seq<char>>,
    Option<Seq<char>>,
    Option<Seq<char>>,
    Seq<char>,
    Seq<PortFacts>,
    Seq<OsFacts>,
);

impl DiscoveredHost {
    pub open spec fn facts(self) -> HostFacts {
        (
            self.ip_address@,
            opt_view(self.mac_address),
            opt_view(self.vendor),
            opt_view(self.hostname),
            self.status@,
            port_facts_of(self.ports@),
            os_facts_of(self.os_matches@),
        )
    }
}

/// The facts of one host element; none without an IPv4 or IPv6 address.
/// The status is `unknown` when the element gives none.
pub open spec fn host_facts(hx: Seq<char>) -> Option<HostFacts> {
    let ip = match address_value(hx, "ipv4"@) {
        Some(a) => Some(a),
        None => address_value(hx, "ipv6"@),
    };
    match ip {
        None => None,
        Some(ip) => Some(
            (
                ip,
                address_value(hx, "mac"@),
                attr_value(hx, "address"@, "vendor"@),
                hostname_value(hx),
                match attr_value(hx, "status"@, "state"@) {
                    Some(st) => st,
                    None => "unknown"@,
                },
                ports_from(hx, 0),
                sorted_by_accuracy(os_matches_from(hx, 0)),
            ),
        ),
    }
}

/// Reads one host element.
fn parse_single_host(host_xml: &str) -> (r: Option<DiscoveredHost>)
    ensures
        match host_facts(host_xml@) {
            None => r is None,
            Some(f) => r matches Some(h) && h.facts() == f && h.host_scripts@.len() == 0,
        },
{
    let ip = match extract_address(host_xml, "ipv4") {
        Some(a) => a,
        None => match extract_address(host_xml, "ipv6") {
            Some(a) => a,
            None => {
                return None;
            },
        },
    };
    let status = match extract_xml_attr(host_xml, "status", "state") {
        Some(st) => st,
        None => String::from_str("unknown"),
    };
    Some(
        DiscoveredHost {
            ip_address: ip,
            mac_address: extract_address(host_xml, "mac"),
            hostname: extract_hostname(host_xml),
            vendor: extract_xml_attr(host_xml, "address", "vendor"),
            status,
            ports: parse_ports(host_xml),
            os_matches: parse_os_matches(host_xml),
            host_scripts: Vec::new(),
        },
    )
}

/// The facts of the host elements of `xml` from `cur` on: each runs from a
/// `<host` to the next `</host>`.
pub open spec fn hosts_from(xml: Seq<char>, cur: int) -> Seq<HostFacts>
    decreases xml.len() - cur,
{
    if cur < 0 || cur > xml.len() {
        seq![]
    } else {
        match find_sub(xml.subrange(cur, xml.len() as int), "<host"@) {
            None => seq![],
            Some(hs) => {
                let start = cur + hs;
                match find_sub(xml.subrange(start, xml.len() as int), "</host>"@) {
                    None => seq![],
                    Some(e) => {
                        let end = start + e + "</host>"@.len();
                        if 0 <= hs && cur < end && end <= xml.len() {
                            let rest = hosts_from(xml, end);
                            match host_facts(xml.subrange(start, end)) {
                                Some(f) => seq![f] + rest,
                                None => rest,
                            }
                        } else {
                            seq![]
                        }
                    },
                }
            },
        }
    }
}

pub open spec fn host_facts_of(h: Seq<DiscoveredHost>) -> Seq<HostFacts> {
    h.map_values(|d: DiscoveredHost| d.facts())
}

/// The hosts of an Nmap XML report, in document order; host elements
/// without an address are skipped.
#[verifier::rlimit(60)]
pub fn parse_hosts_from_xml(xml: &str) -> (r: Vec<DiscoveredHost>)
    ensures
        host_facts_of(r@) == hosts_from(xml@, 0),
{
    let v = chars_of(xml);
    let n = v.len();
    let open_pat = chars_of("<host");
    let close_pat = chars_of("</host>");
    proof {
        reveal_strlit("</host>");
    }
    let mut hosts: Vec<DiscoveredHost> = Vec::new();
    let mut cur: usize = 0;
    loop
        invariant
            v@ == xml@,
            n == v@.len(),
            open_pat@ == "<host"@,
            close_pat@ == "</host>"@,
            "</host>"@.len() == 7,
            cur <= n,
            host_facts_of(hosts@) + hosts_from(xml@, cur as int) == hosts_from(xml@, 0),
        ensures
            host_facts_of(hosts@) == hosts_from(xml@, 0),
        decreases n - cur,
    {
        let ghost here = hosts_from(xml@, cur as int);
        let hs = match find_in(&v, cur, n, &open_pat) {
            None => {
                assert(host_facts_of(hosts@) + here =~= host_facts_of(hosts@));
                break;
            },
            Some(hs) => hs,
        };
        proof {
            lemma_find_sub_some(v@.subrange(cur as int, n as int), open_pat@);
        }
        let start = cur + hs;
        let e = match find_in(&v, start, n, &close_pat) {
            None => {
                assert(host_facts_of(hosts@) + here =~= host_facts_of(hosts@));
                break;
            },
            Some(e) => e,
        };
        proof {
            lemma_find_sub_some(v@.subrange(start as int, n as int), close_pat@);
        }
        let end = start + e + close_pat.len();
        let hx = xml.substring_char(start, end);
        let ghost old_hosts = hosts@;
        match parse_single_host(hx) {
            Some(h) => {
                hosts.push(h);
                assert(host_facts_of(hosts@) =~= host_facts_of(old_hosts).push(h.facts()));
                assert(here == seq![h.facts()] + hosts_from(xml@, end as int));
                assert(host_facts_of(hosts@) + hosts_from(xml@, end as int) =~= host_facts_of(old_hosts) + here);
            },
            None => {
                assert(here == hosts_from(xml@, end as int));
            },
        }
        cur = end;
    }
    hosts
}

/// The first line of a text, as `str::lines` gives it: up to the first
/// line feed, without the carriage return before it; none for empty text.
pub open spec fn first_line(s: Seq<char>) -> Option<Seq<char>> {
    if s.len() == 0 {
        None
    } else {
        match find_sub(s, seq!['\n']) {
            None => Some(s),
            Some(i) => {
                let l = s.take(i);
                Some(if l.len() > 0 && l.last() == '\r' { l.drop_last() } else { l })
            },
        }
    }
}

/// The version Nmap reports on the first line of `nmap --version`
/// (`Nmap version 7.94 ( https://nmap.org )`): its third word.
pub open spec fn nmap_version_of(output: Seq<char>) -> Option<Seq<char>> {
    match first_line(output) {
        None => None,
        Some(line) => if "Nmap version"@.len() <= line.len() && line.take("Nmap version"@.len() as int)
            == "Nmap version"@ && words(line).len() > 2 {
            Some(words(line)[2])
        } else {
            None
        },
    }
}

/// Reads the version from the output of `nmap --version`.
pub fn parse_nmap_version(output: &str) -> (r: Option<String>)
    ensures
        opt_view(r) == nmap_version_of(output@),
{
    let v = chars_of(output);
    let n = v.len();
    if n == 0 {
        return None;
    }
    let lf = vec!['\n'];
    assert(lf@ =~= seq!['\n']);
    assert(v@.subrange(0, n as int) =~= v@);
    let line_end: usize = match find_in(&v, 0, n, &lf) {
        None => n,
        Some(i) => {
            if i > 0 && v[i - 1] == '\r' {
                i - 1
            } else {
                i
            }
        },
    };
    let line = output.substring_char(0, line_end);
    assert(first_line(output@) == Some(line@)) by {
        if line_end < n {
            lemma_find_sub_some(v@, lf@);
        }
        assert(line@ =~= output@.take(line_end as int));
        if let Some(i) = find_sub(v@, seq!['\n']) {
            if i > 0 {
                assert(output@.take(i).drop_last() =~= output@.take(i - 1));
            }
        } else {
            assert(output@.take(n as int) =~= output@);
        }
    }
    if !starts_with(line, "Nmap version") {
        return None;
    }
    let w = split_words(line);
    if w.len() > 2 {
        Some(w[2].clone())
    } else {
        None
    }
}

} // verus!
