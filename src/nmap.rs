//! Nmap integration: the command line for a scan configuration, validation
//! of scan targets, and the reference lists shown to the user.
use crate::models::{ScanConfig, ScanType};
use crate::text::{
    chars_of, contains_char, find_char, join, joined, parse_unsigned, parse_unsigned_range,
    starts_with, string_views,
};
use vstd::prelude::*;

verus! {

/// Information about the Nmap installation
#[derive(Debug, Clone)]
pub struct NmapInfo {
    pub installed: bool,
    pub version: Option<String>,
    pub path: Option<String>,
}

/// One scan type as offered to the user.
#[derive(Debug, Clone)]
pub struct ScanTypeInfo {
    pub scan_type: ScanType,
    pub name: String,
    pub description: String,
    pub duration: String,
    pub requires_root: bool,
}

/// The verdict on a scan target.
#[derive(Debug, Clone)]
pub struct TargetValidation {
    pub valid: bool,
    pub target_type: Option<String>,
    pub normalized: Option<String>,
    pub error: Option<String>,
}

/// A well-known port with its service.
#[derive(Debug, Clone)]
pub struct CommonPort {
    pub port: u16,
    pub service: &'static str,
    pub description: &'static str,
}

pub open spec fn opt_view(o: Option<String>) -> Option<Seq<char>> {
    match o {
        Some(s) => Some(s@),
        None => None,
    }
}

impl TargetValidation {
    pub open spec fn view(self) -> (bool, Option<Seq<char>>, Option<Seq<char>>, Option<Seq<char>>) {
        (self.valid, opt_view(self.target_type), opt_view(self.normalized), opt_view(self.error))
    }
}

/// What `str::trim` leaves of a string.
pub uninterp spec fn trimmed(s: Seq<char>) -> Seq<char>;

/// A printable ASCII character other than the space: never Unicode white space.
pub open spec fn visible_ascii(c: char) -> bool {
    '!' <= c <= '~'
}

/// Relies on `str::trim`: leading and trailing Unicode white space removed;
/// the result depends on the characters alone, and a string with no white
/// space at either end is left as it is.
#[verifier::external_body]
fn trim_str<'a>(s: &'a str) -> (r: &'a str)
    ensures
        r@ == trimmed(s@),
        s@.len() == 0 || (visible_ascii(s@[0]) && visible_ascii(s@.last())) ==> r@ == s@,
{
    s.trim()
}

/// Whether `char::is_alphanumeric` holds of a character.
pub uninterp spec fn alphanumeric(c: char) -> bool;

/// Relies on `char::is_alphanumeric`: Unicode alphabetic or numeric; of the
/// ASCII characters, exactly the letters and digits.
#[verifier::external_body]
fn is_alphanumeric(c: char) -> (r: bool)
    ensures
        r == alphanumeric(c),
        c <= '\x7f' ==> (r <==> ('a' <= c <= 'z' || 'A' <= c <= 'Z' || '0' <= c <= '9')),
{
    c.is_alphanumeric()
}

/// The words `str::split_whitespace` finds in a string.
pub uninterp spec fn words(s: Seq<char>) -> Seq<Seq<char>>;

/// Relies on `str::split_whitespace`: the non-empty runs between Unicode
/// white space, in order; they depend on the characters alone.
#[verifier::external_body]
pub(crate) fn split_words(s: &str) -> (r: Vec<String>)
    ensures
        string_views(r@) == words(s@),
{
    s.split_whitespace().map(|w| w.to_string()).collect()
}

/// `i` is the position of the only `c` in `t`.
pub open spec fn sole_index(t: Seq<char>, c: char, i: int) -> bool {
    &&& 0 <= i < t.len()
    &&& t[i] == c
    &&& !t.take(i).contains(c)
    &&& !t.subrange(i + 1, t.len() as int).contains(c)
}

/// Exactly one `/`, followed by a prefix length from 0 to 32.
pub open spec fn valid_cidr_text(t: Seq<char>) -> bool {
    exists|i: int|
        sole_index(t, '/', i) && (parse_unsigned(t.subrange(i + 1, t.len() as int), 255) matches Some(
            p,
        ) && p <= 32)
}

/// The pieces of `t` between occurrences of `c` (as `str::split` gives them).
pub open spec fn split_on(t: Seq<char>, c: char) -> Seq<Seq<char>>
    decreases t.len(),
{
    if t.len() == 0 {
        seq![seq![]]
    } else {
        let p = split_on(t.drop_last(), c);
        if t.last() == c {
            p.push(seq![])
        } else {
            p.update(p.len() - 1, p.last().push(t.last()))
        }
    }
}

/// An octet of a dotted address: a number up to 255, or, where wildcards
/// are allowed, `*`.
pub open spec fn octet_ok(p: Seq<char>, wildcard: bool) -> bool {
    parse_unsigned(p, 255) is Some || (wildcard && p == seq!['*'])
}

/// Four dot-separated octets.
pub open spec fn dotted_quad(t: Seq<char>, wildcard: bool) -> bool {
    let parts = split_on(t, '.');
    parts.len() == 4 && forall|k: int| 0 <= k < 4 ==> octet_ok(#[trigger] parts[k], wildcard)
}

/// Four dot-separated octets, each possibly the wildcard `*`.
pub open spec fn ipv4_text(t: Seq<char>) -> bool {
    dotted_quad(t, true)
}

/// A character of a host name: a letter or digit (ASCII, or any that
/// `char::is_alphanumeric` accepts beyond ASCII), a dot or a hyphen.
pub open spec fn hostname_char(c: char) -> bool {
    if c <= '\x7f' {
        'a' <= c <= 'z' || 'A' <= c <= 'Z' || '0' <= c <= '9' || c == '.' || c == '-'
    } else {
        alphanumeric(c)
    }
}

/// Letters, digits, dots and hyphens only.
pub open spec fn hostname_text(t: Seq<char>) -> bool {
    forall|i: int| 0 <= i < t.len() ==> hostname_char(#[trigger] t[i])
}

pub open spec fn accepted(kind: Seq<char>, t: Seq<char>) -> (
    bool,
    Option<Seq<char>>,
    Option<Seq<char>>,
    Option<Seq<char>>,
) {
    (true, Some(kind), Some(t), None)
}

pub open spec fn refused(msg: Seq<char>) -> (
    bool,
    Option<Seq<char>>,
    Option<Seq<char>>,
    Option<Seq<char>>,
) {
    (false, None, None, Some(msg))
}

/// The verdict on an already trimmed target, tried in this order: empty,
/// CIDR, IP range, IPv4 (with `*` wildcards), IPv6, host name.
pub open spec fn target_verdict(t: Seq<char>) -> (
    bool,
    Option<Seq<char>>,
    Option<Seq<char>>,
    Option<Seq<char>>,
) {
    if t.len() == 0 {
        refused("Target cannot be empty"@)
    } else if t.contains('/') {
        if valid_cidr_text(t) {
            accepted("CIDR"@, t)
        } else {
            refused("Invalid CIDR notation"@)
        }
    } else if t.contains('-') && !t.contains(':') {
        accepted("IP Range"@, t)
    } else if ipv4_text(t) {
        accepted("IPv4"@, t)
    } else if t.contains(':') {
        accepted("IPv6"@, t)
    } else if hostname_text(t) {
        accepted("Hostname"@, t)
    } else {
        refused("Invalid target format"@)
    }
}

fn accept(kind: &str, t: &str) -> (r: TargetValidation)
    ensures
        r.view() == accepted(kind@, t@),
{
    TargetValidation {
        valid: true,
        target_type: Some(String::from_str(kind)),
        normalized: Some(String::from_str(t)),
        error: None,
    }
}

fn refuse(msg: &str) -> (r: TargetValidation)
    ensures
        r.view() == refused(msg@),
{
    TargetValidation { valid: false, target_type: None, normalized: None, error: Some(String::from_str(msg)) }
}

/// Two positions that are each the first `c` of `t` are the same.
proof fn lemma_first_unique(t: Seq<char>, c: char, i: int, j: int)
    requires
        0 <= i < t.len(),
        0 <= j < t.len(),
        t[i] == c,
        t[j] == c,
        !t.take(i).contains(c),
        !t.take(j).contains(c),
    ensures
        i == j,
{
    if j < i {
        assert(t.take(i)[j] == c);
    }
    if i < j {
        assert(t.take(j)[i] == c);
    }
}

/// Whether `v` is a CIDR text: one `/` and a prefix length up to 32 after it.
fn cidr_text_ok(v: &Vec<char>) -> (r: bool)
    ensures
        r == valid_cidr_text(v@),
{
    match find_char(v, '/') {
        None => false,
        Some(i) => {
            let n = v.len();
            assert(i < n);
            if contains_char(v, i + 1, n, '/') {
                proof {
                    if valid_cidr_text(v@) {
                        let j = choose|j: int|
                            sole_index(v@, '/', j) && (parse_unsigned(
                                v@.subrange(j + 1, v@.len() as int),
                                255,
                            ) matches Some(p) && p <= 32);
                        lemma_first_unique(v@, '/', i as int, j);
                    }
                }
                false
            } else {
                let p = parse_unsigned_range(v, i + 1, n, 255);
                proof {
                    if valid_cidr_text(v@) {
                        let j = choose|j: int|
                            sole_index(v@, '/', j) && (parse_unsigned(
                                v@.subrange(j + 1, v@.len() as int),
                                255,
                            ) matches Some(p) && p <= 32);
                        lemma_first_unique(v@, '/', i as int, j);
                    }
                }
                match p {
                    Some(n) => {
                        assert(sole_index(v@, '/', i as int));
                        n <= 32
                    },
                    None => false,
                }
            }
        },
    }
}

/// Whether `v[lo..hi]` is an octet (or the wildcard, where allowed).
fn octet_ok_range(v: &Vec<char>, lo: usize, hi: usize, wildcard: bool) -> (r: bool)
    requires
        lo <= hi <= v@.len(),
    ensures
        r == octet_ok(v@.subrange(lo as int, hi as int), wildcard),
{
    let n = parse_unsigned_range(v, lo, hi, 255);
    if n.is_some() {
        return true;
    }
    if wildcard && hi - lo == 1 && v[lo] == '*' {
        assert(v@.subrange(lo as int, hi as int) =~= seq!['*']);
        return true;
    }
    proof {
        if v@.subrange(lo as int, hi as int) == seq!['*'] {
            assert(v@.subrange(lo as int, hi as int)[0] == '*');
        }
    }
    false
}

/// How the pieces change when one more character is read.
proof fn lemma_split_step(t: Seq<char>, c: char, i: int)
    requires
        0 <= i < t.len(),
    ensures
        t[i] == c ==> split_on(t.take(i + 1), c) == split_on(t.take(i), c).push(seq![]),
        t[i] != c ==> split_on(t.take(i + 1), c) == split_on(t.take(i), c).update(
            split_on(t.take(i), c).len() - 1,
            split_on(t.take(i), c).last().push(t[i]),
        ),
{
    assert(t.take(i + 1).drop_last() =~= t.take(i));
    assert(t.take(i + 1).last() == t[i]);
}

/// There is always at least one piece.
proof fn lemma_split_nonempty(t: Seq<char>, c: char)
    ensures
        split_on(t, c).len() >= 1,
    decreases t.len(),
{
    if t.len() > 0 {
        lemma_split_nonempty(t.drop_last(), c);
    }
}

/// Whether `v` is four dot-separated octets.
#[verifier::rlimit(40)]
fn ipv4_ok(v: &Vec<char>, wildcard: bool) -> (r: bool)
    ensures
        r == dotted_quad(v@, wildcard),
{
    let mut start: usize = 0;
    let mut done: usize = 0;
    let mut ok = true;
    let mut i: usize = 0;
    while i < v.len()
        invariant
            start <= i <= v@.len(),
            split_on(v@.take(i as int), '.').len() == done + 1,
            split_on(v@.take(i as int), '.').last() == v@.subrange(start as int, i as int),
            done <= i,
            ok == forall|k: int| 0 <= k < done ==> octet_ok(#[trigger] split_on(v@.take(i as int), '.')[k], wildcard),
        decreases v@.len() - i,
    {
        let ghost before = split_on(v@.take(i as int), '.');
        proof {
            lemma_split_step(v@, '.', i as int);
            lemma_split_nonempty(v@.take(i as int), '.');
        }
        if v[i] == '.' {
            let part_ok = octet_ok_range(v, start, i, wildcard);
            proof {
                let after = split_on(v@.take(i + 1), '.');
                assert forall|k: int| 0 <= k < done + 1 implies after[k] == before[k] by {}
                assert(after.last() =~= v@.subrange(i + 1, i + 1));
            }
            ok = ok && part_ok;
            done = done + 1;
            start = i + 1;
        } else {
            proof {
                let after = split_on(v@.take(i + 1), '.');
                assert forall|k: int| 0 <= k < done implies after[k] == before[k] by {}
                assert(after.last() =~= v@.subrange(start as int, i + 1));
            }
        }
        i = i + 1;
    }
    assert(v@.take(v@.len() as int) =~= v@);
    let last_ok = octet_ok_range(v, start, v.len(), wildcard);
    if done == 3 && ok && last_ok {
        return true;
    }
    false
}

/// Whether every character is alphanumeric, a dot or a hyphen.
fn hostname_ok(v: &Vec<char>) -> (r: bool)
    ensures
        r == hostname_text(v@),
{
    let mut i: usize = 0;
    while i < v.len()
        invariant
            i <= v@.len(),
            forall|k: int|
                0 <= k < i ==> hostname_char(#[trigger] v@[k]),
        decreases v@.len() - i,
    {
        let c = v[i];
        if !(is_alphanumeric(c) || c == '.' || c == '-') {
            return false;
        }
        i = i + 1;
    }
    true
}

/// Classifies a target that is already trimmed.
pub fn classify_target(t: &str) -> (r: TargetValidation)
    ensures
        r.view() == target_verdict(t@),
{
    let v = chars_of(t);
    if v.len() == 0 {
        return refuse("Target cannot be empty");
    }
    if find_char(&v, '/').is_some() {
        if cidr_text_ok(&v) {
            return accept("CIDR", t);
        }
        return refuse("Invalid CIDR notation");
    }
    let has_colon = find_char(&v, ':').is_some();
    if find_char(&v, '-').is_some() && !has_colon {
        return accept("IP Range", t);
    }
    if ipv4_ok(&v, true) {
        return accept("IPv4", t);
    }
    if has_colon {
        return accept("IPv6", t);
    }
    if hostname_ok(&v) {
        return accept("Hostname", t);
    }
    refuse("Invalid target format")
}

/// Validate target specification: the target is trimmed, then classified.
pub fn validate_target(target: &str) -> (r: Result<TargetValidation, String>)
    ensures
        r matches Ok(v) && v.view() == target_verdict(trimmed(target@)),
        target@.len() == 0 || (visible_ascii(target@[0]) && visible_ascii(target@.last())) ==> (
        r matches Ok(v) && v.view() == target_verdict(target@)),
{
    Ok(classify_target(trim_str(target)))
}

/// An IPv4 address: four dot-separated numbers up to 255.
pub fn is_valid_ip(ip: &str) -> (r: bool)
    ensures
        r == dotted_quad(ip@, false),
{
    ipv4_ok(&chars_of(ip), false)
}

/// An IPv4 subnet: an address, one `/`, and a prefix length up to 32.
pub open spec fn subnet_text(t: Seq<char>) -> bool {
    exists|i: int|
        sole_index(t, '/', i) && (parse_unsigned(t.subrange(i + 1, t.len() as int), 255) matches Some(
            p,
        ) && p <= 32) && dotted_quad(t.take(i), false)
}

/// Whether a subnet is written `a.b.c.d/nn`.
pub fn is_valid_subnet(subnet: &str) -> (r: bool)
    ensures
        r == subnet_text(subnet@),
{
    let v = chars_of(subnet);
    let n = v.len();
    let i = match find_char(&v, '/') {
        None => {
            return false;
        },
        Some(i) => i,
    };
    assert(i < n);
    proof {
        assert forall|j: int| sole_index(v@, '/', j) implies j == i by {
            lemma_first_unique(v@, '/', i as int, j);
        }
    }
    if contains_char(&v, i + 1, n, '/') {
        return false;
    }
    let ok_prefix = match parse_unsigned_range(&v, i + 1, n, 255) {
        Some(p) => p <= 32,
        None => false,
    };
    if !ok_prefix {
        return false;
    }
    let address = subnet.substring_char(0, i);
    let ok_address = is_valid_ip(address);
    assert(address@ =~= v@.take(i as int));
    if ok_address {
        assert(sole_index(v@, '/', i as int));
    }
    ok_address
}

/// Whether `s` begins with `p`.
pub open spec fn is_prefix(p: Seq<char>, s: Seq<char>) -> bool {
    p.len() <= s.len() && s.take(p.len() as int) == p
}

/// Whether some argument already sets a timing template (`-T...`).
pub open spec fn has_timing(args: Seq<Seq<char>>) -> bool {
    exists|i: int| 0 <= i < args.len() && is_prefix("-T"@, #[trigger] args[i])
}

/// The arguments that select the kind of scan.
pub open spec fn scan_type_args(config: ScanConfig) -> Seq<Seq<char>> {
    if config.scan_type == ScanType::Custom {
        match config.custom_args {
            Some(c) => words(c@),
            None => seq![],
        }
    } else {
        config.scan_type.spec_nmap_args()
    }
}

/// The full Nmap argument list of a configuration: the scan-type arguments;
/// `-T5` when aggressive and no timing was given; `-Pn` to skip discovery;
/// `-p` with the ports; `--exclude` with the excluded targets joined by
/// commas; XML output to standard output; and the targets last.
pub open spec fn nmap_command(config: ScanConfig) -> Seq<Seq<char>> {
    let a0 = scan_type_args(config);
    let a1 = if config.aggressive && !has_timing(a0) {
        a0.push("-T5"@)
    } else {
        a0
    };
    let a2 = if config.skip_discovery {
        a1.push("-Pn"@)
    } else {
        a1
    };
    let a3 = match config.ports {
        Some(p) => a2.push("-p"@).push(p@),
        None => a2,
    };
    let a4 = match config.exclude_targets {
        Some(e) => if e@.len() > 0 {
            a3.push("--exclude"@).push(joined(string_views(e@), ","@))
        } else {
            a3
        },
        None => a3,
    };
    a4.push("-oX"@).push("-"@) + string_views(config.targets@)
}

/// Build Nmap command from scan configuration
pub fn build_nmap_command(config: &ScanConfig) -> (r: Vec<String>)
    ensures
        string_views(r@) == nmap_command(*config),
{
    let mut args: Vec<String> = Vec::new();
    match config.scan_type {
        ScanType::Custom => {
            match &config.custom_args {
                Some(custom) => {
                    args = split_words(custom.as_str());
                },
                None => {},
            }
        },
        _ => {
            let base = config.scan_type.to_nmap_args();
            let mut k: usize = 0;
            while k < base.len()
                invariant
                    k <= base@.len(),
                    base@.map_values(|a: &'static str| a@) == config.scan_type.spec_nmap_args(),
                    string_views(args@) == config.scan_type.spec_nmap_args().take(k as int),
                decreases base@.len() - k,
            {
                let a = String::from_str(base[k]);
                assert(base@.map_values(|a: &'static str| a@)[k as int] == base@[k as int]@);
                let ghost old_args = args@;
                args.push(a);
                assert(args@ == old_args.push(a));
                assert(string_views(args@) =~= string_views(old_args).push(a@));
                assert(string_views(args@) =~= config.scan_type.spec_nmap_args().take(k + 1));
                k = k + 1;
            }
            assert(config.scan_type.spec_nmap_args().take(base@.len() as int) =~= config.scan_type.spec_nmap_args());
        },
    }
    let ghost a0 = string_views(args@);
    assert(a0 == scan_type_args(*config));
    if config.aggressive {
        let mut timing = false;
        let mut k: usize = 0;
        while k < args.len()
            invariant
                k <= args@.len(),
                a0 == string_views(args@),
                timing == exists|i: int| 0 <= i < k && is_prefix("-T"@, #[trigger] a0[i]),
            decreases args@.len() - k,
        {
            assert(a0[k as int] == args@[k as int]@);
            if starts_with(args[k].as_str(), "-T") {
                timing = true;
            }
            k = k + 1;
        }
        if !timing {
            args.push(String::from_str("-T5"));
        }
    }
    if config.skip_discovery {
        args.push(String::from_str("-Pn"));
    }
    match &config.ports {
        Some(p) => {
            args.push(String::from_str("-p"));
            args.push(p.clone());
        },
        None => {},
    }
    match &config.exclude_targets {
        Some(excludes) => {
            if excludes.len() > 0 {
                args.push(String::from_str("--exclude"));
                args.push(join(excludes, ","));
            }
        },
        None => {},
    }
    args.push(String::from_str("-oX"));
    args.push(String::from_str("-"));
    let ghost before = string_views(args@);
    let mut k: usize = 0;
    while k < config.targets.len()
        invariant
            k <= config.targets@.len(),
            string_views(args@) == before + string_views(config.targets@).take(k as int),
        decreases config.targets@.len() - k,
    {
        let t = config.targets[k].clone();
        assert(t@ == config.targets@[k as int]@);
        let ghost old_args = args@;
        args.push(t);
        assert(args@ == old_args.push(t));
        assert(string_views(args@) =~= string_views(old_args).push(t@));
        assert(string_views(args@) =~= before + string_views(config.targets@).take(k + 1));
        k = k + 1;
    }
    assert(string_views(config.targets@).take(config.targets@.len() as int) =~= string_views(config.targets@));
    assert(string_views(args@) =~= nmap_command(*config));
    args
}

/// The scan types offered to the user, in menu order.
pub open spec fn offered_scan_types() -> Seq<ScanType> {
    seq![
        ScanType::PingSweep,
        ScanType::QuickScan,
        ScanType::StandardScan,
        ScanType::FullScan,
        ScanType::ServiceDetection,
        ScanType::OsDetection,
        ScanType::VulnerabilityScan,
        ScanType::UdpScan,
    ]
}

/// Whether `info` describes `t` with the given need for root.
pub open spec fn describes(info: ScanTypeInfo, t: ScanType, requires_root: bool) -> bool {
    &&& info.scan_type == t
    &&& info.name@ == t.spec_display_name()
    &&& info.description@ == t.spec_description()
    &&& info.duration@ == t.spec_duration_estimate()
    &&& info.requires_root == requires_root
}

fn scan_type_info(t: ScanType, requires_root: bool) -> (r: ScanTypeInfo)
    ensures
        describes(r, t, requires_root),
{
    ScanTypeInfo {
        scan_type: t,
        name: String::from_str(t.display_name()),
        description: String::from_str(t.description()),
        duration: String::from_str(t.duration_estimate()),
        requires_root,
    }
}

/// Get available scan types with their descriptions: all but the ping
/// sweep need root.
pub fn get_scan_types() -> (r: Vec<ScanTypeInfo>)
    ensures
        r@.len() == offered_scan_types().len(),
        forall|k: int|
            0 <= k < r@.len() ==> describes(#[trigger] r@[k], offered_scan_types()[k], k != 0),
{
    let r = vec![
        scan_type_info(ScanType::PingSweep, false),
        scan_type_info(ScanType::QuickScan, true),
        scan_type_info(ScanType::StandardScan, true),
        scan_type_info(ScanType::FullScan, true),
        scan_type_info(ScanType::ServiceDetection, true),
        scan_type_info(ScanType::OsDetection, true),
        scan_type_info(ScanType::VulnerabilityScan, true),
        scan_type_info(ScanType::UdpScan, true),
    ];
    r
}

pub open spec fn common_port_table() -> Seq<(u16, Seq<char>, Seq<char>)> {
    seq![
        (21, "FTP"@, "File Transfer Protocol"@),
        (22, "SSH"@, "Secure Shell"@),
        (23, "Telnet"@, "Telnet (insecure)"@),
        (25, "SMTP"@, "Simple Mail Transfer Protocol"@),
        (53, "DNS"@, "Domain Name System"@),
        (80, "HTTP"@, "Hypertext Transfer Protocol"@),
        (110, "POP3"@, "Post Office Protocol v3"@),
        (135, "MSRPC"@, "Microsoft RPC"@),
        (139, "NetBIOS"@, "NetBIOS Session Service"@),
        (143, "IMAP"@, "Internet Message Access Protocol"@),
        (443, "HTTPS"@, "HTTP Secure"@),
        (445, "SMB"@, "Server Message Block"@),
        (993, "IMAPS"@, "IMAP over SSL"@),
        (995, "POP3S"@, "POP3 over SSL"@),
        (1433, "MSSQL"@, "Microsoft SQL Server"@),
        (1521, "Oracle"@, "Oracle Database"@),
        (3306, "MySQL"@, "MySQL Database"@),
        (3389, "RDP"@, "Remote Desktop Protocol"@),
        (5432, "PostgreSQL"@, "PostgreSQL Database"@),
        (5900, "VNC"@, "Virtual Network Computing"@),
        (6379, "Redis"@, "Redis Database"@),
        (8080, "HTTP-Alt"@, "HTTP Alternative"@),
        (8443, "HTTPS-Alt"@, "HTTPS Alternative"@),
        (27017, "MongoDB"@, "MongoDB Database"@),
    ]
}

/// Common port definitions for quick reference
pub fn get_common_ports() -> (r: Vec<CommonPort>)
    ensures
        r@.map_values(|c: CommonPort| (c.port, c.service@, c.description@)) == common_port_table(),
{
    let r = vec![
        CommonPort { port: 21, service: "FTP", description: "File Transfer Protocol" },
        CommonPort { port: 22, service: "SSH", description: "Secure Shell" },
        CommonPort { port: 23, service: "Telnet", description: "Telnet (insecure)" },
        CommonPort { port: 25, service: "SMTP", description: "Simple Mail Transfer Protocol" },
        CommonPort { port: 53, service: "DNS", description: "Domain Name System" },
        CommonPort { port: 80, service: "HTTP", description: "Hypertext Transfer Protocol" },
        CommonPort { port: 110, service: "POP3", description: "Post Office Protocol v3" },
        CommonPort { port: 135, service: "MSRPC", description: "Microsoft RPC" },
        CommonPort { port: 139, service: "NetBIOS", description: "NetBIOS Session Service" },
        CommonPort { port: 143, service: "IMAP", description: "Internet Message Access Protocol" },
        CommonPort { port: 443, service: "HTTPS", description: "HTTP Secure" },
        CommonPort { port: 445, service: "SMB", description: "Server Message Block" },
        CommonPort { port: 993, service: "IMAPS", description: "IMAP over SSL" },
        CommonPort { port: 995, service: "POP3S", description: "POP3 over SSL" },
        CommonPort { port: 1433, service: "MSSQL", description: "Microsoft SQL Server" },
        CommonPort { port: 1521, service: "Oracle", description: "Oracle Database" },
        CommonPort { port: 3306, service: "MySQL", description: "MySQL Database" },
        CommonPort { port: 3389, service: "RDP", description: "Remote Desktop Protocol" },
        CommonPort { port: 5432, service: "PostgreSQL", description: "PostgreSQL Database" },
        CommonPort { port: 5900, service: "VNC", description: "Virtual Network Computing" },
        CommonPort { port: 6379, service: "Redis", description: "Redis Database" },
        CommonPort { port: 8080, service: "HTTP-Alt", description: "HTTP Alternative" },
        CommonPort { port: 8443, service: "HTTPS-Alt", description: "HTTPS Alternative" },
        CommonPort { port: 27017, service: "MongoDB", description: "MongoDB Database" },
    ];
    assert(r@.map_values(|c: CommonPort| (c.port, c.service@, c.description@)) =~= common_port_table());
    r
}

} // verus!
