use vstd::prelude::*;
use vstd::string::StrSliceExecFns;

verus! {

/// Length in bytes of a WireGuard public or pre-shared key.
pub const KEY_LEN: usize = 32;

/// One allowed-IP range: an IPv4 (4 bytes) or IPv6 (16 bytes) address and a prefix length.
#[derive(Clone, Debug)]
pub struct IpRange {
    pub addr: Vec<u8>,
    pub prefix_len: u8,
}

impl IpRange {
    pub open spec fn spec_valid(&self) -> bool {
        (self.addr@.len() == 4 && self.prefix_len <= 32) || (self.addr@.len() == 16
            && self.prefix_len <= 128)
    }

    /// Whether the address has a known family and the prefix fits it.
    pub fn is_valid(&self) -> (r: bool)
        ensures
            r == self.spec_valid(),
    {
        let n = self.addr.len();
        (n == 4 && self.prefix_len <= 32) || (n == 16 && self.prefix_len <= 128)
    }
}

/// Connection parameters of one tunnel.
#[derive(Clone, Debug)]
pub struct TunnelConfig {
    pub endpoint_host: String,
    pub endpoint_port: u16,
    pub local_public_key: Vec<u8>,
    pub remote_public_key: Vec<u8>,
    pub preshared_key: Option<Vec<u8>>,
    pub allowed_ips: Vec<IpRange>,
    pub keepalive_secs: u16,
}

/// Longest host name accepted, in characters.
pub const MAX_HOST_LEN: usize = 253;

/// A letter, a digit, a hyphen or a dot.
pub open spec fn is_host_char(c: char) -> bool {
    ('a' <= c && c <= 'z') || ('A' <= c && c <= 'Z') || ('0' <= c && c <= '9') || c == '-'
        || c == '.'
}

/// Position `i` of `h` fits a host name: a dot or a hyphen stands between two
/// characters that are not dots, so no label is empty and none begins or ends with `-`.
pub open spec fn host_pos_ok(h: Seq<char>, i: int) -> bool {
    &&& is_host_char(h[i])
    &&& (h[i] == '.' || h[i] == '-') ==> (0 < i && i + 1 < h.len() && h[i - 1] != '.' && h[i
        + 1] != '.')
}

/// A host name: dot-separated labels of letters, digits and `-`, at most
/// `MAX_HOST_LEN` characters in all. Dotted IPv4 literals are host names in this sense.
pub open spec fn host_name_ok(h: Seq<char>) -> bool {
    &&& 0 < h.len() <= MAX_HOST_LEN
    &&& forall|i: int| 0 <= i < h.len() ==> #[trigger] host_pos_ok(h, i)
}

fn host_char(c: char) -> (r: bool)
    ensures
        r == is_host_char(c),
{
    ('a' <= c && c <= 'z') || ('A' <= c && c <= 'Z') || ('0' <= c && c <= '9') || c == '-'
        || c == '.'
}

/// Whether `h` is a well-formed host name.
pub fn is_host_name(h: &str) -> (r: bool)
    ensures
        r == host_name_ok(h@),
{
    let n = h.unicode_len();
    if n == 0 || n > MAX_HOST_LEN {
        return false;
    }
    let mut i: usize = 0;
    while i < n
        invariant
            n == h@.len(),
            0 < n <= MAX_HOST_LEN,
            0 <= i <= n,
            forall|j: int| 0 <= j < i ==> #[trigger] host_pos_ok(h@, j),
        decreases n - i,
    {
        let c = h.get_char(i);
        if !host_char(c) {
            assert(!host_pos_ok(h@, i as int));
            return false;
        }
        if c == '.' || c == '-' {
            if i == 0 || i + 1 >= n {
                assert(!host_pos_ok(h@, i as int));
                return false;
            }
            if h.get_char(i - 1) == '.' || h.get_char(i + 1) == '.' {
                assert(!host_pos_ok(h@, i as int));
                return false;
            }
        }
        assert(host_pos_ok(h@, i as int));
        i += 1;
    }
    true
}

/// Longest IPv6 literal accepted, in characters: eight groups of four hex digits.
pub const MAX_IPV6_LEN: usize = 39;

pub open spec fn is_hex_char(c: char) -> bool {
    ('0' <= c && c <= '9') || ('a' <= c && c <= 'f') || ('A' <= c && c <= 'F')
}

/// Position `i` of `h` fits an IPv6 literal: a hex digit or a colon, no three
/// colons in a row, no five hex digits in a row, and a colon at either end
/// only as part of `::`.
pub open spec fn ipv6_pos_ok(h: Seq<char>, i: int) -> bool {
    &&& is_hex_char(h[i]) || h[i] == ':'
    &&& i + 2 < h.len() ==> !(h[i] == ':' && h[i + 1] == ':' && h[i + 2] == ':')
    &&& i + 4 < h.len() ==> !(is_hex_char(h[i]) && is_hex_char(h[i + 1]) && is_hex_char(h[i + 2])
        && is_hex_char(h[i + 3]) && is_hex_char(h[i + 4]))
    &&& (i == 0 && h[i] == ':') ==> (1 < h.len() && h[1] == ':')
    &&& (i == h.len() - 1 && h[i] == ':') ==> (0 < i && h[i - 1] == ':')
}

/// A group of hex digits begins at position `i`.
pub open spec fn group_start(h: Seq<char>, i: int) -> bool {
    is_hex_char(h[i]) && (i == 0 || h[i - 1] == ':')
}

/// A `::` begins at position `i`.
pub open spec fn double_colon(h: Seq<char>, i: int) -> bool {
    i + 1 < h.len() && h[i] == ':' && h[i + 1] == ':'
}

/// Number of groups that begin before position `k`.
pub open spec fn groups_before(h: Seq<char>, k: int) -> nat
    decreases k,
{
    if k <= 0 {
        0
    } else {
        groups_before(h, k - 1) + if group_start(h, k - 1) { 1nat } else { 0nat }
    }
}

/// Number of `::` that begin before position `k`.
pub open spec fn doubles_before(h: Seq<char>, k: int) -> nat
    decreases k,
{
    if k <= 0 {
        0
    } else {
        doubles_before(h, k - 1) + if double_colon(h, k - 1) { 1nat } else { 0nat }
    }
}

/// An IPv6 literal: eight colon-separated groups of one to four hex digits, or
/// at most seven such groups with one `::` standing for the rest.
pub open spec fn ipv6_literal_ok(h: Seq<char>) -> bool {
    &&& 2 <= h.len() <= MAX_IPV6_LEN
    &&& forall|i: int| 0 <= i < h.len() ==> #[trigger] ipv6_pos_ok(h, i)
    &&& {
        let g = groups_before(h, h.len() as int);
        let d = doubles_before(h, h.len() as int);
        (d == 0 && g == 8) || (d == 1 && g <= 7)
    }
}

fn hex_char(c: char) -> (r: bool)
    ensures
        r == is_hex_char(c),
{
    ('0' <= c && c <= '9') || ('a' <= c && c <= 'f') || ('A' <= c && c <= 'F')
}

/// Whether `h` is a well-formed IPv6 literal.
pub fn is_ipv6_literal(h: &str) -> (r: bool)
    ensures
        r == ipv6_literal_ok(h@),
{
    let n = h.unicode_len();
    if n < 2 || n > MAX_IPV6_LEN {
        return false;
    }
    let mut groups: usize = 0;
    let mut doubles: usize = 0;
    let mut i: usize = 0;
    while i < n
        invariant
            n == h@.len(),
            2 <= n <= MAX_IPV6_LEN,
            0 <= i <= n,
            groups == groups_before(h@, i as int),
            doubles == doubles_before(h@, i as int),
            groups <= i,
            doubles <= i,
            forall|j: int| 0 <= j < i ==> #[trigger] ipv6_pos_ok(h@, j),
        decreases n - i,
    {
        let c = h.get_char(i);
        let hex = hex_char(c);
        if !hex && c != ':' {
            assert(!ipv6_pos_ok(h@, i as int));
            return false;
        }
        if c == ':' && i + 2 < n && h.get_char(i + 1) == ':' && h.get_char(i + 2) == ':' {
            assert(!ipv6_pos_ok(h@, i as int));
            return false;
        }
        if i + 4 < n && hex && hex_char(h.get_char(i + 1)) && hex_char(h.get_char(i + 2))
            && hex_char(h.get_char(i + 3)) && hex_char(h.get_char(i + 4)) {
            assert(!ipv6_pos_ok(h@, i as int));
            return false;
        }
        if i == 0 && c == ':' && h.get_char(1) != ':' {
            assert(!ipv6_pos_ok(h@, i as int));
            return false;
        }
        if i == n - 1 && c == ':' && h.get_char(i - 1) != ':' {
            assert(!ipv6_pos_ok(h@, i as int));
            return false;
        }
        assert(ipv6_pos_ok(h@, i as int));
        if hex && (i == 0 || h.get_char(i - 1) == ':') {
            groups += 1;
        }
        if c == ':' && i + 1 < n && h.get_char(i + 1) == ':' {
            doubles += 1;
        }
        i += 1;
    }
    (doubles == 0 && groups == 8) || (doubles == 1 && groups <= 7)
}

pub open spec fn key_ok(k: Seq<u8>) -> bool {
    k.len() == KEY_LEN
}

impl TunnelConfig {
    /// The host is a host name or an IPv6 literal, and the port is not 0.
    pub open spec fn endpoint_valid(&self) -> bool {
        (host_name_ok(self.endpoint_host@) || ipv6_literal_ok(self.endpoint_host@))
            && self.endpoint_port != 0
    }

    pub open spec fn keys_valid(&self) -> bool {
        key_ok(self.local_public_key@) && key_ok(self.remote_public_key@) && match self.preshared_key {
            Some(k) => key_ok(k@),
            None => true,
        }
    }

    pub open spec fn allowed_ips_valid(&self) -> bool {
        self.allowed_ips@.len() > 0 && forall|i: int|
            0 <= i < self.allowed_ips@.len() ==> #[trigger] self.allowed_ips@[i].spec_valid()
    }

    /// A configuration is accepted when its endpoint, keys and allowed IPs are all well formed.
    pub open spec fn spec_valid(&self) -> bool {
        self.endpoint_valid() && self.keys_valid() && self.allowed_ips_valid()
    }

    pub fn is_valid(&self) -> (r: bool)
        ensures
            r == self.spec_valid(),
    {
        let host = self.endpoint_host.as_str();
        if !(is_host_name(host) || is_ipv6_literal(host)) || self.endpoint_port == 0 {
            return false;
        }
        if self.local_public_key.len() != KEY_LEN || self.remote_public_key.len() != KEY_LEN {
            return false;
        }
        match &self.preshared_key {
            Some(k) => {
                if k.len() != KEY_LEN {
                    return false;
                }
            },
            None => {},
        }
        if self.allowed_ips.len() == 0 {
            return false;
        }
        let mut i: usize = 0;
        while i < self.allowed_ips.len()
            invariant
                0 <= i <= self.allowed_ips@.len(),
                forall|j: int| 0 <= j < i ==> #[trigger] self.allowed_ips@[j].spec_valid(),
            decreases self.allowed_ips@.len() - i,
        {
            if !self.allowed_ips[i].is_valid() {
                return false;
            }
            i += 1;
        }
        true
    }
}

} // verus!
