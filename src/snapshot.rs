//! One sample of the system's state and its wire encoding.

use vstd::prelude::*;
use crate::config::Config;
use crate::endpoint::Endpoint;
use crate::scheduler::next_interval;

verus! {

/// Relies on `String::push`: appends the character.
#[verifier::external_body]
fn push_char(s: &mut String, c: char)
    ensures
        final(s)@ == old(s)@.push(c),
{
    s.push(c);
}

/// The decimal digit of `d`, for `d < 10`.
pub open spec fn digit_char(d: nat) -> char {
    (('0' as nat) + d) as char
}

/// The decimal text of `n`, without leading zeros.
pub open spec fn decimal_text(n: nat) -> Seq<char>
    decreases n,
{
    if n < 10 {
        seq![digit_char(n)]
    } else {
        decimal_text(n / 10).push(digit_char(n % 10))
    }
}

/// The lower-case hexadecimal digit of `d`, for `d < 16`.
pub open spec fn hex_char(d: nat) -> char {
    if d < 10 {
        digit_char(d)
    } else {
        (('a' as nat) + (d - 10)) as char
    }
}

/// Two lower-case hexadecimal digits for each byte, without separators.
pub open spec fn hex_text(b: Seq<u8>) -> Seq<char>
    decreases b.len(),
{
    if b.len() == 0 {
        Seq::empty()
    } else {
        hex_text(b.drop_last()).push(hex_char(b.last() as nat / 16)).push(
            hex_char(b.last() as nat % 16),
        )
    }
}

/// The network identifier reported where no interface can be read: the
/// unspecified hardware address.
pub open spec fn unspecified_id() -> Seq<char> {
    Seq::new(12, |i: int| '0')
}

fn append_decimal(s: &mut String, n: u64)
    ensures
        final(s)@ == old(s)@ + decimal_text(n as nat),
    decreases n,
{
    if n >= 10 {
        append_decimal(s, n / 10);
    }
    let d = (n % 10) as u8;
    let c = (48u8 + d) as char;
    push_char(s, c);
}

/// The decimal text of `n`.
pub fn decimal_string(n: u64) -> (r: String)
    ensures
        r@ == decimal_text(n as nat),
{
    let mut s = String::new();
    append_decimal(&mut s, n);
    assert(s@ =~= decimal_text(n as nat));
    s
}

fn hex_digit(d: u8) -> (c: char)
    requires
        d < 16,
    ensures
        c == hex_char(d as nat),
{
    if d < 10 {
        (48u8 + d) as char
    } else {
        (87u8 + d) as char
    }
}

/// The hardware address `mac` as twelve hexadecimal digits.
pub fn mac_hex(mac: [u8; 6]) -> (r: String)
    ensures
        r@ == hex_text(mac@),
{
    let mut s = String::new();
    let mut i: usize = 0;
    assert(mac@.take(0) =~= Seq::<u8>::empty());
    while i < 6
        invariant
            i <= 6,
            mac@.len() == 6,
            s@ == hex_text(mac@.take(i as int)),
        decreases 6 - i,
    {
        let b = mac[i];
        push_char(&mut s, hex_digit(b / 16));
        push_char(&mut s, hex_digit(b % 16));
        proof {
            let t = mac@.take(i as int + 1);
            assert(t.drop_last() =~= mac@.take(i as int));
            assert(t.last() == b);
        }
        i = i + 1;
    }
    assert(mac@.take(6) =~= mac@);
    s
}

/// The network identifier of a snapshot: the hexadecimal digits of the
/// interface's hardware address, or of the unspecified address where no
/// interface was found.
pub fn network_id(mac: Option<[u8; 6]>) -> (r: String)
    ensures
        r@ == match mac {
            Some(m) => hex_text(m@),
            None => unspecified_id(),
        },
{
    match mac {
        Some(m) => mac_hex(m),
        None => {
            let r = mac_hex([0u8; 6]);
            proof {
                let z = seq![0u8, 0u8, 0u8, 0u8, 0u8, 0u8];
                assert(hex_text(z.take(0)) =~= Seq::<char>::empty());
                reveal_with_fuel(hex_text, 7);
                assert(hex_text(z) =~= unspecified_id());
            }
            r
        },
    }
}

/// A network interface as the system reports it.
pub struct Interface {
    pub name: String,
    pub mac: [u8; 6],
}

/// The hardware address of the first interface of `interfaces` called
/// `wanted`, or of the first interface at all where none is wanted.
pub open spec fn selected_mac(interfaces: Seq<Interface>, wanted: Option<Seq<char>>) -> Option<
    [u8; 6],
>
    decreases interfaces.len(),
{
    if interfaces.len() == 0 {
        None
    } else {
        match wanted {
            None => Some(interfaces[0].mac),
            Some(w) => if interfaces[0].name@ == w {
                Some(interfaces[0].mac)
            } else {
                selected_mac(interfaces.drop_first(), wanted)
            },
        }
    }
}

/// Picks the hardware address to report.
pub fn select_mac(interfaces: &Vec<Interface>, wanted: &Option<String>) -> (r: Option<[u8; 6]>)
    ensures
        r == selected_mac(interfaces@, crate::config::opt_view(*wanted)),
{
    let n = interfaces.len();
    let mut i: usize = 0;
    assert(interfaces@.skip(0) =~= interfaces@);
    while i < n
        invariant
            n == interfaces@.len(),
            i <= n,
            selected_mac(interfaces@, crate::config::opt_view(*wanted)) == selected_mac(
                interfaces@.skip(i as int),
                crate::config::opt_view(*wanted),
            ),
        decreases n - i,
    {
        let iface = &interfaces[i];
        let ghost rest = interfaces@.skip(i as int);
        assert(rest[0] == interfaces@[i as int]);
        assert(rest.drop_first() =~= interfaces@.skip(i as int + 1));
        match wanted {
            None => return Some(iface.mac),
            Some(w) => {
                if iface.name == *w {
                    return Some(iface.mac);
                }
            },
        }
        i = i + 1;
    }
    None
}

/// A mounted volume as the system reports it, its sizes in bytes.
pub struct DiskUsage {
    pub mount_point: String,
    pub total_space: u64,
    pub available_space: u64,
}

pub open spec fn used_bytes(d: DiskUsage) -> nat {
    if d.total_space >= d.available_space {
        (d.total_space - d.available_space) as nat
    } else {
        0
    }
}

/// The used megabytes of the first volume mounted at `root`, or zero where
/// no volume is mounted there.
pub open spec fn disk_used_of(disks: Seq<DiskUsage>, root: Seq<char>) -> nat
    decreases disks.len(),
{
    if disks.len() == 0 {
        0
    } else if disks[0].mount_point@ == root {
        used_bytes(disks[0]) / 1048576
    } else {
        disk_used_of(disks.drop_first(), root)
    }
}

/// The used megabytes of the volume mounted at `root`: total less available
/// space, or zero where no volume is mounted there.
pub fn disk_used_megabytes(disks: &Vec<DiskUsage>, root: &String) -> (r: u64)
    ensures
        r == disk_used_of(disks@, root@),
{
    let n = disks.len();
    let mut i: usize = 0;
    assert(disks@.skip(0) =~= disks@);
    while i < n
        invariant
            n == disks@.len(),
            i <= n,
            disk_used_of(disks@, root@) == disk_used_of(disks@.skip(i as int), root@),
        decreases n - i,
    {
        let d = &disks[i];
        let ghost rest = disks@.skip(i as int);
        assert(rest[0] == disks@[i as int]);
        assert(rest.drop_first() =~= disks@.skip(i as int + 1));
        if d.mount_point == *root {
            let used = if d.total_space >= d.available_space {
                d.total_space - d.available_space
            } else {
                0
            };
            return used / 1048576;
        }
        i = i + 1;
    }
    0
}

/// One sample: memory in use (bytes), disk in use (megabytes) and the
/// network identifier.
pub struct Snapshot {
    pub memory_used: u64,
    pub disk_used: u64,
    pub network_id: String,
}

/// The wire text of a snapshot: the three fields, separated by one space.
pub open spec fn wire_text(memory_used: u64, disk_used: u64, network_id: Seq<char>) -> Seq<char> {
    decimal_text(memory_used as nat) + seq![' '] + decimal_text(disk_used as nat) + seq![' ']
        + network_id
}

impl Snapshot {
    /// A sample of the system from what it reports.
    pub fn new(memory_used: u64, disks: &Vec<DiskUsage>, root: &String, network_id: String) -> (r:
        Snapshot)
        ensures
            r.memory_used == memory_used,
            r.disk_used == disk_used_of(disks@, root@),
            r.network_id == network_id,
    {
        Snapshot { memory_used, disk_used: disk_used_megabytes(disks, root), network_id }
    }

    /// The datagram that reports this sample: its wire text in UTF-8.
    pub fn encode(&self) -> (r: Vec<u8>)
        ensures
            r@ == vstd::utf8::encode_utf8(
                wire_text(self.memory_used, self.disk_used, self.network_id@),
            ),
    {
        let mut s = decimal_string(self.memory_used);
        push_char(&mut s, ' ');
        append_decimal(&mut s, self.disk_used);
        push_char(&mut s, ' ');
        let s = s.concat(self.network_id.as_str());
        assert(s@ =~= wire_text(self.memory_used, self.disk_used, self.network_id@));
        vstd::slice::slice_to_vec(s.as_str().as_bytes())
    }
}

/// What the report loop does next: send `payload` to `destination`, then
/// sleep `sleep_secs` seconds.
pub struct ReportAction {
    pub payload: Vec<u8>,
    pub destination: Endpoint,
    pub sleep_secs: u64,
}

/// One round of the report loop, from the snapshot just taken.
pub fn report_step(config: &Config, snapshot: &Snapshot) -> (r: ReportAction)
    requires
        config.wf(),
    ensures
        r.payload@ == vstd::utf8::encode_utf8(
            wire_text(snapshot.memory_used, snapshot.disk_used, snapshot.network_id@),
        ),
        r.destination == config.stats_destination,
        config.min_interval <= r.sleep_secs <= config.max_interval,
        config.min_interval == config.max_interval ==> r.sleep_secs == config.min_interval,
{
    ReportAction {
        payload: snapshot.encode(),
        destination: config.stats_destination,
        sleep_secs: next_interval(config.min_interval, config.max_interval),
    }
}

} // verus!
