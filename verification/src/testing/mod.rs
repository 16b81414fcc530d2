//! Support for tests that run a whole server: pools of ports that are free on the machine, and the
//! set-up of the servers that such tests start.
use crate::server::Config;
use crate::text::{decimal, push_decimal};
use std::ops::Range;
use vstd::prelude::*;
use vstd::string::*;
use vstd::utf8::encode_utf8;

pub mod tcp;
pub mod udp;

verus! {

/// The first port of the pool of single ports.
pub const PORT_POOL_START: u16 = 5000;

/// How many ports the pool of single ports is looked for in.
pub const PORT_POOL_SPAN: usize = 1000;

/// How many ports the pool of single ports holds.
pub const PORT_POOL_NUM: usize = 100;

/// The first port of the pool of port ranges.
pub const PORT_POOL_BULK_START: u16 = 6000;

/// How many ports a range of the pool has.
pub const PORT_POOL_BULK_SIZE: u16 = 5;

/// How many ranges the pool of port ranges holds.
pub const PORT_POOL_BULK_NUM: usize = 20;

/// A token server that was started.
#[derive(Clone, Copy, Debug, PartialEq, Eq, Structural)]
pub struct TokenServer {}

/// A local server that was started.
#[derive(Clone, Copy, Debug, PartialEq, Eq, Structural)]
pub struct LocalServer {}

/// The free ports among the first `n` from `start`, where `available[i]` says whether `start + i` is
/// free.
pub open spec fn free_ports(start: u16, available: Seq<bool>, n: nat) -> Seq<u16>
    decreases n,
{
    if n == 0 {
        Seq::empty()
    } else {
        let before = free_ports(start, available, (n - 1) as nat);
        if available[n - 1] {
            before.push((start + (n - 1)) as u16)
        } else {
            before
        }
    }
}

/// Whether the pool of single ports can be filled before the last port of its span.
pub fn has_available_ports(available: &Vec<bool>) -> (b: bool)
    requires
        available@.len() == PORT_POOL_SPAN,
    ensures
        b <==> free_ports(PORT_POOL_START, available@, (PORT_POOL_SPAN - 1) as nat).len()
            >= PORT_POOL_NUM,
{
    let mut count: usize = 0;
    let mut i: usize = 0;
    while i < PORT_POOL_SPAN - 1
        invariant
            i <= PORT_POOL_SPAN - 1,
            available@.len() == PORT_POOL_SPAN,
            count <= i,
            count == free_ports(PORT_POOL_START, available@, i as nat).len(),
        decreases PORT_POOL_SPAN - i,
    {
        if available[i] {
            count = count + 1;
        }
        i = i + 1;
    }
    count >= PORT_POOL_NUM
}

proof fn lemma_free_ports_prefix(start: u16, available: Seq<bool>, m: nat, n: nat)
    requires
        m <= n,
    ensures
        free_ports(start, available, m).len() <= free_ports(start, available, n).len(),
        free_ports(start, available, m) == free_ports(start, available, n).take(
            free_ports(start, available, m).len() as int,
        ),
    decreases n,
{
    let a = free_ports(start, available, m);
    if m < n {
        lemma_free_ports_prefix(start, available, m, (n - 1) as nat);
        let before = free_ports(start, available, (n - 1) as nat);
        let after = free_ports(start, available, n);
        assert(after.take(a.len() as int) =~= before.take(a.len() as int));
    } else {
        assert(a.take(a.len() as int) =~= a);
    }
}

/// Fills the pool of single ports with the first free ones. `available[i]` says whether the port
/// number `i` of the span is free; enough of them must be.
pub fn find_available_ports(available: &Vec<bool>) -> (ports: Vec<u16>)
    requires
        available@.len() == PORT_POOL_SPAN,
        free_ports(PORT_POOL_START, available@, (PORT_POOL_SPAN - 1) as nat).len()
            >= PORT_POOL_NUM,
    ensures
        ports@ == free_ports(
            PORT_POOL_START,
            available@,
            (PORT_POOL_SPAN - 1) as nat,
        ).take(PORT_POOL_NUM as int),
{
    let mut ports: Vec<u16> = Vec::new();
    let mut i: usize = 0;
    while ports.len() < PORT_POOL_NUM
        invariant
            i <= PORT_POOL_SPAN - 1,
            available@.len() == PORT_POOL_SPAN,
            free_ports(PORT_POOL_START, available@, (PORT_POOL_SPAN - 1) as nat).len()
                >= PORT_POOL_NUM,
            ports@.len() <= PORT_POOL_NUM,
            ports@ == free_ports(PORT_POOL_START, available@, i as nat),
        decreases PORT_POOL_SPAN - i,
    {
        assert(i < PORT_POOL_SPAN - 1);
        if available[i] {
            ports.push(PORT_POOL_START + i as u16);
        }
        i = i + 1;
    }
    proof {
        lemma_free_ports_prefix(
            PORT_POOL_START,
            available@,
            i as nat,
            (PORT_POOL_SPAN - 1) as nat,
        );
    }
    ports
}

/// The ports of the range number `k` are all free.
pub open spec fn range_free(available: Seq<bool>, k: int) -> bool {
    forall|j: int|
        0 <= j < PORT_POOL_BULK_SIZE ==> #[trigger] available[PORT_POOL_BULK_SIZE * k + j]
}

/// The free ranges among the first `n`.
pub open spec fn free_ranges(available: Seq<bool>, n: nat) -> Seq<Range<u16>>
    decreases n,
{
    if n == 0 {
        Seq::empty()
    } else {
        let before = free_ranges(available, (n - 1) as nat);
        if range_free(available, n - 1) {
            let start = PORT_POOL_BULK_START + PORT_POOL_BULK_SIZE * (n - 1);
            before.push(
                Range { start: start as u16, end: (start + PORT_POOL_BULK_SIZE) as u16 },
            )
        } else {
            before
        }
    }
}

fn is_range_free(available: &Vec<bool>, k: usize) -> (b: bool)
    requires
        PORT_POOL_BULK_SIZE * (k + 1) <= available@.len(),
    ensures
        b == range_free(available@, k as int),
{
    let n: usize = available.len();
    let size: usize = PORT_POOL_BULK_SIZE as usize;
    assert(size * (k + 1) == 5 * (k + 1) && size * k == 5 * k) by (nonlinear_arith)
        requires
            size == 5,
    ;
    let base: usize = size * k;
    let b = available[base] && available[base + 1] && available[base + 2] && available[base + 3]
        && available[base + 4];
    proof {
        let a = available@;
        let k = k as int;
        if range_free(a, k) {
            assert(a[PORT_POOL_BULK_SIZE * k + 0]);
            assert(a[PORT_POOL_BULK_SIZE * k + 1]);
            assert(a[PORT_POOL_BULK_SIZE * k + 2]);
            assert(a[PORT_POOL_BULK_SIZE * k + 3]);
            assert(a[PORT_POOL_BULK_SIZE * k + 4]);
        }
        if b {
            assert forall|j: int| 0 <= j < PORT_POOL_BULK_SIZE implies #[trigger] a[
                PORT_POOL_BULK_SIZE * k + j] by {
                assert(j == 0 || j == 1 || j == 2 || j == 3 || j == 4);
            }
        }
    }
    b
}

proof fn lemma_free_ranges_prefix(available: Seq<bool>, m: nat, n: nat)
    requires
        m <= n,
    ensures
        free_ranges(available, m).len() <= free_ranges(available, n).len(),
        free_ranges(available, m) == free_ranges(available, n).take(
            free_ranges(available, m).len() as int,
        ),
    decreases n,
{
    let a = free_ranges(available, m);
    if m < n {
        lemma_free_ranges_prefix(available, m, (n - 1) as nat);
        let before = free_ranges(available, (n - 1) as nat);
        let after = free_ranges(available, n);
        assert(after.take(a.len() as int) =~= before.take(a.len() as int));
    } else {
        assert(a.take(a.len() as int) =~= a);
    }
}

/// Whether the pool of port ranges can be filled from the first `groups` ranges.
pub fn has_available_bulk_ports(available: &Vec<bool>, groups: usize) -> (b: bool)
    requires
        groups <= 11907,
        PORT_POOL_BULK_SIZE * groups <= available@.len(),
    ensures
        b <==> free_ranges(available@, groups as nat).len() >= PORT_POOL_BULK_NUM,
{
    let mut count: usize = 0;
    let mut k: usize = 0;
    while k < groups
        invariant
            k <= groups,
            groups <= 11907,
            PORT_POOL_BULK_SIZE * groups <= available@.len(),
            count <= k,
            count == free_ranges(available@, k as nat).len(),
        decreases groups - k,
    {
        if is_range_free(available, k) {
            count = count + 1;
        }
        k = k + 1;
    }
    count >= PORT_POOL_BULK_NUM
}

/// Fills the pool of port ranges with the first free ones. `available[i]` says whether the port
/// number `i` from the start of the pool is free; enough of the first `groups` ranges must be.
pub fn find_available_bulk_ports(available: &Vec<bool>, groups: usize) -> (ranges: Vec<Range<u16>>)
    requires
        groups <= 11907,
        PORT_POOL_BULK_SIZE * groups <= available@.len(),
        free_ranges(available@, groups as nat).len() >= PORT_POOL_BULK_NUM,
    ensures
        ranges@ == free_ranges(available@, groups as nat).take(PORT_POOL_BULK_NUM as int),
{
    let mut ranges: Vec<Range<u16>> = Vec::new();
    let mut k: usize = 0;
    while ranges.len() < PORT_POOL_BULK_NUM
        invariant
            k <= groups,
            groups <= 11907,
            PORT_POOL_BULK_SIZE * groups <= available@.len(),
            free_ranges(available@, groups as nat).len() >= PORT_POOL_BULK_NUM,
            ranges@.len() <= PORT_POOL_BULK_NUM,
            ranges@ == free_ranges(available@, k as nat),
        decreases groups - k,
    {
        assert(k < groups);
        if is_range_free(available, k) {
            let start: u16 = PORT_POOL_BULK_START + PORT_POOL_BULK_SIZE * k as u16;
            ranges.push(Range { start, end: start + PORT_POOL_BULK_SIZE });
        }
        k = k + 1;
    }
    proof {
        lemma_free_ranges_prefix(available@, k as nat, groups as nat);
    }
    ranges
}

/// Takes `N` ports from the pool, from its end. There must be as many.
pub fn use_ports<const N: usize>(pool: &mut Vec<u16>) -> (ports: [u16; N])
    requires
        N <= old(pool)@.len(),
    ensures
        final(pool)@ == old(pool)@.take(old(pool)@.len() - N),
        forall|i: int|
            0 <= i < N ==> #[trigger] ports@[i] == old(pool)@[old(pool)@.len() - 1 - i],
{
    let mut ports: [u16; N] = [0u16; N];
    let mut i: usize = 0;
    let ghost before = pool@;
    assert(before.take(before.len() as int) =~= before);
    while i < N
        invariant
            i <= N <= before.len(),
            ports@.len() == N,
            pool@ == before.take(before.len() - i),
            forall|j: int| 0 <= j < i ==> #[trigger] ports@[j] == before[before.len() - 1 - j],
        decreases N - i,
    {
        let port: u16 = pool.pop().unwrap();
        ports[i] = port;
        assert(pool@ =~= before.take(before.len() - (i + 1)));
        i = i + 1;
    }
    ports
}

/// Takes a range of ports from the pool, from its end. There must be one.
pub fn use_bulk_ports(pool: &mut Vec<Range<u16>>) -> (ports: Range<u16>)
    requires
        old(pool)@.len() > 0,
    ensures
        ports == old(pool)@.last(),
        final(pool)@ == old(pool)@.drop_last(),
{
    pool.pop().unwrap()
}

/// The ports that a test with a whole server uses.
#[derive(Debug)]
pub struct PortSet {
    pub token_port: u16,
    pub control_port: u16,
    pub remote_ports: Range<u16>,
}

impl PortSet {
    /// Takes the ports of a test from the pools.
    pub fn new(pool: &mut Vec<u16>, bulk_pool: &mut Vec<Range<u16>>) -> (r: Self)
        requires
            old(pool)@.len() >= 2,
            old(bulk_pool)@.len() > 0,
        ensures
            r.token_port == old(pool)@[old(pool)@.len() - 1],
            r.control_port == old(pool)@[old(pool)@.len() - 2],
            r.remote_ports == old(bulk_pool)@.last(),
            final(pool)@ == old(pool)@.take(old(pool)@.len() - 2),
            final(bulk_pool)@ == old(bulk_pool)@.drop_last(),
    {
        let ports: [u16; 2] = use_ports(pool);
        let remote_ports = use_bulk_ports(bulk_pool);
        PortSet { token_port: ports[0], control_port: ports[1], remote_ports }
    }
}

/// The set-up of the server of a test: it reaches only this machine, and neither cleans up nor,
/// unless it is told to, sends signs of life while the test runs.
pub fn server_config(
    control_port: u16,
    remote_port_start: u16,
    remote_port_end: u16,
    ping_interval: Option<u64>,
) -> (config: Config)
    ensures
        config.control_port == control_port,
        config.token_secret@ == "supersecret"@,
        config.host@ == "127.0.0.1"@,
        config.remote_port_start == remote_port_start,
        config.remote_port_end == remote_port_end,
        config.periodic_cleanup_interval == 0x8000_0000,
        config.periodic_ping_interval == (match ping_interval {
            Some(secs) => secs,
            None => 0x8000_0000,
        }),
        config.reconnect_window == 2,
{
    let periodic_ping_interval: u64 = match ping_interval {
        Some(secs) => secs,
        None => 0x8000_0000,
    };
    Config {
        control_port,
        token_secret: "supersecret".to_owned(),
        host: "127.0.0.1".to_owned(),
        remote_port_start,
        remote_port_end,
        periodic_cleanup_interval: 0x8000_0000,
        periodic_ping_interval,
        reconnect_window: 2,
    }
}

/// The address of the token server of a test.
pub fn token_server_url(token_port: u16) -> (r: String)
    ensures
        r@ == "http://127.0.0.1:"@ + decimal(token_port as nat) + "/v0/request_token"@,
{
    let mut out = "http://127.0.0.1:".to_owned();
    push_decimal(&mut out, token_port as u64);
    out.append("/v0/request_token");
    out
}

/// What the local server of a test answers: a greeting in front of what it was sent. An empty
/// message ends the conversation.
pub fn local_server_reply(message: &Vec<u8>) -> (reply: Option<Vec<u8>>)
    ensures
        match reply {
            Some(r) => message@.len() > 0 && r@ == encode_utf8("hello, "@) + message@,
            None => message@.len() == 0,
        },
{
    if message.len() == 0 {
        return None;
    }
    let greeting = "hello, ".as_bytes();
    let mut r: Vec<u8> = Vec::new();
    let mut i: usize = 0;
    while i < greeting.len()
        invariant
            i <= greeting@.len(),
            r@ == greeting@.take(i as int),
        decreases greeting@.len() - i,
    {
        r.push(greeting[i]);
        assert(r@ =~= greeting@.take(i + 1));
        i = i + 1;
    }
    assert(r@ =~= greeting@);
    let mut k: usize = 0;
    assert(r@ =~= greeting@ + message@.take(0));
    while k < message.len()
        invariant
            k <= message@.len(),
            r@ == greeting@ + message@.take(k as int),
        decreases message@.len() - k,
    {
        r.push(message[k]);
        assert(r@ =~= greeting@ + message@.take(k + 1));
        k = k + 1;
    }
    assert(message@.take(k as int) =~= message@);
    Some(r)
}

/// The ports that are listed are exactly the free ones, from the lowest to the highest.
pub proof fn law_free_ports_are_listed_in_order(start: u16, available: Seq<bool>, n: nat)
    requires
        n <= available.len(),
        start + n <= 65536,
    ensures
        forall|p: u16| #[trigger]
            free_ports(start, available, n).contains(p) <==> start <= p < start + n
                && available[p - start],
        forall|i: int, j: int|
            0 <= i < j < free_ports(start, available, n).len() ==> #[trigger] free_ports(
                start,
                available,
                n,
            )[i] < #[trigger] free_ports(start, available, n)[j],
    decreases n,
{
    if n > 0 {
        let before = free_ports(start, available, (n - 1) as nat);
        let after = free_ports(start, available, n);
        let last = (start + (n - 1)) as u16;
        law_free_ports_are_listed_in_order(start, available, (n - 1) as nat);
        assert forall|p: u16| #[trigger] after.contains(p) <==> start <= p < start + n
            && available[p - start] by {
            if before.contains(p) {
                let i = choose|i: int| 0 <= i < before.len() && before[i] == p;
                assert(after[i] == p);
            }
            if after.contains(p) {
                let i = choose|i: int| 0 <= i < after.len() && after[i] == p;
                if i < before.len() {
                    assert(before[i] == p);
                }
            }
            if p == last && available[n - 1] {
                assert(after[after.len() - 1] == p);
            }
        }
        assert forall|i: int, j: int| 0 <= i < j < after.len() implies #[trigger] after[i]
            < #[trigger] after[j] by {
            assert(before.contains(before[i]));
            if j < before.len() {
                assert(before[i] < before[j]);
            }
        }
    }
}

/// The ranges that are listed have five ports each, all of them free, and start at a fifth port;
/// every range of that kind is listed.
pub proof fn law_free_ranges_are_listed(available: Seq<bool>, n: nat, r: Range<u16>)
    requires
        n <= 11907,
        5 * n <= available.len(),
    ensures
        free_ranges(available, n).contains(r) <==> {
            &&& 6000 <= r.start < 6000 + 5 * n
            &&& (r.start - 6000) % 5 == 0
            &&& r.end == r.start + 5
            &&& forall|p: int| r.start <= p < r.end ==> #[trigger] available[p - 6000]
        },
    decreases n,
{
    if n > 0 {
        let before = free_ranges(available, (n - 1) as nat);
        let after = free_ranges(available, n);
        let start = 6000 + 5 * (n - 1);
        let last = Range { start: start as u16, end: (start + 5) as u16 };
        law_free_ranges_are_listed(available, (n - 1) as nat, r);
        assert(PORT_POOL_BULK_SIZE * (n - 1) == 5 * (n - 1)) by (nonlinear_arith)
            requires
                PORT_POOL_BULK_SIZE == 5,
        ;
        assert(range_free(available, n - 1) <==> forall|p: int|
            start <= p < start + 5 ==> #[trigger] available[p - 6000]) by {
            if range_free(available, n - 1) {
                assert forall|p: int| start <= p < start + 5 implies #[trigger] available[p
                    - 6000] by {
                    assert(available[PORT_POOL_BULK_SIZE * (n - 1) + (p - start)]);
                }
            }
            if forall|p: int| start <= p < start + 5 ==> #[trigger] available[p - 6000] {
                assert forall|j: int| 0 <= j < PORT_POOL_BULK_SIZE implies #[trigger] available[
                    PORT_POOL_BULK_SIZE * (n - 1) + j] by {
                    assert(available[(start + j) - 6000]);
                }
            }
        }
        if before.contains(r) {
            let i = choose|i: int| 0 <= i < before.len() && before[i] == r;
            assert(after[i] == r);
        }
        if after.contains(r) {
            let i = choose|i: int| 0 <= i < after.len() && after[i] == r;
            if i < before.len() {
                assert(before[i] == r);
            }
        }
        if r == last && range_free(available, n - 1) {
            assert(after[after.len() - 1] == r);
        }
    }
}

} // verus!
