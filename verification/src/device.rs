use vstd::prelude::*;
use crate::protocol::{
    ascii_space, response_shape_ok, Capability, ProtocolError, ResponseEnvelope, WireError,
    MAX_FRAME_BYTES, PROTOCOL_VERSION,
};
use crate::text::{eq_ignore_ascii_case, equal_ignoring_ascii_case};

verus! {

/// The serial speed of the device.
pub const DEFAULT_BAUD_RATE: u32 = 115_200;

/// A USB vendor and product id.
#[derive(Clone, Copy, Debug, PartialEq, Eq, Structural)]
pub struct UsbId {
    pub vid: u16,
    pub pid: u16,
}

/// How a serial port is attached.
#[derive(Clone, Debug)]
pub enum PortKind {
    Usb {
        id: UsbId,
        serial_number: Option<String>,
        manufacturer: Option<String>,
        product: Option<String>,
    },
    Bluetooth,
    Pci,
    Unknown,
}

/// A serial port that may hold a device.
#[derive(Clone, Debug)]
pub struct PortCandidate {
    pub name: String,
    pub kind: PortKind,
}

/// Which ports discovery probes.
#[derive(Clone, Debug)]
pub struct DiscoveryPolicy {
    pub allowed_usb_ids: Vec<UsbId>,
    pub preferred_port: Option<String>,
    pub probe_all_usb_when_allowlist_empty: bool,
    pub probe_non_usb_ports: bool,
}

/// Whether `name` is the preferred port of `policy`, ignoring ASCII case.
pub open spec fn is_preferred(policy: DiscoveryPolicy, name: Seq<char>) -> bool {
    policy.preferred_port matches Some(p) && equal_ignoring_ascii_case(p@, name)
}

/// Whether `policy` lets discovery probe `candidate`: the preferred port
/// always; a USB port when its id is allowed, or when no id is listed and
/// all USB ports are to be probed; any other port when such ports are to be
/// probed.
pub open spec fn policy_accepts(policy: DiscoveryPolicy, candidate: PortCandidate) -> bool {
    is_preferred(policy, candidate.name@) || match candidate.kind {
        PortKind::Usb { id, .. } => (policy.allowed_usb_ids@.len() == 0
            && policy.probe_all_usb_when_allowlist_empty) || policy.allowed_usb_ids@.contains(id),
        _ => policy.probe_non_usb_ports,
    }
}

/// Which ports discovery probes: the preferred one always; any other port
/// that is not USB exactly when the policy probes such ports; a USB port
/// exactly when its id is allowed, or when no id is listed and every USB
/// port is to be probed.
pub proof fn lemma_accepted_ports_follow_the_policy(policy: DiscoveryPolicy, candidate: PortCandidate)
    ensures
        is_preferred(policy, candidate.name@) ==> policy_accepts(policy, candidate),
        !is_preferred(policy, candidate.name@) && !(candidate.kind is Usb) ==> (policy_accepts(
            policy,
            candidate,
        ) <==> policy.probe_non_usb_ports),
        !is_preferred(policy, candidate.name@) ==> (candidate.kind matches PortKind::Usb { id, .. }
            ==> (policy_accepts(policy, candidate) <==> (policy.allowed_usb_ids@.contains(id) || (
            policy.allowed_usb_ids@.len() == 0 && policy.probe_all_usb_when_allowlist_empty)))),
{
}

impl DiscoveryPolicy {
    /// No allow-list, no preferred port, every USB port, no other port.
    pub fn default() -> (r: Self)
        ensures
            r.allowed_usb_ids@.len() == 0,
            r.preferred_port is None,
            r.probe_all_usb_when_allowlist_empty,
            !r.probe_non_usb_ports,
    {
        DiscoveryPolicy {
            allowed_usb_ids: Vec::new(),
            preferred_port: None,
            probe_all_usb_when_allowlist_empty: true,
            probe_non_usb_ports: false,
        }
    }

    /// Whether `name` is the preferred port.
    pub fn prefers(&self, name: &str) -> (r: bool)
        ensures
            r == is_preferred(*self, name@),
    {
        match &self.preferred_port {
            Some(port) => eq_ignore_ascii_case(port.as_str(), name),
            None => false,
        }
    }

    /// Whether discovery probes `candidate`.
    pub fn accepts(&self, candidate: &PortCandidate) -> (r: bool)
        ensures
            r == policy_accepts(*self, *candidate),
            is_preferred(*self, candidate.name@) ==> r,
            !is_preferred(*self, candidate.name@) && !(candidate.kind is Usb) ==> r
                == self.probe_non_usb_ports,
            !is_preferred(*self, candidate.name@) ==> (candidate.kind matches PortKind::Usb {
                id,
                ..
            } ==> r == (self.allowed_usb_ids@.contains(id) || (self.allowed_usb_ids@.len() == 0
                && self.probe_all_usb_when_allowlist_empty))),
    {
        if self.prefers(candidate.name.as_str()) {
            return true;
        }
        match &candidate.kind {
            PortKind::Usb { id, .. } => {
                (self.allowed_usb_ids.len() == 0 && self.probe_all_usb_when_allowlist_empty)
                    || allows(&self.allowed_usb_ids, *id)
            },
            _ => self.probe_non_usb_ports,
        }
    }
}

/// Whether `a` comes no later than `b` in the order of `String`: code point
/// by code point, a prefix first.
pub open spec fn text_le(a: Seq<char>, b: Seq<char>) -> bool
    decreases a.len(),
{
    if a.len() == 0 {
        true
    } else if b.len() == 0 {
        false
    } else if a[0] != b[0] {
        (a[0] as int) < (b[0] as int)
    } else {
        text_le(a.drop_first(), b.drop_first())
    }
}

proof fn lemma_text_le_total(a: Seq<char>, b: Seq<char>)
    ensures
        text_le(a, b) || text_le(b, a),
    decreases a.len(),
{
    if a.len() > 0 && b.len() > 0 {
        if a[0] == b[0] {
            lemma_text_le_total(a.drop_first(), b.drop_first());
        } else {
            assert((a[0] as int) != (b[0] as int));
        }
    }
}

proof fn lemma_text_le_transitive(a: Seq<char>, b: Seq<char>, c: Seq<char>)
    requires
        text_le(a, b),
        text_le(b, c),
    ensures
        text_le(a, c),
    decreases a.len(),
{
    if a.len() > 0 && b.len() > 0 && c.len() > 0 && a[0] == b[0] && b[0] == c[0] {
        lemma_text_le_transitive(a.drop_first(), b.drop_first(), c.drop_first());
    }
}

/// Whether `p` is probed no later than `q`: the preferred port first, then
/// USB ports, then by name.
pub open spec fn probe_le(policy: DiscoveryPolicy, p: PortCandidate, q: PortCandidate) -> bool {
    let pp = is_preferred(policy, p.name@);
    let qp = is_preferred(policy, q.name@);
    let pu = p.kind is Usb;
    let qu = q.kind is Usb;
    if pp != qp {
        pp
    } else if pu != qu {
        pu
    } else {
        text_le(p.name@, q.name@)
    }
}

proof fn lemma_probe_le_total(policy: DiscoveryPolicy, p: PortCandidate, q: PortCandidate)
    ensures
        probe_le(policy, p, q) || probe_le(policy, q, p),
{
    lemma_text_le_total(p.name@, q.name@);
}

proof fn lemma_probe_le_transitive(
    policy: DiscoveryPolicy,
    p: PortCandidate,
    q: PortCandidate,
    r: PortCandidate,
)
    requires
        probe_le(policy, p, q),
        probe_le(policy, q, r),
    ensures
        probe_le(policy, p, r),
{
    if is_preferred(policy, p.name@) == is_preferred(policy, q.name@) && is_preferred(
        policy,
        q.name@,
    ) == is_preferred(policy, r.name@) && (p.kind is Usb) == (q.kind is Usb) && (q.kind is Usb)
        == (r.kind is Usb) {
        lemma_text_le_transitive(p.name@, q.name@, r.name@);
    }
}

/// Whether `s` is in probing order.
pub open spec fn probe_sorted(policy: DiscoveryPolicy, s: Seq<PortCandidate>) -> bool {
    forall|i: int, j: int| 0 <= i < j < s.len() ==> probe_le(policy, s[i], s[j])
}

/// Whether two candidates tie in probing order.
pub open spec fn same_probe_rank(policy: DiscoveryPolicy, p: PortCandidate, q: PortCandidate) -> bool {
    probe_le(policy, p, q) && probe_le(policy, q, p)
}

/// The candidates that tie with `k` in probing order.
pub open spec fn probe_tie(policy: DiscoveryPolicy, k: PortCandidate) -> spec_fn(PortCandidate) -> bool {
    |x: PortCandidate| same_probe_rank(policy, x, k)
}

/// `text_le` on two strings.
fn text_at_most(a: &str, b: &str) -> (r: bool)
    ensures
        r == text_le(a@, b@),
{
    let n = a.unicode_len();
    let m = b.unicode_len();
    let mut i: usize = 0;
    assert(a@.subrange(0, n as int) =~= a@);
    assert(b@.subrange(0, m as int) =~= b@);
    while i < n && i < m
        invariant
            n == a@.len(),
            m == b@.len(),
            0 <= i <= n,
            i <= m,
            text_le(a@, b@) == text_le(a@.subrange(i as int, n as int), b@.subrange(i as int, m as int)),
        decreases n - i,
    {
        let x = a.get_char(i);
        let y = b.get_char(i);
        assert(a@.subrange(i as int, n as int).drop_first() =~= a@.subrange(i + 1, n as int));
        assert(b@.subrange(i as int, m as int).drop_first() =~= b@.subrange(i + 1, m as int));
        if x != y {
            return x < y;
        }
        i += 1;
    }
    i == n
}

/// Inserting the first remaining candidate `c` after every candidate
/// that comes no later than it keeps, for every rank, the tied candidates
/// of the sorted part followed by those remaining in their original order.
proof fn lemma_insert_keeps_ties(
    policy: DiscoveryPolicy,
    before: Seq<PortCandidate>,
    prev_rest: Seq<PortCandidate>,
    c: PortCandidate,
    p: int,
    original: Seq<PortCandidate>,
)
    requires
        0 <= p <= before.len(),
        prev_rest.len() > 0,
        prev_rest[0] == c,
        probe_sorted(policy, before),
        p == before.len() || !probe_le(policy, before[p], c),
        forall|k: PortCandidate|
            #[trigger] original.filter(probe_tie(policy, k)) == before.filter(probe_tie(policy, k))
                + prev_rest.filter(probe_tie(policy, k)),
    ensures
        forall|k: PortCandidate|
            #[trigger] original.filter(probe_tie(policy, k)) == before.insert(p, c).filter(
                probe_tie(policy, k),
            ) + prev_rest.drop_first().filter(probe_tie(policy, k)),
{
    assert forall|k: PortCandidate|
        #[trigger] original.filter(probe_tie(policy, k)) == before.insert(p, c).filter(
            probe_tie(policy, k),
        ) + prev_rest.drop_first().filter(probe_tie(policy, k)) by {
        let f = probe_tie(policy, k);
        let low = before.subrange(0, p);
        let high = before.subrange(p, before.len() as int);
        let rest = prev_rest.drop_first();
        assert(before =~= low + high);
        assert(before.insert(p, c) =~= low + (seq![c] + high));
        assert(prev_rest =~= seq![c] + rest);
        Seq::filter_distributes_over_add(low, high, f);
        Seq::filter_distributes_over_add(low, seq![c] + high, f);
        high.lemma_filter_prepend(c, f);
        rest.lemma_filter_prepend(c, f);
        if f(c) {
            assert forall|j: int| 0 <= j < high.len() implies !f(#[trigger] high[j]) by {
                assert(high[j] == before[p + j]);
                if f(high[j]) {
                    lemma_probe_le_transitive(policy, before[p + j], k, c);
                    if j > 0 {
                        lemma_probe_le_transitive(policy, before[p], before[p + j], c);
                    }
                    assert(false);
                }
            }
            assert(high.all(|x: PortCandidate| !f(x)));
            high.lemma_all_neg_filter_empty(f);
            assert(high.filter(f) =~= Seq::<PortCandidate>::empty());
            assert(before.filter(f) =~= low.filter(f));
            assert(before.insert(p, c).filter(f) =~= low.filter(f) + seq![c]);
            assert(prev_rest.filter(f) =~= seq![c] + rest.filter(f));
            assert(original.filter(f) =~= low.filter(f) + seq![c] + rest.filter(f));
        } else {
            assert(before.insert(p, c).filter(f) =~= low.filter(f) + high.filter(f));
            assert(prev_rest.filter(f) =~= rest.filter(f));
        }
    }
}

/// Whether `ids` holds `id`.
fn allows(ids: &Vec<UsbId>, id: UsbId) -> (r: bool)
    ensures
        r == ids@.contains(id),
{
    let mut i: usize = 0;
    while i < ids.len()
        invariant
            0 <= i <= ids@.len(),
            forall|j: int| 0 <= j < i ==> ids@[j] != id,
        decreases ids@.len() - i,
    {
        if ids[i] == id {
            return true;
        }
        i += 1;
    }
    false
}

impl DiscoveryPolicy {
    /// Whether `p` is probed no later than `q`.
    fn probes_no_later(&self, p: &PortCandidate, q: &PortCandidate) -> (r: bool)
        ensures
            r == probe_le(*self, *p, *q),
    {
        let pp = self.prefers(p.name.as_str());
        let qp = self.prefers(q.name.as_str());
        let pu = match p.kind {
            PortKind::Usb { .. } => true,
            _ => false,
        };
        let qu = match q.kind {
            PortKind::Usb { .. } => true,
            _ => false,
        };
        if pp != qp {
            pp
        } else if pu != qu {
            pu
        } else {
            text_at_most(p.name.as_str(), q.name.as_str())
        }
    }

    /// Puts the candidates in probing order: the preferred port first, then
    /// USB ports, then by name.
    pub fn sort_candidates(&self, candidates: &mut Vec<PortCandidate>)
        ensures
            final(candidates)@.to_multiset() == old(candidates)@.to_multiset(),
            probe_sorted(*self, final(candidates)@),
            forall|k: PortCandidate|
                #[trigger] final(candidates)@.filter(probe_tie(*self, k)) == old(
                    candidates,
                )@.filter(probe_tie(*self, k)),
    {
        broadcast use vstd::multiset::group_multiset_axioms;
        broadcast use vstd::seq_lib::group_to_multiset_ensures;

        let mut sorted: Vec<PortCandidate> = Vec::new();
        let ghost original = candidates@;
        let mut rest: Vec<PortCandidate> = Vec::new();
        std::mem::swap(&mut rest, candidates);
        assert(sorted@.to_multiset().add(rest@.to_multiset()) =~= original.to_multiset());
        assert forall|k: PortCandidate| #[trigger]
            original.filter(probe_tie(*self, k)) == sorted@.filter(probe_tie(*self, k)) + rest@.filter(
                probe_tie(*self, k),
            ) by {
            assert(sorted@ =~= Seq::<PortCandidate>::empty());
            assert(original =~= sorted@ + rest@);
            Seq::filter_distributes_over_add(sorted@, rest@, probe_tie(*self, k));
        }
        while rest.len() > 0
            invariant
                probe_sorted(*self, sorted@),
                sorted@.to_multiset().add(rest@.to_multiset()) == original.to_multiset(),
                forall|k: PortCandidate|
                    #[trigger] original.filter(probe_tie(*self, k)) == sorted@.filter(
                        probe_tie(*self, k),
                    ) + rest@.filter(probe_tie(*self, k)),
            decreases rest@.len(),
        {
            let ghost prev_rest = rest@;
            let c = rest.remove(0);
            let mut p: usize = 0;
            while p < sorted.len() && self.probes_no_later(&sorted[p], &c)
                invariant
                    0 <= p <= sorted@.len(),
                    forall|i: int| 0 <= i < p ==> probe_le(*self, sorted@[i], c),
                decreases sorted@.len() - p,
            {
                p += 1;
            }
            let ghost before = sorted@;
            assert(p == before.len() || !probe_le(*self, before[p as int], c));
            proof {
                assert forall|j: int| p <= j < before.len() implies probe_le(*self, c, before[j]) by {
                    lemma_probe_le_total(*self, before[p as int], c);
                    if j > p {
                        lemma_probe_le_transitive(*self, c, before[p as int], before[j]);
                    }
                }
            }
            sorted.insert(p, c);
            proof {
                assert forall|i: int, j: int| 0 <= i < j < sorted@.len() implies probe_le(
                    *self,
                    sorted@[i],
                    sorted@[j],
                ) by {
                    if j < p {
                        assert(sorted@[i] == before[i] && sorted@[j] == before[j]);
                    } else if j == p {
                        assert(sorted@[i] == before[i]);
                    } else if i < p {
                        assert(sorted@[i] == before[i] && sorted@[j] == before[j - 1]);
                        lemma_probe_le_transitive(*self, before[i], c, before[j - 1]);
                    } else if i == p {
                        assert(sorted@[j] == before[j - 1]);
                    } else {
                        assert(sorted@[i] == before[i - 1] && sorted@[j] == before[j - 1]);
                    }
                }
                vstd::seq_lib::to_multiset_insert(before, p as int, c);
                vstd::seq_lib::to_multiset_remove(prev_rest, 0);
                vstd::seq_lib::to_multiset_contains(prev_rest, c);
                assert(prev_rest[0] == c);
                assert(prev_rest.contains(c));
                assert(sorted@.to_multiset().add(rest@.to_multiset()) =~= before.to_multiset().add(
                    prev_rest.to_multiset(),
                ));
                lemma_insert_keeps_ties(*self, before, prev_rest, c, p as int, original);
                assert(sorted@ == before.insert(p as int, c));
                assert(rest@ == prev_rest.drop_first());
            }
        }
        assert(rest@ =~= Seq::<PortCandidate>::empty());
        assert(sorted@.to_multiset() =~= original.to_multiset());
        *candidates = sorted;
    }
}

/// Opens serial ports at a fixed speed.
#[derive(Clone, Copy, Debug, PartialEq, Eq, Structural)]
pub struct SerialPortProvider {
    pub baud_rate: u32,
}

impl SerialPortProvider {
    /// 115200 baud.
    pub fn default() -> (r: Self)
        ensures
            r.baud_rate == DEFAULT_BAUD_RATE,
    {
        SerialPortProvider { baud_rate: DEFAULT_BAUD_RATE }
    }
}

/// A port that discovery probed without finding a device.
#[derive(Clone, Debug)]
pub struct DiscoveryFailure {
    pub port_name: String,
    pub error: String,
}

/// An error of the device link that the library itself detects.
#[derive(Debug)]
pub enum DeviceError {
    Protocol(ProtocolError),
    Remote(WireError),
    MissingCapability(Capability),
    UnexpectedResponse(u32),
    UnexpectedRequest(String),
    DiscoveryFailed(Vec<DiscoveryFailure>),
}

/// Cuts the byte stream of a serial port into newline-terminated frames.
#[derive(Clone, Debug)]
pub struct LineFramer {
    buffer: Vec<u8>,
}

/// Whether `s` holds a newline.
pub open spec fn has_newline(s: Seq<u8>) -> bool {
    exists|i: int| 0 <= i < s.len() && s[i] == 0x0a
}

/// The index of the first newline of `s` at or after `from`, or its length.
pub open spec fn newline_at(s: Seq<u8>, from: int) -> int
    decreases s.len() - from,
{
    if from < 0 || from >= s.len() {
        s.len() as int
    } else if s[from] == 0x0a {
        from
    } else {
        newline_at(s, from + 1)
    }
}

/// `s` without ASCII white space at its end.
pub open spec fn trim_end(s: Seq<u8>) -> Seq<u8>
    decreases s.len(),
{
    if s.len() > 0 && ascii_space(s.last()) {
        trim_end(s.drop_last())
    } else {
        s
    }
}

proof fn lemma_newline_at(s: Seq<u8>, from: int)
    requires
        0 <= from <= s.len(),
    ensures
        from <= newline_at(s, from) <= s.len(),
        newline_at(s, from) < s.len() ==> s[newline_at(s, from)] == 0x0a,
        forall|j: int| from <= j < newline_at(s, from) ==> s[j] != 0x0a,
    decreases s.len() - from,
{
    if from < s.len() && s[from] != 0x0a {
        lemma_newline_at(s, from + 1);
    }
}

impl LineFramer {
    /// The bytes received and not yet taken as a frame.
    pub closed spec fn pending(self) -> Seq<u8> {
        self.buffer@
    }

    /// An empty framer.
    pub fn new() -> (r: Self)
        ensures
            r.pending().len() == 0,
    {
        LineFramer { buffer: Vec::new() }
    }

    /// Drops whatever is pending.
    pub fn clear(&mut self)
        ensures
            final(self).pending().len() == 0,
    {
        self.buffer = Vec::new();
    }

    /// Appends received bytes. When more than `MAX_FRAME_BYTES` are then
    /// pending without a newline among them, everything pending is dropped
    /// and the frame is refused as too large.
    pub fn push(&mut self, bytes: &[u8]) -> (r: Result<(), DeviceError>)
        ensures
            ({
                let all = old(self).pending() + bytes@;
                if all.len() > MAX_FRAME_BYTES && !has_newline(all) {
                    &&& final(self).pending().len() == 0
                    &&& r matches Err(
                        DeviceError::Protocol(ProtocolError::FrameTooLarge { actual, maximum }),
                    )
                    &&& actual == all.len()
                    &&& maximum == MAX_FRAME_BYTES
                } else {
                    &&& final(self).pending() == all
                    &&& r is Ok
                }
            }),
    {
        let ghost before = self.buffer@;
        let mut i: usize = 0;
        while i < bytes.len()
            invariant
                0 <= i <= bytes@.len(),
                self.buffer@ == before + bytes@.subrange(0, i as int),
            decreases bytes@.len() - i,
        {
            self.buffer.push(bytes[i]);
            i += 1;
            assert(self.buffer@ =~= before + bytes@.subrange(0, i as int));
        }
        assert(bytes@.subrange(0, bytes@.len() as int) =~= bytes@);
        if self.buffer.len() > MAX_FRAME_BYTES && !contains_newline(&self.buffer) {
            let actual = self.buffer.len();
            self.buffer = Vec::new();
            return Err(
                DeviceError::Protocol(
                    ProtocolError::FrameTooLarge { actual, maximum: MAX_FRAME_BYTES },
                ),
            );
        }
        Ok(())
    }

    /// Takes the first complete frame, without its newline and any ASCII
    /// white space before it; `None` while no newline is pending.
    pub fn take_frame(&mut self) -> (r: Option<Vec<u8>>)
        ensures
            ({
                let s = old(self).pending();
                let n = newline_at(s, 0);
                if n < s.len() {
                    &&& r matches Some(frame)
                    &&& frame@ == trim_end(s.subrange(0, n))
                    &&& final(self).pending() == s.subrange(n + 1, s.len() as int)
                } else {
                    &&& r is None
                    &&& final(self).pending() == s
                }
            }),
    {
        let ghost s = self.buffer@;
        proof {
            lemma_newline_at(s, 0);
        }
        let mut n: usize = 0;
        while n < self.buffer.len() && self.buffer[n] != 0x0a
            invariant
                s == self.buffer@,
                0 <= n <= s.len(),
                newline_at(s, 0) == newline_at(s, n as int),
            decreases s.len() - n,
        {
            n += 1;
        }
        if n == self.buffer.len() {
            return None;
        }
        let mut frame: Vec<u8> = Vec::new();
        let mut rest: Vec<u8> = Vec::new();
        let mut i: usize = 0;
        while i < self.buffer.len()
            invariant
                s == self.buffer@,
                n < s.len(),
                0 <= i <= s.len(),
                i <= n ==> frame@ == s.subrange(0, i as int) && rest@.len() == 0,
                i > n ==> frame@ == s.subrange(0, n as int) && rest@ == s.subrange(
                    n + 1,
                    i as int,
                ),
            decreases s.len() - i,
        {
            if i < n {
                frame.push(self.buffer[i]);
            } else if i > n {
                rest.push(self.buffer[i]);
            }
            i += 1;
            assert(i <= n ==> frame@ =~= s.subrange(0, i as int));
            assert(i > n ==> rest@ =~= s.subrange(n + 1, i as int));
        }
        trim_trailing(&mut frame);
        self.buffer = rest;
        Some(frame)
    }
}

/// Whether `bytes` holds a newline.
fn contains_newline(bytes: &Vec<u8>) -> (r: bool)
    ensures
        r == has_newline(bytes@),
{
    let mut i: usize = 0;
    while i < bytes.len()
        invariant
            0 <= i <= bytes@.len(),
            forall|j: int| 0 <= j < i ==> bytes@[j] != 0x0a,
        decreases bytes@.len() - i,
    {
        if bytes[i] == 0x0a {
            return true;
        }
        i += 1;
    }
    false
}

/// Drops ASCII white space from the end of `bytes`.
fn trim_trailing(bytes: &mut Vec<u8>)
    ensures
        final(bytes)@ == trim_end(old(bytes)@),
{
    while bytes.len() > 0 && (bytes[bytes.len() - 1] == 0x20 || bytes[bytes.len() - 1] == 0x09
        || bytes[bytes.len() - 1] == 0x0a || bytes[bytes.len() - 1] == 0x0c || bytes[bytes.len()
        - 1] == 0x0d)
        invariant
            trim_end(old(bytes)@) == trim_end(bytes@),
        decreases bytes@.len(),
    {
        bytes.pop();
    }
}

/// A sequence number that did not follow the one before it.
#[derive(Clone, Copy, Debug, PartialEq, Eq, Structural)]
pub struct SequenceGap {
    pub expected: u32,
    pub received: u32,
}

/// The number after `n`, wrapping from `u32::MAX` to zero.
pub open spec fn next_sequence(n: u32) -> u32 {
    if n == u32::MAX {
        0
    } else {
        (n + 1) as u32
    }
}

/// Remembers the last event sequence number and reports gaps.
#[derive(Clone, Copy, Debug)]
pub struct SequenceTracker {
    last: Option<u32>,
}

impl SequenceTracker {
    /// The last number seen, if any.
    pub closed spec fn last_seen(self) -> Option<u32> {
        self.last
    }

    /// A tracker that has seen nothing.
    pub fn default() -> (r: Self)
        ensures
            r.last_seen() is None,
    {
        SequenceTracker { last: None }
    }

    /// Records `sequence`, and reports a gap when a number was seen before
    /// and `sequence` is not the one after it.
    pub fn observe(&mut self, sequence: u32) -> (r: Option<SequenceGap>)
        ensures
            final(self).last_seen() == Some(sequence),
            r == match old(self).last_seen() {
                Some(last) => if sequence == next_sequence(last) {
                    None
                } else {
                    Some(SequenceGap { expected: next_sequence(last), received: sequence })
                },
                None => None,
            },
    {
        let gap = match self.last {
            Some(last) => {
                let expected = last.wrapping_add(1);
                if sequence != expected {
                    Some(SequenceGap { expected, received: sequence })
                } else {
                    None
                }
            },
            None => None,
        };
        self.last = Some(sequence);
        gap
    }
}

/// Consecutive numbers, across the wrap from `u32::MAX` to zero too, never
/// make a gap.
pub proof fn lemma_consecutive_numbers_make_no_gap(last: u32, sequence: u32)
    requires
        sequence == next_sequence(last),
    ensures
        last == u32::MAX ==> sequence == 0,
        last < u32::MAX ==> sequence == last + 1,
{
}

/// The longest span a `Duration` holds, in nanoseconds.
pub const MAX_DURATION_NANOS: u128 = 18_446_744_073_709_551_615_999_999_999;

/// `a` when it is smaller, else `b`.
pub open spec fn min(a: int, b: int) -> int {
    if a < b {
        a
    } else {
        b
    }
}

/// Delays between reconnection attempts that double up to a maximum. Spans
/// are in nanoseconds.
#[derive(Clone, Copy, Debug)]
pub struct ReconnectBackoff {
    initial: u128,
    maximum: u128,
    next: u128,
}

impl ReconnectBackoff {
    /// The first delay.
    pub closed spec fn first(self) -> int {
        self.initial as int
    }

    /// The largest delay.
    pub closed spec fn cap(self) -> int {
        self.maximum as int
    }

    /// The delay the next attempt waits.
    pub closed spec fn upcoming(self) -> int {
        self.next as int
    }

    /// Whether the delays are spans a `Duration` holds and lie between the
    /// first delay and the cap.
    pub closed spec fn wf(self) -> bool {
        &&& self.maximum <= MAX_DURATION_NANOS
        &&& self.initial <= self.next <= self.maximum
    }

    /// Starts at `initial`, lowered to `maximum` when larger.
    pub fn new(initial: u128, maximum: u128) -> (r: Self)
        requires
            maximum <= MAX_DURATION_NANOS,
        ensures
            r.wf(),
            r.first() == min(initial as int, maximum as int),
            r.cap() == maximum,
            r.upcoming() == r.first(),
    {
        let initial = if initial < maximum {
            initial
        } else {
            maximum
        };
        ReconnectBackoff { initial, maximum, next: initial }
    }

    /// A quarter second, doubling up to five seconds.
    pub fn default() -> (r: Self)
        ensures
            r.wf(),
            r.first() == 250_000_000,
            r.cap() == 5_000_000_000,
            r.upcoming() == 250_000_000,
    {
        ReconnectBackoff::new(250_000_000, 5_000_000_000)
    }

    /// The delay to wait now; the next one is twice as long, up to the cap.
    pub fn next_delay(&mut self) -> (r: u128)
        requires
            old(self).wf(),
        ensures
            r == old(self).upcoming(),
            final(self).wf(),
            final(self).first() == old(self).first(),
            final(self).cap() == old(self).cap(),
            final(self).upcoming() == min(2 * old(self).upcoming(), old(self).cap()),
    {
        let delay = self.next;
        let doubled = if self.next <= MAX_DURATION_NANOS / 2 {
            self.next * 2
        } else {
            MAX_DURATION_NANOS
        };
        self.next = if doubled < self.maximum {
            doubled
        } else {
            self.maximum
        };
        delay
    }

    /// Starts again from the first delay.
    pub fn reset(&mut self)
        requires
            old(self).wf(),
        ensures
            final(self).wf(),
            final(self).first() == old(self).first(),
            final(self).cap() == old(self).cap(),
            final(self).upcoming() == old(self).first(),
    {
        self.next = self.initial;
    }
}

/// Every delay lies between the first delay and the cap, and the delays never
/// shrink until a reset.
pub proof fn lemma_backoff_bounded_and_growing(b: ReconnectBackoff, after: ReconnectBackoff)
    requires
        b.wf(),
        after.first() == b.first(),
        after.cap() == b.cap(),
        after.upcoming() == min(2 * b.upcoming(), b.cap()),
    ensures
        b.first() <= b.upcoming() <= b.cap(),
        b.upcoming() <= after.upcoming() <= b.cap(),
{
}

/// The request id after `id`: the next one, never zero.
pub fn next_request_id(id: u32) -> (r: u32)
    ensures
        r == if id == u32::MAX {
            1
        } else {
            id + 1
        },
        r != 0,
{
    if id == u32::MAX {
        1
    } else {
        id + 1
    }
}

/// What arrived while a request waits for its response.
#[derive(Clone, Debug)]
pub enum Arrival {
    /// A frame that is not a message.
    Garbled,
    Response { id: u32 },
    Request { command: String },
    Event,
}

/// What the exchange does with what arrived.
#[derive(Debug)]
pub enum ExchangeStep {
    /// Ignore it and wait on.
    Skip,
    /// It is the response: check it and finish.
    Answer,
    /// Keep the event for later; a malformed event ends the exchange.
    KeepEvent,
    /// Keep the event for later when it is well formed; ignore it otherwise.
    KeepEventIfValid,
    /// End the exchange with the error that decoding the frame gave.
    FailGarbled,
    /// End the exchange with this error.
    Fail(DeviceError),
}

/// Decides what an exchange for the request `expected_id` does with what
/// arrived. The hello is lenient: garbled frames, other requests and
/// malformed events are ignored while a device starts up. Otherwise a
/// garbled frame or a request from the device ends the exchange.
/// Responses to other requests are ignored in either case.
pub fn exchange_step(hello: bool, expected_id: u32, arrival: Arrival) -> (r: ExchangeStep)
    ensures
        match arrival {
            Arrival::Garbled => if hello {
                r is Skip
            } else {
                r is FailGarbled
            },
            Arrival::Response { id } => if id == expected_id {
                r is Answer
            } else {
                r is Skip
            },
            Arrival::Request { command } => if hello {
                r is Skip
            } else {
                r == ExchangeStep::Fail(DeviceError::UnexpectedRequest(command))
            },
            Arrival::Event => if hello {
                r is KeepEventIfValid
            } else {
                r is KeepEvent
            },
        },
{
    match arrival {
        Arrival::Garbled => if hello {
            ExchangeStep::Skip
        } else {
            ExchangeStep::FailGarbled
        },
        Arrival::Response { id } => if id == expected_id {
            ExchangeStep::Answer
        } else {
            ExchangeStep::Skip
        },
        Arrival::Request { command } => if hello {
            ExchangeStep::Skip
        } else {
            ExchangeStep::Fail(DeviceError::UnexpectedRequest(command))
        },
        Arrival::Event => if hello {
            ExchangeStep::KeepEventIfValid
        } else {
            ExchangeStep::KeepEvent
        },
    }
}

/// Finishes an exchange with its response: a response that breaks the
/// protocol is refused; a success is handed back; a failure becomes the
/// error the device sent, which a valid failure always carries.
pub fn finish_exchange(response: ResponseEnvelope) -> (r: Result<ResponseEnvelope, DeviceError>)
    ensures
        !(response.protocol == PROTOCOL_VERSION && response_shape_ok(response)) ==> r matches Err(
            DeviceError::Protocol(_),
        ),
        response.protocol == PROTOCOL_VERSION && response_shape_ok(response) && response.ok ==> r
            == Ok::<ResponseEnvelope, DeviceError>(response),
        response.protocol == PROTOCOL_VERSION && response_shape_ok(response) && !response.ok ==> (
        r matches Err(DeviceError::Remote(e)) && response.error == Some(e)),
{
    match response.validate() {
        Err(error) => Err(DeviceError::Protocol(error)),
        Ok(()) => {
            if response.ok {
                Ok(response)
            } else {
                match response.error {
                    Some(error) => Err(DeviceError::Remote(error)),
                    None => Err(DeviceError::UnexpectedResponse(response.id)),
                }
            }
        },
    }
}

} // verus!
