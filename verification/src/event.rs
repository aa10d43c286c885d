//! The readiness model: interest/ready bitmasks, registration options and
//! the opaque correlation token.

use vstd::prelude::*;

verus! {

/// Bit assigned to readable interest in an `EventSet`.
const RD_BIT: u32 = 0x1;
/// Bit assigned to writable interest in an `EventSet`.
const WR_BIT: u32 = 0x2;
/// Bit assigned to the error condition in an `EventSet`.
const ERR_BIT: u32 = 0x4;
/// Bit assigned to the hangup condition in an `EventSet`.
const HUP_BIT: u32 = 0x8;

/// A readiness value: a bitmask over {readable, writable, error, hangup}.
///
/// Values are combined with `union` and inspected with the `is_*`
/// predicates; they are never ordered.
#[derive(Clone, Copy, Debug, PartialEq, Eq, Structural, Hash)]
pub struct EventSet {
    bits: u32,
}

impl EventSet {
    /// True when the readable kind is in the set.
    pub closed spec fn spec_readable(self) -> bool {
        self.bits & RD_BIT != 0
    }

    /// True when the writable kind is in the set.
    pub closed spec fn spec_writable(self) -> bool {
        self.bits & WR_BIT != 0
    }

    /// True when the error kind is in the set.
    pub closed spec fn spec_error(self) -> bool {
        self.bits & ERR_BIT != 0
    }

    /// True when the hangup kind is in the set.
    pub closed spec fn spec_hup(self) -> bool {
        self.bits & HUP_BIT != 0
    }

    /// A readiness value holds no bits outside the four modeled kinds.
    pub closed spec fn wf(self) -> bool {
        self.bits & !(RD_BIT | WR_BIT | ERR_BIT | HUP_BIT) == 0
    }

    /// The union of two readiness values, as a mathematical value.
    pub closed spec fn spec_union(self, other: EventSet) -> EventSet {
        EventSet { bits: self.bits | other.bits }
    }

    /// The empty readiness value, as a mathematical value.
    pub closed spec fn spec_none() -> EventSet {
        EventSet { bits: 0 }
    }

    /// The empty set: the identity of `union`.
    pub fn none() -> (r: EventSet)
        ensures
            r == EventSet::spec_none(),
            !r.spec_readable(),
            !r.spec_writable(),
            !r.spec_error(),
            !r.spec_hup(),
            r.wf(),
    {
        proof {
            lemma_none_props();
        }
        EventSet { bits: 0 }
    }

    /// The set holding exactly the readable kind.
    pub fn readable() -> (r: EventSet)
        ensures
            r.spec_readable(),
            !r.spec_writable(),
            !r.spec_error(),
            !r.spec_hup(),
            r.wf(),
    {
        proof {
            lemma_single_bit_props();
        }
        EventSet { bits: RD_BIT }
    }

    /// The set holding exactly the writable kind.
    pub fn writable() -> (r: EventSet)
        ensures
            !r.spec_readable(),
            r.spec_writable(),
            !r.spec_error(),
            !r.spec_hup(),
            r.wf(),
    {
        proof {
            lemma_single_bit_props();
        }
        EventSet { bits: WR_BIT }
    }

    /// The set holding exactly the error kind.
    pub fn error() -> (r: EventSet)
        ensures
            !r.spec_readable(),
            !r.spec_writable(),
            r.spec_error(),
            !r.spec_hup(),
            r.wf(),
    {
        proof {
            lemma_single_bit_props();
        }
        EventSet { bits: ERR_BIT }
    }

    /// The set holding exactly the hangup kind.
    pub fn hup() -> (r: EventSet)
        ensures
            !r.spec_readable(),
            !r.spec_writable(),
            !r.spec_error(),
            r.spec_hup(),
            r.wf(),
    {
        proof {
            lemma_single_bit_props();
        }
        EventSet { bits: HUP_BIT }
    }

    /// True when the readable kind is in the set.
    pub fn is_readable(&self) -> (r: bool)
        ensures
            r == self.spec_readable(),
    {
        self.bits & RD_BIT != 0
    }

    /// True when the writable kind is in the set.
    pub fn is_writable(&self) -> (r: bool)
        ensures
            r == self.spec_writable(),
    {
        self.bits & WR_BIT != 0
    }

    /// True when the error kind is in the set.
    pub fn is_error(&self) -> (r: bool)
        ensures
            r == self.spec_error(),
    {
        self.bits & ERR_BIT != 0
    }

    /// True when the hangup kind is in the set.
    pub fn is_hup(&self) -> (r: bool)
        ensures
            r == self.spec_hup(),
    {
        self.bits & HUP_BIT != 0
    }

    /// True when the set holds no kind at all.
    pub fn is_none(&self) -> (r: bool)
        ensures
            r == (*self == EventSet::spec_none()),
    {
        self.bits == 0
    }

    /// The union of two readiness values: a kind is in the result exactly
    /// when it is in either operand.
    pub fn union(self, other: EventSet) -> (r: EventSet)
        ensures
            r == self.spec_union(other),
    {
        EventSet { bits: self.bits | other.bits }
    }

    /// True when every kind of `other` is also in `self`.
    pub fn contains(&self, other: EventSet) -> (r: bool)
        ensures
            r == self.spec_contains(other),
    {
        self.bits & other.bits == other.bits
    }

    /// Containment of one readiness value in another, as a mathematical
    /// statement.
    pub closed spec fn spec_contains(self, other: EventSet) -> bool {
        self.bits & other.bits == other.bits
    }
}

/// The bits of the empty set assert none of the four kinds.
proof fn lemma_none_props()
    ensures
        EventSet::spec_none().wf(),
        !EventSet::spec_none().spec_readable(),
        !EventSet::spec_none().spec_writable(),
        !EventSet::spec_none().spec_error(),
        !EventSet::spec_none().spec_hup(),
{
    assert(0u32 & RD_BIT == 0 && 0u32 & WR_BIT == 0 && 0u32 & ERR_BIT == 0 && 0u32 & HUP_BIT == 0
        && 0u32 & !(RD_BIT | WR_BIT | ERR_BIT | HUP_BIT) == 0) by (bit_vector);
}

/// Each single-kind constructor sets its own bit and no other.
proof fn lemma_single_bit_props()
    ensures
        (EventSet { bits: RD_BIT }).spec_readable(),
        !(EventSet { bits: RD_BIT }).spec_writable(),
        !(EventSet { bits: RD_BIT }).spec_error(),
        !(EventSet { bits: RD_BIT }).spec_hup(),
        (EventSet { bits: RD_BIT }).wf(),
        !(EventSet { bits: WR_BIT }).spec_readable(),
        (EventSet { bits: WR_BIT }).spec_writable(),
        !(EventSet { bits: WR_BIT }).spec_error(),
        !(EventSet { bits: WR_BIT }).spec_hup(),
        (EventSet { bits: WR_BIT }).wf(),
        !(EventSet { bits: ERR_BIT }).spec_readable(),
        !(EventSet { bits: ERR_BIT }).spec_writable(),
        (EventSet { bits: ERR_BIT }).spec_error(),
        !(EventSet { bits: ERR_BIT }).spec_hup(),
        (EventSet { bits: ERR_BIT }).wf(),
        !(EventSet { bits: HUP_BIT }).spec_readable(),
        !(EventSet { bits: HUP_BIT }).spec_writable(),
        !(EventSet { bits: HUP_BIT }).spec_error(),
        (EventSet { bits: HUP_BIT }).spec_hup(),
        (EventSet { bits: HUP_BIT }).wf(),
{
    assert(RD_BIT & RD_BIT != 0 && RD_BIT & WR_BIT == 0 && RD_BIT & ERR_BIT == 0 && RD_BIT
        & HUP_BIT == 0 && RD_BIT & !(RD_BIT | WR_BIT | ERR_BIT | HUP_BIT) == 0 && WR_BIT & WR_BIT
        != 0 && WR_BIT & RD_BIT == 0 && WR_BIT & ERR_BIT == 0 && WR_BIT & HUP_BIT == 0 && WR_BIT
        & !(RD_BIT | WR_BIT | ERR_BIT | HUP_BIT) == 0 && ERR_BIT & ERR_BIT != 0 && ERR_BIT & RD_BIT
        == 0 && ERR_BIT & WR_BIT == 0 && ERR_BIT & HUP_BIT == 0 && ERR_BIT & !(RD_BIT | WR_BIT
        | ERR_BIT | HUP_BIT) == 0 && HUP_BIT & HUP_BIT != 0 && HUP_BIT & RD_BIT == 0 && HUP_BIT
        & WR_BIT == 0 && HUP_BIT & ERR_BIT == 0 && HUP_BIT & !(RD_BIT | WR_BIT | ERR_BIT | HUP_BIT)
        == 0) by (bit_vector);
}

/// A kind is in a union exactly when it is in either operand, and the
/// union of two well-formed values is well-formed.
pub proof fn lemma_union_kinds(a: EventSet, b: EventSet)
    ensures
        a.spec_union(b).spec_readable() == (a.spec_readable() || b.spec_readable()),
        a.spec_union(b).spec_writable() == (a.spec_writable() || b.spec_writable()),
        a.spec_union(b).spec_error() == (a.spec_error() || b.spec_error()),
        a.spec_union(b).spec_hup() == (a.spec_hup() || b.spec_hup()),
        a.wf() && b.wf() ==> a.spec_union(b).wf(),
{
    let x = a.bits;
    let y = b.bits;
    assert(((x | y) & RD_BIT != 0) == (x & RD_BIT != 0 || y & RD_BIT != 0) && ((x | y) & WR_BIT
        != 0) == (x & WR_BIT != 0 || y & WR_BIT != 0) && ((x | y) & ERR_BIT != 0) == (x & ERR_BIT
        != 0 || y & ERR_BIT != 0) && ((x | y) & HUP_BIT != 0) == (x & HUP_BIT != 0 || y & HUP_BIT
        != 0) && ((x & !(RD_BIT | WR_BIT | ERR_BIT | HUP_BIT) == 0 && y & !(RD_BIT | WR_BIT
        | ERR_BIT | HUP_BIT) == 0) ==> (x | y) & !(RD_BIT | WR_BIT | ERR_BIT | HUP_BIT) == 0))
        by (bit_vector);
}

/// The empty set is the identity of `union`.
pub proof fn lemma_union_none(a: EventSet)
    ensures
        a.spec_union(EventSet::spec_none()) == a,
        EventSet::spec_none().spec_union(a) == a,
{
    let x = a.bits;
    assert(x | 0u32 == x && 0u32 | x == x) by (bit_vector);
}

/// `union` is commutative.
pub proof fn lemma_union_comm(a: EventSet, b: EventSet)
    ensures
        a.spec_union(b) == b.spec_union(a),
{
    let x = a.bits;
    let y = b.bits;
    assert(x | y == y | x) by (bit_vector);
}

/// `union` is associative.
pub proof fn lemma_union_assoc(a: EventSet, b: EventSet, c: EventSet)
    ensures
        a.spec_union(b).spec_union(c) == a.spec_union(b.spec_union(c)),
{
    let x = a.bits;
    let y = b.bits;
    let z = c.bits;
    assert((x | y) | z == x | (y | z)) by (bit_vector);
}

/// `union` is idempotent.
pub proof fn lemma_union_idem(a: EventSet)
    ensures
        a.spec_union(a) == a,
{
    let x = a.bits;
    assert(x | x == x) by (bit_vector);
}

/// The readiness value holding exactly the given kinds.
pub closed spec fn spec_from_kinds(r: bool, w: bool, e: bool, h: bool) -> EventSet {
    EventSet {
        bits: (if r {
            RD_BIT
        } else {
            0
        }) | (if w {
            WR_BIT
        } else {
            0
        }) | (if e {
            ERR_BIT
        } else {
            0
        }) | (if h {
            HUP_BIT
        } else {
            0
        }),
    }
}

/// `spec_from_kinds` holds exactly the kinds it was given, and is
/// well-formed.
pub proof fn lemma_from_kinds(r: bool, w: bool, e: bool, h: bool)
    ensures
        spec_from_kinds(r, w, e, h).spec_readable() == r,
        spec_from_kinds(r, w, e, h).spec_writable() == w,
        spec_from_kinds(r, w, e, h).spec_error() == e,
        spec_from_kinds(r, w, e, h).spec_hup() == h,
        spec_from_kinds(r, w, e, h).wf(),
{
    let br: u32 = if r {
        RD_BIT
    } else {
        0
    };
    let bw: u32 = if w {
        WR_BIT
    } else {
        0
    };
    let be: u32 = if e {
        ERR_BIT
    } else {
        0
    };
    let bh: u32 = if h {
        HUP_BIT
    } else {
        0
    };
    assert(((br | bw | be | bh) & RD_BIT != 0) == (br == RD_BIT) && ((br | bw | be | bh) & WR_BIT
        != 0) == (bw == WR_BIT) && ((br | bw | be | bh) & ERR_BIT != 0) == (be == ERR_BIT) && ((br
        | bw | be | bh) & HUP_BIT != 0) == (bh == HUP_BIT) && (br | bw | be | bh) & !(RD_BIT
        | WR_BIT | ERR_BIT | HUP_BIT) == 0) by (bit_vector)
        requires
            (br == RD_BIT || br == 0) && (bw == WR_BIT || bw == 0) && (be == ERR_BIT || be == 0)
                && (bh == HUP_BIT || bh == 0),
    ;
}

/// Two well-formed readiness values that agree on all four kinds are equal.
pub proof fn lemma_eventset_ext(a: EventSet, b: EventSet)
    requires
        a.wf(),
        b.wf(),
        a.spec_readable() == b.spec_readable(),
        a.spec_writable() == b.spec_writable(),
        a.spec_error() == b.spec_error(),
        a.spec_hup() == b.spec_hup(),
    ensures
        a == b,
{
    let x = a.bits;
    let y = b.bits;
    assert((x & !(RD_BIT | WR_BIT | ERR_BIT | HUP_BIT) == 0 && y & !(RD_BIT | WR_BIT | ERR_BIT
        | HUP_BIT) == 0 && (x & RD_BIT != 0) == (y & RD_BIT != 0) && (x & WR_BIT != 0) == (y
        & WR_BIT != 0) && (x & ERR_BIT != 0) == (y & ERR_BIT != 0) && (x & HUP_BIT != 0) == (y
        & HUP_BIT != 0)) ==> x == y) by (bit_vector);
}

/// Bit assigned to edge-triggered delivery in a `PollOpt`.
const EDGE_BIT: u32 = 0x1;
/// Bit assigned to level-triggered delivery in a `PollOpt`.
const LEVEL_BIT: u32 = 0x2;
/// Bit assigned to oneshot delivery in a `PollOpt`.
const ONESHOT_BIT: u32 = 0x4;

/// A registration option value: a bitmask over {edge, level, oneshot}.
#[derive(Clone, Copy, Debug, PartialEq, Eq, Structural, Hash)]
pub struct PollOpt {
    bits: u32,
}

impl PollOpt {
    /// True when edge-triggered delivery is requested.
    pub closed spec fn spec_edge(self) -> bool {
        self.bits & EDGE_BIT != 0
    }

    /// True when level-triggered delivery is requested.
    pub closed spec fn spec_level(self) -> bool {
        self.bits & LEVEL_BIT != 0
    }

    /// True when oneshot delivery is requested.
    pub closed spec fn spec_oneshot(self) -> bool {
        self.bits & ONESHOT_BIT != 0
    }

    /// The option value requesting nothing.
    pub fn empty() -> (r: PollOpt)
        ensures
            !r.spec_edge(),
            !r.spec_level(),
            !r.spec_oneshot(),
    {
        proof {
            lemma_pollopt_bits();
        }
        PollOpt { bits: 0 }
    }

    /// The option value requesting edge-triggered delivery.
    pub fn edge() -> (r: PollOpt)
        ensures
            r.spec_edge(),
            !r.spec_level(),
            !r.spec_oneshot(),
    {
        proof {
            lemma_pollopt_bits();
        }
        PollOpt { bits: EDGE_BIT }
    }

    /// The option value requesting level-triggered delivery.
    pub fn level() -> (r: PollOpt)
        ensures
            !r.spec_edge(),
            r.spec_level(),
            !r.spec_oneshot(),
    {
        proof {
            lemma_pollopt_bits();
        }
        PollOpt { bits: LEVEL_BIT }
    }

    /// The option value requesting oneshot delivery.
    pub fn oneshot() -> (r: PollOpt)
        ensures
            !r.spec_edge(),
            !r.spec_level(),
            r.spec_oneshot(),
    {
        proof {
            lemma_pollopt_bits();
        }
        PollOpt { bits: ONESHOT_BIT }
    }

    /// The union of two option values.
    pub fn union(self, other: PollOpt) -> (r: PollOpt)
        ensures
            r.spec_edge() == (self.spec_edge() || other.spec_edge()),
            r.spec_level() == (self.spec_level() || other.spec_level()),
            r.spec_oneshot() == (self.spec_oneshot() || other.spec_oneshot()),
    {
        proof {
            let x = self.bits;
            let y = other.bits;
            assert(((x | y) & EDGE_BIT != 0) == (x & EDGE_BIT != 0 || y & EDGE_BIT != 0) && ((x
                | y) & LEVEL_BIT != 0) == (x & LEVEL_BIT != 0 || y & LEVEL_BIT != 0) && ((x | y)
                & ONESHOT_BIT != 0) == (x & ONESHOT_BIT != 0 || y & ONESHOT_BIT != 0))
                by (bit_vector);
        }
        PollOpt { bits: self.bits | other.bits }
    }

    /// True when edge-triggered delivery is requested.
    pub fn is_edge(&self) -> (r: bool)
        ensures
            r == self.spec_edge(),
    {
        self.bits & EDGE_BIT != 0
    }

    /// True when level-triggered delivery is requested.
    pub fn is_level(&self) -> (r: bool)
        ensures
            r == self.spec_level(),
    {
        self.bits & LEVEL_BIT != 0
    }

    /// True when oneshot delivery is requested.
    pub fn is_oneshot(&self) -> (r: bool)
        ensures
            r == self.spec_oneshot(),
    {
        self.bits & ONESHOT_BIT != 0
    }
}

/// The three option bits are pairwise distinct.
proof fn lemma_pollopt_bits()
    ensures
        (PollOpt { bits: 0 }).spec_edge() == false,
        (PollOpt { bits: 0 }).spec_level() == false,
        (PollOpt { bits: 0 }).spec_oneshot() == false,
        (PollOpt { bits: EDGE_BIT }).spec_edge(),
        !(PollOpt { bits: EDGE_BIT }).spec_level(),
        !(PollOpt { bits: EDGE_BIT }).spec_oneshot(),
        !(PollOpt { bits: LEVEL_BIT }).spec_edge(),
        (PollOpt { bits: LEVEL_BIT }).spec_level(),
        !(PollOpt { bits: LEVEL_BIT }).spec_oneshot(),
        !(PollOpt { bits: ONESHOT_BIT }).spec_edge(),
        !(PollOpt { bits: ONESHOT_BIT }).spec_level(),
        (PollOpt { bits: ONESHOT_BIT }).spec_oneshot(),
{
    assert(0u32 & EDGE_BIT == 0 && 0u32 & LEVEL_BIT == 0 && 0u32 & ONESHOT_BIT == 0 && EDGE_BIT
        & EDGE_BIT != 0 && EDGE_BIT & LEVEL_BIT == 0 && EDGE_BIT & ONESHOT_BIT == 0 && LEVEL_BIT
        & EDGE_BIT == 0 && LEVEL_BIT & LEVEL_BIT != 0 && LEVEL_BIT & ONESHOT_BIT == 0 && ONESHOT_BIT
        & EDGE_BIT == 0 && ONESHOT_BIT & LEVEL_BIT == 0 && ONESHOT_BIT & ONESHOT_BIT != 0)
        by (bit_vector);
}

/// A caller-assigned opaque correlation id, copied into the kernel
/// registration and returned verbatim with each ready event.
#[derive(Clone, Copy, Debug, PartialEq, Eq, Structural, Hash)]
pub struct Token(pub usize);

impl Token {
    /// The integer the token wraps.
    pub fn as_usize(self) -> (r: usize)
        ensures
            r == self.0,
    {
        self.0
    }
}

/// One ready notification: which kinds became ready, and the token the
/// descriptor was registered under.
#[derive(Clone, Copy, Debug, PartialEq, Eq, Structural)]
pub struct IoEvent {
    /// The readiness kinds reported by the kernel, folded into the model.
    pub kind: EventSet,
    /// The token given at registration, returned bit-for-bit.
    pub token: Token,
}

impl IoEvent {
    /// Packs a readiness value and a token into one notification.
    pub fn new(kind: EventSet, token: Token) -> (r: IoEvent)
        ensures
            r.kind == kind,
            r.token == token,
    {
        IoEvent { kind, token }
    }
}

} // verus!
