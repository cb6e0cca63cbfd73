//! The reconciliation of a domain's address records with the host's public
//! addresses, and of its zone TTL with the configured ceiling.
//!
//! Records are matched to a subdomain by host and by a managed type (`A` or
//! `AAAA`); records of any other type are never touched. With no match, each
//! discovered address gets a new record. With exactly one match, that record
//! is retargeted to the first discovered address of its own family, if there
//! is one, and each address of the other family gets a new record. With more
//! than one match the subdomain is left alone and reported as a conflict.

use vstd::prelude::*;
use crate::json::same_text;
use crate::models::{DnsRecord, IpAddress, RecordType, family_type, address_text};

verus! {

/// TTLs above this many seconds are too long for dynamic DNS.
pub const MAX_DYNAMIC_TTL: u32 = 300;

/// What to do with the zone's TTL.
#[derive(Debug, Clone, Copy, PartialEq, Eq)]
pub enum ZoneDecision {
    /// The TTL is short enough.
    Keep,
    /// The TTL is too long and no ceiling is configured: report it.
    Warn(u32),
    /// Write the zone with this TTL.
    Update(u32),
}

pub open spec fn zone_decision_of(ttl: u32, desired: Option<u32>) -> ZoneDecision {
    if ttl <= MAX_DYNAMIC_TTL {
        ZoneDecision::Keep
    } else {
        match desired {
            Some(d) => ZoneDecision::Update(d),
            None => ZoneDecision::Warn(ttl),
        }
    }
}

/// Decides on the zone's TTL: a TTL above the dynamic-DNS limit is set to the
/// configured value, or reported where none is configured.
pub fn zone_decision(ttl: u32, desired: Option<u32>) -> (r: ZoneDecision)
    ensures
        r == zone_decision_of(ttl, desired),
{
    if ttl <= MAX_DYNAMIC_TTL {
        ZoneDecision::Keep
    } else {
        match desired {
            Some(d) => ZoneDecision::Update(d),
            None => ZoneDecision::Warn(ttl),
        }
    }
}

/// A TTL within the dynamic-DNS limit is kept, whatever is configured.
pub proof fn short_ttl_kept(ttl: u32, desired: Option<u32>)
    requires
        ttl <= MAX_DYNAMIC_TTL,
    ensures
        zone_decision_of(ttl, desired) == ZoneDecision::Keep,
{
}

/// Whether `r` is a record that the subdomain `sub` manages.
pub open spec fn manages(r: DnsRecord, sub: Seq<char>) -> bool {
    r.host_name@ == sub && !(r.record_type is Other)
}

/// The records that the subdomain `sub` manages, in their order.
pub open spec fn matching(records: Seq<DnsRecord>, sub: Seq<char>) -> Seq<DnsRecord>
    decreases records.len(),
{
    if records.len() == 0 {
        Seq::empty()
    } else {
        let rest = matching(records.drop_last(), sub);
        if manages(records.last(), sub) {
            rest.push(records.last())
        } else {
            rest
        }
    }
}

/// The addresses whose family is not the one that records of type `t` hold.
pub open spec fn other_family(addrs: Seq<IpAddress>, t: RecordType) -> Seq<IpAddress>
    decreases addrs.len(),
{
    if addrs.len() == 0 {
        Seq::empty()
    } else {
        let rest = other_family(addrs.drop_last(), t);
        if family_type(addrs.last()) != t {
            rest.push(addrs.last())
        } else {
            rest
        }
    }
}

/// The first address of the family that records of type `t` hold.
pub open spec fn first_of_family(addrs: Seq<IpAddress>, t: RecordType) -> Option<IpAddress>
    decreases addrs.len(),
{
    if addrs.len() == 0 {
        None
    } else if family_type(addrs[0]) == t {
        Some(addrs[0])
    } else {
        first_of_family(addrs.drop_first(), t)
    }
}

/// A change to a subdomain's records.
pub enum Mutation {
    /// A record to create.
    Create(DnsRecord),
    /// An existing record, with its identifier, retargeted.
    Update(DnsRecord),
}

/// The record that a change writes.
pub open spec fn written(m: Mutation) -> DnsRecord {
    match m {
        Mutation::Create(r) => r,
        Mutation::Update(r) => r,
    }
}

impl Mutation {
    pub fn record(&self) -> (r: &DnsRecord)
        ensures
            *r == written(*self),
    {
        match self {
            Mutation::Create(r) => r,
            Mutation::Update(r) => r,
        }
    }
}

/// What to do for one subdomain.
pub enum SubdomainPlan {
    /// Apply these changes (none where nothing is to be done).
    Apply(Vec<Mutation>),
    /// More than one record matches: the subdomain needs a manual decision.
    Conflict,
}

/// `r` is the new record of `sub` for the address `a`.
pub open spec fn is_new_record(r: DnsRecord, sub: Seq<char>, a: IpAddress) -> bool {
    &&& r.id is None
    &&& r.host_name@ == sub
    &&& r.record_type == family_type(a)
    &&& r.destination == address_text(a)
    &&& r.priority is None
    &&& r.delete_record is None
    &&& r.state is None
}

/// From position `start` on, `ms` creates one record of `sub` for each of
/// `addrs`, in order, and nothing else.
pub open spec fn creates(ms: Seq<Mutation>, start: int, sub: Seq<char>, addrs: Seq<IpAddress>) -> bool {
    &&& ms.len() == start + addrs.len()
    &&& forall|j: int|
        start <= j < ms.len() ==> (#[trigger] ms[j] matches Mutation::Create(r) && is_new_record(
            r,
            sub,
            addrs[j - start],
        ))
}

/// The plan for the subdomain `sub`, given the zone's `records` and the
/// discovered addresses `addrs`.
pub open spec fn is_plan(p: SubdomainPlan, sub: Seq<char>, records: Seq<DnsRecord>, addrs: Seq<IpAddress>) -> bool {
    let m = matching(records, sub);
    if m.len() == 0 {
        p matches SubdomainPlan::Apply(ms) && creates(ms@, 0, sub, addrs)
    } else if m.len() == 1 {
        let t = m[0].record_type;
        let others = other_family(addrs, t);
        p matches SubdomainPlan::Apply(ms) && match first_of_family(addrs, t) {
            Some(a) => {
                &&& ms@.len() > 0
                &&& ms@[0] == Mutation::Update(DnsRecord { destination: address_text(a), ..m[0] })
                &&& creates(ms@, 1, sub, others)
            },
            None => creates(ms@, 0, sub, others),
        }
    } else {
        p is Conflict
    }
}

/// The records of `records` that `sub` manages.
pub fn matching_records(records: &Vec<DnsRecord>, sub: &str) -> (r: Vec<DnsRecord>)
    ensures
        r@ == matching(records@, sub@),
{
    let mut out: Vec<DnsRecord> = Vec::new();
    let mut i: usize = 0;
    while i < records.len()
        invariant
            i <= records@.len(),
            out@ == matching(records@.subrange(0, i as int), sub@),
        decreases records@.len() - i,
    {
        let ghost prefix = records@.subrange(0, i + 1);
        assert(prefix.drop_last() == records@.subrange(0, i as int));
        assert(prefix.last() == records@[i as int]);
        let rec = &records[i];
        if same_text(rec.host_name.as_str(), sub) && rec.record_type.is_managed() {
            out.push(rec.duplicate());
        }
        i = i + 1;
    }
    assert(records@.subrange(0, records@.len() as int) == records@);
    out
}

/// New records of `sub` for each address of `addrs` whose family does not
/// hold records of type `t`, appended to `out`.
fn push_creates(out: &mut Vec<Mutation>, sub: &str, addrs: &Vec<IpAddress>, t: &RecordType)
    ensures
        final(out)@.len() == old(out)@.len() + other_family(addrs@, *t).len(),
        final(out)@.subrange(0, old(out)@.len() as int) == old(out)@,
        creates(final(out)@, old(out)@.len() as int, sub@, other_family(addrs@, *t)),
{
    let ghost start = out@.len() as int;
    let mut i: usize = 0;
    while i < addrs.len()
        invariant
            i <= addrs@.len(),
            out@.len() == start + other_family(addrs@.subrange(0, i as int), *t).len(),
            out@.subrange(0, start) == old(out)@,
            start == old(out)@.len(),
            creates(out@, start, sub@, other_family(addrs@.subrange(0, i as int), *t)),
        decreases addrs@.len() - i,
    {
        let ghost prefix = addrs@.subrange(0, i + 1);
        assert(prefix.drop_last() == addrs@.subrange(0, i as int));
        assert(prefix.last() == addrs@[i as int]);
        let a = &addrs[i];
        let ft = RecordType::from_address(a);
        let differs = match (&ft, t) {
            (RecordType::A, RecordType::A) => false,
            (RecordType::AAAA, RecordType::AAAA) => false,
            _ => true,
        };
        if differs {
            let ghost before = out@;
            out.push(Mutation::Create(DnsRecord::new(sub, a)));
            let ghost others = other_family(prefix, *t);
            assert forall|j: int| start <= j < out@.len() implies (#[trigger] out@[j] matches Mutation::Create(r)
                && is_new_record(r, sub@, others[j - start])) by {
                if j < out@.len() - 1 {
                    assert(out@[j] == before[j]);
                }
            };
        }
        i = i + 1;
    }
    assert(addrs@.subrange(0, addrs@.len() as int) == addrs@);
}

/// Whether records of type `t` hold addresses of the family of `a`.
fn holds_family(t: &RecordType, a: &IpAddress) -> (r: bool)
    ensures
        r == (family_type(*a) == *t),
{
    match (t, a) {
        (RecordType::A, IpAddress::V4(_)) => true,
        (RecordType::AAAA, IpAddress::V6(_)) => true,
        _ => false,
    }
}

/// The first of `addrs` of the family that records of type `t` hold.
fn first_address_of<'a>(addrs: &'a Vec<IpAddress>, t: &RecordType) -> (r: Option<&'a IpAddress>)
    ensures
        match r {
            Some(a) => first_of_family(addrs@, *t) == Some(*a),
            None => first_of_family(addrs@, *t) is None,
        },
{
    let mut i: usize = 0;
    assert(addrs@.subrange(0, addrs@.len() as int) == addrs@);
    while i < addrs.len()
        invariant
            i <= addrs@.len(),
            first_of_family(addrs@, *t) == first_of_family(addrs@.subrange(i as int, addrs@.len() as int), *t),
        decreases addrs@.len() - i,
    {
        let ghost rest = addrs@.subrange(i as int, addrs@.len() as int);
        assert(rest.drop_first() == addrs@.subrange(i + 1, addrs@.len() as int));
        assert(rest[0] == addrs@[i as int]);
        if holds_family(t, &addrs[i]) {
            return Some(&addrs[i]);
        }
        i = i + 1;
    }
    None
}

/// The plan for the subdomain `sub`: see the module's description.
pub fn plan_subdomain(sub: &str, records: &Vec<DnsRecord>, addrs: &Vec<IpAddress>) -> (r: SubdomainPlan)
    ensures
        is_plan(r, sub@, records@, addrs@),
{
    let found = matching_records(records, sub);
    let mut ms: Vec<Mutation> = Vec::new();
    if found.len() == 0 {
        let mut i: usize = 0;
        while i < addrs.len()
            invariant
                i <= addrs@.len(),
                ms@.len() == i,
                forall|k: int| 0 <= k < i ==> (#[trigger] ms@[k] matches Mutation::Create(r)
                    && is_new_record(r, sub@, addrs@[k])),
            decreases addrs@.len() - i,
        {
            ms.push(Mutation::Create(DnsRecord::new(sub, &addrs[i])));
            i = i + 1;
        }
        SubdomainPlan::Apply(ms)
    } else if found.len() == 1 {
        let current = &found[0];
        let ghost m = matching(records@, sub@);
        assert(m[0] == *current);
        match first_address_of(addrs, &current.record_type) {
            Some(a) => {
                let mut updated = current.duplicate();
                updated.destination = match a {
                    IpAddress::V4(s) => s.clone(),
                    IpAddress::V6(s) => s.clone(),
                };
                assert(updated == (DnsRecord { destination: address_text(*a), ..m[0] }));
                ms.push(Mutation::Update(updated));
                let ghost first = ms@;
                push_creates(&mut ms, sub, addrs, &current.record_type);
                assert(ms@[0] == ms@.subrange(0, 1)[0]);
                assert(ms@[0] == first[0]);
            },
            None => {
                push_creates(&mut ms, sub, addrs, &current.record_type);
            },
        }
        SubdomainPlan::Apply(ms)
    } else {
        SubdomainPlan::Conflict
    }
}

impl SubdomainPlan {
    /// The records that the plan writes, in its order; none for a conflict.
    pub fn records(&self) -> (r: Vec<DnsRecord>)
        ensures
            match self {
                SubdomainPlan::Apply(ms) => r@.len() == ms@.len() && forall|k: int|
                    0 <= k < ms@.len() ==> #[trigger] r@[k] == written(ms@[k]),
                SubdomainPlan::Conflict => r@.len() == 0,
            },
    {
        let mut out: Vec<DnsRecord> = Vec::new();
        match self {
            SubdomainPlan::Apply(ms) => {
                let mut i: usize = 0;
                while i < ms.len()
                    invariant
                        i <= ms@.len(),
                        out@.len() == i,
                        forall|k: int| 0 <= k < i ==> #[trigger] out@[k] == written(ms@[k]),
                    decreases ms@.len() - i,
                {
                    out.push(ms[i].record().duplicate());
                    i = i + 1;
                }
            },
            SubdomainPlan::Conflict => {},
        }
        out
    }

    pub fn is_conflict(&self) -> (r: bool)
        ensures
            r == (*self is Conflict),
    {
        match self {
            SubdomainPlan::Conflict => true,
            _ => false,
        }
    }
}

/// Each record that the subdomain `sub` manages has its host and a managed type.
pub proof fn lemma_matching_managed(records: Seq<DnsRecord>, sub: Seq<char>)
    ensures
        forall|i: int| 0 <= i < matching(records, sub).len() ==> manages(
            #[trigger] matching(records, sub)[i],
            sub,
        ),
    decreases records.len(),
{
    if records.len() > 0 {
        let rest = matching(records.drop_last(), sub);
        lemma_matching_managed(records.drop_last(), sub);
        if manages(records.last(), sub) {
            assert forall|i: int| 0 <= i < rest.len() + 1 implies manages(
                #[trigger] rest.push(records.last())[i],
                sub,
            ) by {
                if i < rest.len() {
                    assert(rest.push(records.last())[i] == rest[i]);
                }
            };
        }
    }
}

/// No change of any plan writes a record of an unmanaged type: records of
/// other types are never part of a mutation, whatever the subdomain.
pub proof fn plan_keeps_other_types(
    p: SubdomainPlan,
    sub: Seq<char>,
    records: Seq<DnsRecord>,
    addrs: Seq<IpAddress>,
)
    requires
        is_plan(p, sub, records, addrs),
    ensures
        p matches SubdomainPlan::Apply(ms) ==> forall|k: int|
            0 <= k < ms@.len() ==> !(#[trigger] written(ms@[k]).record_type is Other),
{
    lemma_matching_managed(records, sub);
    let m = matching(records, sub);
    if let SubdomainPlan::Apply(ms) = p {
        assert forall|k: int| 0 <= k < ms@.len() implies !(#[trigger] written(ms@[k]).record_type is Other) by {
            if m.len() == 1 {
                assert(manages(m[0], sub));
            }
        };
    }
}

} // verus!
