//! The set of ports on which protocol detection is skipped, held in an
//! `indexmap::IndexSet` and seen by the contracts as a set of ports.

use vstd::prelude::*;

use indexmap::IndexSet;

verus! {

#[verifier::external_type_specification]
#[verifier::external_body]
#[verifier::reject_recursive_types(T)]
#[verifier::reject_recursive_types(S)]
pub struct ExIndexSet<T, S>(IndexSet<T, S>);

/// The ports that an `IndexSet` of ports holds.
pub uninterp spec fn port_set(s: IndexSet<u16>) -> Set<u16>;

/// Relies on `IndexSet::new`: a new set holds nothing.
#[verifier::external_body]
fn empty_ports() -> (r: IndexSet<u16>)
    ensures
        port_set(r) == Set::<u16>::empty(),
{
    IndexSet::new()
}

/// Relies on `IndexSet::insert`: the value is in the set afterwards, nothing
/// else changes, and the result says whether it was absent before.
#[verifier::external_body]
fn insert_port(s: &mut IndexSet<u16>, port: u16) -> (r: bool)
    ensures
        port_set(*final(s)) == port_set(*old(s)).insert(port),
        r == !port_set(*old(s)).contains(port),
{
    s.insert(port)
}

/// Relies on `IndexSet::contains`: whether an equal value is in the set.
#[verifier::external_body]
pub(crate) fn contains_port(s: &IndexSet<u16>, port: u16) -> (r: bool)
    ensures
        r == port_set(*s).contains(port),
{
    s.contains(&port)
}

/// Builds the set of the given ports.
pub fn port_set_of(ports: &Vec<u16>) -> (r: IndexSet<u16>)
    ensures
        forall|p: u16| #[trigger] port_set(r).contains(p) <==> ports@.contains(p),
{
    let mut s = empty_ports();
    let mut i: usize = 0;
    while i < ports.len()
        invariant
            i <= ports.len(),
            forall|p: u16| #[trigger] port_set(s).contains(p) <==> ports@.subrange(0, i as int).contains(p),
        decreases ports.len() - i,
    {
        let x = ports[i];
        let ghost prev = ports@.subrange(0, i as int);
        insert_port(&mut s, x);
        assert(ports@.subrange(0, i + 1) =~= prev.push(x));
        assert forall|p: u16| #[trigger] port_set(s).contains(p) <==> prev.push(x).contains(p) by {
            if p == x {
                assert(prev.push(x)[prev.len() as int] == x);
            } else if prev.push(x).contains(p) {
                let k = choose|k: int| 0 <= k < prev.len() + 1 && prev.push(x)[k] == p;
                assert(prev[k] == p);
            } else if prev.contains(p) {
                let k = choose|k: int| 0 <= k < prev.len() && prev[k] == p;
                assert(prev.push(x)[k] == p);
            }
        }
        i += 1;
    }
    assert(ports@.subrange(0, ports.len() as int) =~= ports@);
    s
}

} // verus!
