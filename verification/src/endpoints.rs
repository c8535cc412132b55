//! Endpoint resolution: an explicitly constructed, read-only table from
//! logical chain/client names to connection addresses, consulted to find a
//! counterparty and to find where to submit.

use vstd::prelude::*;
use vstd::string::*;

verus! {

/// A name-to-address table whose keys are unique; lookup failure means the
/// chain name is unknown, a fatal configuration error.
#[derive(Clone, Debug)]
pub struct EndpointTable {
    pub keys: Vec<String>,
    pub addrs: Vec<String>,
}

impl EndpointTable {
    /// Keys and addresses pair up, and no key occurs twice.
    pub open spec fn wf(&self) -> bool {
        self.keys@.len() == self.addrs@.len() && (forall|i: int, j: int|
            0 <= i < j < self.keys@.len() ==> self.keys@[i]@ != self.keys@[j]@)
    }

    /// Some key denotes `name`.
    pub open spec fn contains(&self, name: Seq<char>) -> bool {
        exists|i: int| 0 <= i < self.keys@.len() && self.keys@[i]@ == name
    }

    /// The address `name` resolves to, if any.
    pub open spec fn spec_lookup(&self, name: Seq<char>) -> Option<Seq<char>> {
        if self.contains(name) {
            let i = choose|i: int| 0 <= i < self.keys@.len() && self.keys@[i]@ == name;
            Some(self.addrs@[i]@)
        } else {
            None
        }
    }

    /// An empty table.
    pub fn new() -> (t: EndpointTable)
        ensures
            t.wf(),
            t.keys@.len() == 0,
    {
        EndpointTable { keys: Vec::new(), addrs: Vec::new() }
    }

    /// Adds an entry, refusing a key that is already present: keys stay
    /// unique.
    pub fn add(&mut self, key: String, addr: String) -> (added: bool)
        requires
            old(self).wf(),
        ensures
            final(self).wf(),
            added == !old(self).contains(key@),
            added ==> final(self).keys@ == old(self).keys@.push(key) && final(self).addrs@ == old(
                self,
            ).addrs@.push(addr),
            !added ==> *final(self) == *old(self),
    {
        if self.resolve(key.as_str()).is_some() {
            return false;
        }
        self.keys.push(key);
        self.addrs.push(addr);
        assert forall|i: int, j: int| 0 <= i < j < self.keys@.len() implies self.keys@[i]@
            != self.keys@[j]@ by {
            if j < self.keys@.len() - 1 {
                assert(old(self).keys@[i]@ != old(self).keys@[j]@);
            } else {
                assert(!old(self).contains(self.keys@[j]@));
            }
        }
        true
    }

    /// Resolves a name to its address; `None` exactly when no key denotes
    /// the name.
    pub fn resolve(&self, name: &str) -> (r: Option<String>)
        requires
            self.wf(),
        ensures
            match r {
                Some(addr) => self.spec_lookup(name@) == Some(addr@),
                None => self.spec_lookup(name@) is None,
            },
            r is Some <==> self.contains(name@),
    {
        let owned = name.to_owned();
        let mut i: usize = 0;
        while i < self.keys.len()
            invariant
                self.wf(),
                owned@ == name@,
                i <= self.keys@.len(),
                forall|j: int| 0 <= j < i ==> (#[trigger] self.keys@[j])@ != name@,
            decreases self.keys@.len() - i,
        {
            if self.keys[i].eq(&owned) {
                let addr = self.addrs[i].clone();
                proof {
                    assert(self.contains(name@));
                    let k = choose|k: int|
                        0 <= k < self.keys@.len() && self.keys@[k]@ == name@;
                    if k < i as int {
                        assert(self.keys@[k]@ != self.keys@[i as int]@);
                    } else if k > i as int {
                        assert(self.keys@[i as int]@ != self.keys@[k]@);
                    }
                    assert(k == i as int);
                }
                return Some(addr);
            }
            i += 1;
        }
        proof {
            assert(!self.contains(name@));
        }
        None
    }

    /// With unique keys, each key resolves to its own address.
    pub proof fn lemma_lookup_of_key(&self, i: int)
        requires
            self.wf(),
            0 <= i < self.keys@.len(),
        ensures
            self.spec_lookup(self.keys@[i]@) == Some(self.addrs@[i]@),
    {
        assert(self.contains(self.keys@[i]@));
        let k = choose|k: int|
            0 <= k < self.keys@.len() && self.keys@[k]@ == self.keys@[i]@;
        if k < i {
            assert(self.keys@[k]@ != self.keys@[i]@);
        } else if k > i {
            assert(self.keys@[i]@ != self.keys@[k]@);
        }
        assert(k == i);
    }
}

/// The demo deployment's table: its two chains and their addresses.
pub fn default_endpoints() -> (t: EndpointTable)
    ensures
        t.wf(),
        t.keys@.len() == 2,
        t.keys@[0]@ == "appia-client-id"@,
        t.addrs@[0]@ == "ws://127.0.0.1:9944"@,
        t.keys@[1]@ == "flaminia-client-id"@,
        t.addrs@[1]@ == "ws://127.0.0.1:8844"@,
{
    proof {
        reveal_strlit("appia-client-id");
        reveal_strlit("flaminia-client-id");
    }
    let mut t = EndpointTable::new();
    t.add(String::from_str("appia-client-id"), String::from_str("ws://127.0.0.1:9944"));
    t.add(String::from_str("flaminia-client-id"), String::from_str("ws://127.0.0.1:8844"));
    proof {
        assert("appia-client-id"@.len() == 15);
        assert("flaminia-client-id"@.len() == 18);
    }
    t
}

} // verus!
