use vstd::prelude::*;

verus! {

broadcast use vstd::array::group_array_axioms;

/// Calls `rand::random` for 32 bytes. The bytes come from chance, so nothing
/// is claimed of them.
#[verifier::external_body]
fn random_bytes32() -> [u8; 32] {
    rand::random::<[u8; 32]>()
}

/// Whether two 32-byte identifiers are the same.
pub fn same_id(a: &[u8; 32], b: &[u8; 32]) -> (same: bool)
    ensures
        same == (a@ == b@),
{
    let mut i: usize = 0;
    while i < 32
        invariant
            0 <= i <= 32,
            a@.len() == 32,
            b@.len() == 32,
            forall|j: int| 0 <= j < i ==> a@[j] == b@[j],
        decreases 32 - i,
    {
        if a[i] != b[i] {
            return false;
        }
        i += 1;
    }
    assert(a@ =~= b@);
    true
}

/// What a ticket says: the gossip topic to join and the set of peers to
/// start from, each named by 32 bytes.
pub struct Ticket {
    topic_id: [u8; 32],
    /// The peers, each once (see `wf`), kept in a `Vec` rather than a
    /// `BTreeSet`: vstd's contracts for `BTreeSet` hold only for key types
    /// known to obey the comparison laws (`obeys_cmp`), vstd shows that for
    /// integers and tuples but not for `[u8; 32]`, and it can be had for
    /// another type only by an assumption.
    bootstrap: Vec<[u8; 32]>,
}

impl Ticket {
    /// The topic, as bytes.
    pub closed spec fn topic(&self) -> Seq<u8> {
        self.topic_id@
    }

    /// The topic to join.
    pub fn topic_id(&self) -> (id: [u8; 32])
        ensures
            id@ == self.topic(),
    {
        self.topic_id
    }

    /// The peers, as a set of identifiers.
    pub closed spec fn peers(&self) -> Set<Seq<u8>> {
        self.bootstrap@.map_values(|p: [u8; 32]| p@).to_set()
    }

    /// Each peer is listed once.
    pub closed spec fn wf(&self) -> bool {
        forall|i: int, j: int| 0 <= i < j < self.bootstrap@.len() ==> self.bootstrap@[i]@ != self.bootstrap@[j]@
    }

    /// A ticket for `topic_id` with no peers.
    pub fn new(topic_id: [u8; 32]) -> (t: Ticket)
        ensures
            t.wf(),
            t.topic() == topic_id@,
            t.peers() == Set::<Seq<u8>>::empty(),
    {
        let t = Ticket { topic_id, bootstrap: Vec::new() };
        proof {
            assert(t.bootstrap@.map_values(|p: [u8; 32]| p@) =~= Seq::<Seq<u8>>::empty());
            assert(t.peers() =~= Set::<Seq<u8>>::empty());
        }
        t
    }

    /// A ticket for a fresh random topic with no peers.
    pub fn new_random() -> (t: Ticket)
        ensures
            t.wf(),
            t.peers() == Set::<Seq<u8>>::empty(),
    {
        let topic_id = random_bytes32();
        Self::new(topic_id)
    }

    /// The peers, each once.
    pub fn bootstrap(&self) -> (b: &Vec<[u8; 32]>)
        ensures
            self.wf() ==> forall|i: int, j: int| 0 <= i < j < b@.len() ==> b@[i]@ != b@[j]@,
            b@.map_values(|p: [u8; 32]| p@).to_set() == self.peers(),
    {
        &self.bootstrap
    }

    /// Adds a peer to the set; a peer already listed is not listed again.
    pub fn add_peer(&mut self, peer: [u8; 32])
        requires
            old(self).wf(),
        ensures
            final(self).wf(),
            final(self).topic() == old(self).topic(),
            final(self).peers() == old(self).peers().insert(peer@),
    {
        let n = self.bootstrap.len();
        let mut i: usize = 0;
        while i < n
            invariant
                0 <= i <= n,
                n == self.bootstrap@.len(),
                self.wf(),
                forall|j: int| 0 <= j < i ==> self.bootstrap@[j]@ != peer@,
            decreases n - i,
        {
            if same_id(&self.bootstrap[i], &peer) {
                proof {
                    let s = self.bootstrap@.map_values(|p: [u8; 32]| p@);
                    assert(s[i as int] == peer@);
                    assert(s.to_set().insert(peer@) =~= s.to_set());
                }
                return;
            }
            i += 1;
        }
        let ghost old_b = self.bootstrap@;
        self.bootstrap.push(peer);
        proof {
            let s0 = old_b.map_values(|p: [u8; 32]| p@);
            let s1 = self.bootstrap@.map_values(|p: [u8; 32]| p@);
            assert(s1 =~= s0.push(peer@));
            assert(s1.to_set() =~= s0.to_set().insert(peer@)) by {
                assert forall|x: Seq<u8>| s1.to_set().contains(x) <==> s0.to_set().insert(peer@).contains(x) by {
                    if s1.to_set().contains(x) {
                        let k = choose|k: int| 0 <= k < s1.len() && s1[k] == x;
                        if k < s0.len() {
                            assert(s0[k] == x);
                        }
                    }
                    if s0.to_set().contains(x) {
                        let k = choose|k: int| 0 <= k < s0.len() && s0[k] == x;
                        assert(s1[k] == x);
                    }
                    if x == peer@ {
                        assert(s1[s0.len() as int] == x);
                    }
                }
            }
        }
    }

    /// The ticket a node hands out: its topic and itself as the one peer.
    pub fn for_peer(topic_id: [u8; 32], endpoint_id: [u8; 32]) -> (t: Ticket)
        ensures
            t.wf(),
            t.topic() == topic_id@,
            t.peers() == Set::<Seq<u8>>::empty().insert(endpoint_id@),
    {
        let mut t = Ticket::new(topic_id);
        t.add_peer(endpoint_id);
        t
    }
}

} // verus!
