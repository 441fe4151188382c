//! The peers this node has heard from: for each peer id, the public key to
//! encrypt messages to it, the username and the status it last announced, and
//! whether it is online.
use crate::protocol::{status_text, OnlineStatus};
use vstd::prelude::*;

verus! {

/// What is known of one peer.
pub struct PeerRecord {
    pub peer_id: String,
    pub public_key: [u8; 32],
    pub username: String,
    pub status: OnlineStatus,
    pub online: bool,
}

/// What is known of a peer: its public key, the username and the status it last
/// announced, and whether it is online.
pub type PeerInfo = (Seq<u8>, Seq<char>, OnlineStatus, bool);

/// What a record says of its peer.
pub open spec fn record_info(r: PeerRecord) -> PeerInfo {
    (r.public_key@, r.username@, r.status, r.online)
}

/// The map from peer ids to what is known of them that a list of records holds,
/// later records overriding earlier ones.
pub open spec fn peer_map(s: Seq<PeerRecord>) -> Map<Seq<char>, PeerInfo>
    decreases s.len(),
{
    if s.len() == 0 {
        Map::empty()
    } else {
        peer_map(s.drop_last()).insert(s.last().peer_id@, record_info(s.last()))
    }
}

/// No peer id occurs twice.
pub open spec fn ids_distinct(s: Seq<PeerRecord>) -> bool {
    forall|i: int, j: int| 0 <= i < j < s.len() ==> s[i].peer_id@ != s[j].peer_id@
}

proof fn lemma_map_index(s: Seq<PeerRecord>, i: int)
    requires
        ids_distinct(s),
        0 <= i < s.len(),
    ensures
        peer_map(s).dom().contains(s[i].peer_id@),
        peer_map(s)[s[i].peer_id@] == record_info(s[i]),
    decreases s.len(),
{
    if i < s.len() - 1 {
        lemma_map_index(s.drop_last(), i);
    }
}

proof fn lemma_map_absent(s: Seq<PeerRecord>, k: Seq<char>)
    requires
        forall|i: int| 0 <= i < s.len() ==> s[i].peer_id@ != k,
    ensures
        !peer_map(s).dom().contains(k),
    decreases s.len(),
{
    if s.len() > 0 {
        lemma_map_absent(s.drop_last(), k);
    }
}

proof fn lemma_map_dom(s: Seq<PeerRecord>, k: Seq<char>)
    requires
        peer_map(s).dom().contains(k),
    ensures
        exists|i: int| 0 <= i < s.len() && s[i].peer_id@ == k,
{
    if !(exists|i: int| 0 <= i < s.len() && s[i].peer_id@ == k) {
        lemma_map_absent(s, k);
    }
}

proof fn lemma_map_update(s: Seq<PeerRecord>, i: int, r: PeerRecord)
    requires
        ids_distinct(s),
        0 <= i < s.len(),
        r.peer_id@ == s[i].peer_id@,
    ensures
        peer_map(s.update(i, r)) =~= peer_map(s).insert(r.peer_id@, record_info(r)),
    decreases s.len(),
{
    let t = s.update(i, r);
    if i == s.len() - 1 {
        assert(t.drop_last() =~= s.drop_last());
    } else {
        assert(t.drop_last() =~= s.drop_last().update(i, r));
        lemma_map_update(s.drop_last(), i, r);
        assert(t.last() == s.last());
    }
}

/// What an online entry holds, as text: username, peer id, status.
pub open spec fn entry_of(e: (String, String, String)) -> (Seq<char>, Seq<char>, Seq<char>) {
    (e.0@, e.1@, e.2@)
}

/// The online entry of a record: its username, its peer id and its status's text.
pub open spec fn record_entry(r: PeerRecord) -> (Seq<char>, Seq<char>, Seq<char>) {
    (r.username@, r.peer_id@, status_text(r.status))
}

/// The table of known peers.
pub struct PeerTable {
    entries: Vec<PeerRecord>,
}

impl View for PeerTable {
    type V = Map<Seq<char>, PeerInfo>;

    closed spec fn view(&self) -> Self::V {
        peer_map(self.entries@)
    }
}

impl PeerTable {
    /// The table is well formed: no peer id occurs twice.
    pub closed spec fn wf(&self) -> bool {
        ids_distinct(self.entries@)
    }

    /// An empty table.
    pub fn new() -> (t: PeerTable)
        ensures
            t.wf(),
            t@ == Map::<Seq<char>, PeerInfo>::empty(),
    {
        PeerTable { entries: Vec::new() }
    }

    /// The index of the record of `peer`, if there is one.
    fn find(&self, peer: &String) -> (r: Option<usize>)
        requires
            self.wf(),
        ensures
            match r {
                Some(i) => i < self.entries@.len() && self.entries@[i as int].peer_id@ == peer@,
                None => !self@.dom().contains(peer@),
            },
            r is Some <==> self@.dom().contains(peer@),
    {
        let mut i: usize = 0;
        while i < self.entries.len()
            invariant
                i <= self.entries@.len(),
                ids_distinct(self.entries@),
                forall|j: int| 0 <= j < i ==> self.entries@[j].peer_id@ != peer@,
            decreases self.entries@.len() - i,
        {
            if self.entries[i].peer_id == *peer {
                proof {
                    lemma_map_index(self.entries@, i as int);
                }
                return Some(i);
            }
            i = i + 1;
        }
        proof {
            lemma_map_absent(self.entries@, peer@);
        }
        None
    }

    /// Whether `peer` is known.
    pub fn contains(&self, peer: &String) -> (b: bool)
        requires
            self.wf(),
        ensures
            b == self@.dom().contains(peer@),
    {
        self.find(peer).is_some()
    }

    /// The public key known for `peer`.
    pub fn public_key_of(&self, peer: &String) -> (r: Option<[u8; 32]>)
        requires
            self.wf(),
        ensures
            r is Some <==> self@.dom().contains(peer@),
            r matches Some(k) ==> k@ == self@[peer@].0,
    {
        match self.find(peer) {
            Some(i) => {
                proof {
                    lemma_map_index(self.entries@, i as int);
                }
                Some(self.entries[i].public_key)
            },
            None => None,
        }
    }

    /// The username known for `peer`.
    pub fn username_of(&self, peer: &String) -> (r: Option<String>)
        requires
            self.wf(),
        ensures
            r is Some <==> self@.dom().contains(peer@),
            r matches Some(name) ==> name@ == self@[peer@].1,
    {
        match self.find(peer) {
            Some(i) => {
                proof {
                    lemma_map_index(self.entries@, i as int);
                }
                Some(self.entries[i].username.clone())
            },
            None => None,
        }
    }

    /// Records `public_key`, `username` and `status` for `peer`, online, replacing
    /// what was known of it.
    pub fn insert(&mut self, peer: &String, public_key: [u8; 32], username: String, status: OnlineStatus)
        requires
            old(self).wf(),
        ensures
            final(self).wf(),
            final(self)@ == old(self)@.insert(peer@, (public_key@, username@, status, true)),
    {
        let record = PeerRecord { peer_id: peer.clone(), public_key, username, status, online: true };
        match self.find(peer) {
            Some(i) => {
                proof {
                    lemma_map_update(self.entries@, i as int, record);
                }
                self.entries.set(i, record);
            },
            None => {
                proof {
                    let s = self.entries@;
                    assert(s.push(record).drop_last() =~= s);
                    assert forall|j: int| 0 <= j < s.len() implies s[j].peer_id@ != peer@ by {
                        if s[j].peer_id@ == peer@ {
                            lemma_map_index(s, j);
                        }
                    }
                }
                self.entries.push(record);
            },
        }
    }

    /// Marks `peer` offline, keeping everything else known of it; an unknown peer
    /// changes nothing.
    pub fn set_offline(&mut self, peer: &String)
        requires
            old(self).wf(),
        ensures
            final(self).wf(),
            final(self)@ == if old(self)@.dom().contains(peer@) {
                old(self)@.insert(
                    peer@,
                    (old(self)@[peer@].0, old(self)@[peer@].1, old(self)@[peer@].2, false),
                )
            } else {
                old(self)@
            },
    {
        match self.find(peer) {
            Some(i) => {
                let old_record = &self.entries[i];
                let record = PeerRecord {
                    peer_id: old_record.peer_id.clone(),
                    public_key: old_record.public_key,
                    username: old_record.username.clone(),
                    status: old_record.status,
                    online: false,
                };
                proof {
                    lemma_map_index(self.entries@, i as int);
                    lemma_map_update(self.entries@, i as int, record);
                }
                self.entries.set(i, record);
            },
            None => {},
        }
    }

    /// One entry per online peer: its username, its peer id and the text of the
    /// status it last announced, in the order in which the peers were first heard of.
    pub fn online_entries(&self) -> (list: Vec<(String, String, String)>)
        requires
            self.wf(),
        ensures
            forall|j: int|
                0 <= j < list@.len() ==> {
                    let k = (#[trigger] list@[j]).1@;
                    &&& self@.dom().contains(k)
                    &&& self@[k].3
                    &&& list@[j].0@ == self@[k].1
                    &&& list@[j].2@ == status_text(self@[k].2)
                },
            forall|k: Seq<char>|
                self@.dom().contains(k) && #[trigger] self@[k].3 ==> exists|j: int|
                    0 <= j < list@.len() && (#[trigger] list@[j]).1@ == k,
            forall|j1: int, j2: int|
                0 <= j1 < j2 < list@.len() ==> (#[trigger] list@[j1]).1@ != (#[trigger] list@[j2]).1@,
    {
        let mut list: Vec<(String, String, String)> = Vec::new();
        let ghost mut from: Seq<int> = Seq::empty();
        let mut i: usize = 0;
        while i < self.entries.len()
            invariant
                i <= self.entries@.len(),
                ids_distinct(self.entries@),
                from.len() == list@.len(),
                forall|j: int|
                    0 <= j < list@.len() ==> 0 <= #[trigger] from[j] < i && entry_of(list@[j])
                        == record_entry(self.entries@[from[j]]) && self.entries@[from[j]].online,
                forall|j1: int, j2: int| 0 <= j1 < j2 < list@.len() ==> from[j1] < from[j2],
                forall|r: int|
                    0 <= r < i && #[trigger] self.entries@[r].online ==> exists|j: int|
                        0 <= j < list@.len() && from[j] == r,
            decreases self.entries@.len() - i,
        {
            let record = &self.entries[i];
            let ghost old_from = from;
            let ghost old_len = list@.len();
            if record.online {
                list.push((record.username.clone(), record.peer_id.clone(), record.status.text()));
                proof {
                    from = from.push(i as int);
                    assert(entry_of(list@[list@.len() - 1]) == record_entry(self.entries@[i as int]));
                }
            }
            proof {
                assert forall|r: int|
                    0 <= r < i + 1 && #[trigger] self.entries@[r].online implies exists|j: int|
                    0 <= j < list@.len() && from[j] == r by {
                    if r == i {
                        assert(from[old_len as int] == r);
                    } else {
                        let j = choose|j: int| 0 <= j < old_len && old_from[j] == r;
                        assert(from[j] == r);
                    }
                }
            }
            i = i + 1;
        }
        proof {
            assert forall|j: int| 0 <= j < list@.len() implies {
                let k = (#[trigger] list@[j]).1@;
                &&& self@.dom().contains(k)
                &&& self@[k].3
                &&& list@[j].0@ == self@[k].1
                &&& list@[j].2@ == status_text(self@[k].2)
            } by {
                let r = from[j];
                assert(entry_of(list@[j]) == record_entry(self.entries@[r]));
                lemma_map_index(self.entries@, r);
            }
            assert forall|k: Seq<char>| self@.dom().contains(k) && #[trigger] self@[k].3 implies exists|j: int|
                0 <= j < list@.len() && (#[trigger] list@[j]).1@ == k by {
                lemma_map_dom(self.entries@, k);
                let r = choose|r: int| 0 <= r < self.entries@.len() && self.entries@[r].peer_id@ == k;
                lemma_map_index(self.entries@, r);
                assert(self.entries@[r].online);
                let j = choose|j: int| 0 <= j < list@.len() && from[j] == r;
                assert(entry_of(list@[j]) == record_entry(self.entries@[r]));
            }
            assert forall|j1: int, j2: int| 0 <= j1 < j2 < list@.len() implies (#[trigger] list@[j1]).1@
                != (#[trigger] list@[j2]).1@ by {
                assert(entry_of(list@[j1]) == record_entry(self.entries@[from[j1]]));
                assert(entry_of(list@[j2]) == record_entry(self.entries@[from[j2]]));
            }
        }
        list
    }
}

} // verus!
