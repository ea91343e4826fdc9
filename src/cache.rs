//! Who is connected: client id to (nickname, ignored).

use vstd::prelude::*;
use vstd::hash_map::HashMapWithView;
use crate::codec::string_views;
use crate::records::Client;

verus! {

broadcast use vstd::std_specs::hash::group_hash_axioms;

/// What the cache keeps of one client.
#[derive(Debug)]
pub struct CacheEntry {
    pub nickname: String,
    pub ignored: bool,
}

impl CacheEntry {
    pub open spec fn view(&self) -> (Seq<char>, bool) {
        (self.nickname@, self.ignored)
    }

    pub fn duplicate(&self) -> (r: CacheEntry)
        ensures
            r.view() == self.view(),
    {
        CacheEntry { nickname: self.nickname.clone(), ignored: self.ignored }
    }
}

pub type CacheMap = Map<i64, (Seq<char>, bool)>;

/// The clients seen in the listing or by a join event, and not yet seen leaving.
pub struct ClientCache {
    pub entries: HashMapWithView<i64, CacheEntry>,
}

/// Whether `list` holds `s`.
pub fn listed(list: &Vec<String>, s: &String) -> (r: bool)
    ensures
        r == string_views(list@).contains(s@),
{
    let mut i: usize = 0;
    while i < list.len()
        invariant
            i <= list.len(),
            forall|j: int| 0 <= j < i ==> list@[j]@ != s@,
        decreases list.len() - i,
    {
        if list[i] == *s {
            assert(string_views(list@)[i as int] == s@);
            return true;
        }
        i += 1;
    }
    assert forall|j: int| 0 <= j < string_views(list@).len() implies string_views(list@)[j] != s@ by {
        assert(list@[j]@ != s@);
    }
    false
}

/// A listed client is ignored where its nickname, or its unique identifier
/// when the listing gives one, stands on the ignore list.
pub open spec fn seed_ignored(c: Client, list: Seq<Seq<char>>) -> bool {
    list.contains(c.client_nickname@) || match c.client_unique_identifier {
        Some(u) => list.contains(u@),
        None => false,
    }
}

/// What seeding adds: each client that is not privileged (`client_type == 1`) and
/// whose id is not present yet, marked ignored as `seed_ignored` says.
pub open spec fn seeded(m: CacheMap, list: Seq<Seq<char>>, clients: Seq<Client>) -> CacheMap
    decreases clients.len(),
{
    if clients.len() == 0 {
        m
    } else {
        let before = seeded(m, list, clients.drop_last());
        let c = clients.last();
        if before.contains_key(c.clid) || c.client_type == 1 {
            before
        } else {
            before.insert(c.clid, (c.client_nickname@, seed_ignored(c, list)))
        }
    }
}

impl ClientCache {
    pub open spec fn view(&self) -> CacheMap {
        self.entries@.map_values(|e: CacheEntry| e.view())
    }

    pub fn new() -> (r: Self)
        ensures
            r.view() == Map::<i64, (Seq<char>, bool)>::empty(),
    {
        let r = ClientCache { entries: HashMapWithView::new() };
        assert(r.view() =~= Map::<i64, (Seq<char>, bool)>::empty());
        r
    }

    pub fn len(&self) -> (r: usize)
        ensures
            r == self.view().len(),
    {
        proof {
            assert(self.view().dom() =~= self.entries@.dom());
        }
        self.entries.len()
    }

    /// The entry of `id`.
    pub fn get(&self, id: i64) -> (r: Option<CacheEntry>)
        ensures
            match r {
                Some(e) => self.view().contains_key(id) && self.view()[id] == e.view(),
                None => !self.view().contains_key(id),
            },
    {
        match self.entries.get(&id) {
            Some(e) => Some(e.duplicate()),
            None => None,
        }
    }

    /// Bulk-fills the cache from a listing, leaving privileged accounts out and
    /// marking those on the ignore list.
    pub fn seed(&mut self, clients: &Vec<Client>, ignore_list: &Vec<String>)
        ensures
            final(self).view() == seeded(old(self).view(), string_views(ignore_list@), clients@),
    {
        let mut i: usize = 0;
        while i < clients.len()
            invariant
                i <= clients.len(),
                self.view() == seeded(old(self).view(), string_views(ignore_list@), clients@.take(i as int)),
            decreases clients.len() - i,
        {
            proof {
                assert(clients@.take(i + 1).drop_last() =~= clients@.take(i as int));
            }
            let c = &clients[i];
            if !self.entries.contains_key(&c.clid) && c.client_type != 1 {
                let ignored = listed(ignore_list, &c.client_nickname) || match &c.client_unique_identifier {
                    Some(u) => listed(ignore_list, u),
                    None => false,
                };
                let e = CacheEntry { nickname: c.client_nickname.clone(), ignored };
                self.entries.insert(c.clid, e);
                assert(self.view() =~= seeded(
                    old(self).view(),
                    string_views(ignore_list@),
                    clients@.take(i as int),
                ).insert(c.clid, (c.client_nickname@, ignored)));
            }
            i += 1;
        }
        proof {
            assert(clients@.take(clients.len() as int) =~= clients@);
        }
    }

    /// Records a join; returns the entry that `id` had before, if any.
    pub fn on_enter(&mut self, id: i64, nickname: String, ignored: bool) -> (r: Option<CacheEntry>)
        ensures
            final(self).view() == old(self).view().insert(id, (nickname@, ignored)),
            match r {
                Some(e) => old(self).view().contains_key(id) && old(self).view()[id] == e.view(),
                None => !old(self).view().contains_key(id),
            },
    {
        let prev = self.get(id);
        self.entries.insert(id, CacheEntry { nickname, ignored });
        assert(self.view() =~= old(self).view().insert(id, (nickname@, ignored)));
        prev
    }

    /// Records a leave; returns the removed entry, or `None` with the cache unchanged.
    pub fn on_left(&mut self, id: i64) -> (r: Option<CacheEntry>)
        ensures
            match r {
                Some(e) => old(self).view().contains_key(id) && old(self).view()[id] == e.view()
                    && final(self).view() == old(self).view().remove(id),
                None => !old(self).view().contains_key(id) && final(self).view() == old(
                    self,
                ).view(),
            },
    {
        let r = self.entries.remove(&id);
        assert(self.view() =~= match r {
            Some(_) => old(self).view().remove(id),
            None => old(self).view(),
        });
        r
    }
}

/// A join followed at once by the leave of the same id leaves the cache as it was
/// without that id; from a cache without that id, exactly as it was.
pub proof fn enter_then_leave(m: CacheMap, id: i64, entry: (Seq<char>, bool))
    ensures
        m.insert(id, entry).contains_key(id),
        m.insert(id, entry).remove(id) == m.remove(id),
        !m.contains_key(id) ==> m.insert(id, entry).remove(id) == m,
{
    assert(m.insert(id, entry).remove(id) =~= m.remove(id));
    if !m.contains_key(id) {
        assert(m.remove(id) =~= m);
    }
}

} // verus!
