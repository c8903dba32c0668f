use vstd::prelude::*;

use crate::text::str_eq;

verus! {

/// Anything a lobby holds as a player: something with an id.
pub trait Player {
    /// The id of this player.
    spec fn id_view(&self) -> Seq<char>;

    fn id(&self) -> (r: &str)
        ensures
            r@ == self.id_view(),
    ;
}

/// Whether no two entries of `s` carry the same id.
pub open spec fn ids_distinct<P>(s: Seq<(Seq<char>, P)>) -> bool {
    forall|i: int, j: int| 0 <= i < j < s.len() ==> #[trigger] s[i].0 != #[trigger] s[j].0
}

/// Whether some entry of `s` carries `id`.
pub open spec fn has_id<P>(s: Seq<(Seq<char>, P)>, id: Seq<char>) -> bool {
    exists|i: int| 0 <= i < s.len() && #[trigger] s[i].0 == id
}

/// The position of the last entry of `s` carrying `id`, or -1 if there is none.
pub open spec fn position_of<P>(s: Seq<(Seq<char>, P)>, id: Seq<char>) -> int
    decreases s.len(),
{
    if s.len() == 0 {
        -1
    } else if s.last().0 == id {
        s.len() - 1
    } else {
        position_of(s.drop_last(), id)
    }
}

/// The player of `s` registered under `id`, if any.
pub open spec fn lookup<P>(s: Seq<(Seq<char>, P)>, id: Seq<char>) -> Option<P> {
    if position_of(s, id) >= 0 {
        Some(s[position_of(s, id)].1)
    } else {
        None
    }
}

/// `s` after registering `p` under `id`: an entry with that id is replaced in
/// place, otherwise the new entry goes at the end.
pub open spec fn added<P>(s: Seq<(Seq<char>, P)>, id: Seq<char>, p: P) -> Seq<(Seq<char>, P)> {
    if has_id(s, id) {
        s.update(position_of(s, id), (id, p))
    } else {
        s.push((id, p))
    }
}

/// `s` without the entry carrying `id`, the others in their order.
pub open spec fn removed<P>(s: Seq<(Seq<char>, P)>, id: Seq<char>) -> Seq<(Seq<char>, P)> {
    if has_id(s, id) {
        s.remove(position_of(s, id))
    } else {
        s
    }
}

pub proof fn lemma_position_of<P>(s: Seq<(Seq<char>, P)>, id: Seq<char>)
    ensures
        -1 <= position_of(s, id) < s.len(),
        position_of(s, id) >= 0 <==> has_id(s, id),
        position_of(s, id) >= 0 ==> s[position_of(s, id)].0 == id,
        ids_distinct(s) ==> forall|i: int| 0 <= i < s.len() && s[i].0 == id ==> i == position_of(s, id),
    decreases s.len(),
{
    if s.len() > 0 {
        lemma_position_of(s.drop_last(), id);
        if s.last().0 != id {
            if has_id(s, id) {
                let i = choose|i: int| 0 <= i < s.len() && #[trigger] s[i].0 == id;
                assert(s.drop_last()[i].0 == id);
            }
            if has_id(s.drop_last(), id) {
                let i = choose|i: int| 0 <= i < s.drop_last().len() && #[trigger] s.drop_last()[i].0 == id;
                assert(s[i].0 == id);
            }
        }
        if ids_distinct(s) {
            assert(ids_distinct(s.drop_last())) by {
                assert forall|i: int, j: int| 0 <= i < j < s.drop_last().len() implies
                    #[trigger] s.drop_last()[i].0 != #[trigger] s.drop_last()[j].0 by {
                    assert(s[i].0 != s[j].0);
                }
            }
        }
    }
}

/// Players keyed by their ids, in the order they joined.
#[derive(Debug)]
pub struct PlayerMap<P> {
    entries: Vec<(String, P)>,
}

impl<P> View for PlayerMap<P> {
    type V = Seq<(Seq<char>, P)>;

    closed spec fn view(&self) -> Seq<(Seq<char>, P)> {
        self.entries@.map_values(|e: (String, P)| (e.0@, e.1))
    }
}

impl<P> PlayerMap<P> {
    /// Ids are unique within the map.
    pub open spec fn wf(&self) -> bool {
        ids_distinct(self@)
    }

    pub fn new() -> (r: Self)
        ensures
            r@ == Seq::<(Seq<char>, P)>::empty(),
            r.wf(),
    {
        let r = Self { entries: Vec::new() };
        assert(r@ =~= Seq::<(Seq<char>, P)>::empty());
        r
    }

    /// The position of `id` in the map, if it is there.
    fn find(&self, id: &str) -> (r: Option<usize>)
        requires
            self.wf(),
        ensures
            r is None ==> !has_id(self@, id@),
            r matches Some(i) ==> i == position_of(self@, id@) && i < self@.len(),
    {
        proof {
            lemma_position_of(self@, id@);
        }
        let mut i: usize = 0;
        while i < self.entries.len()
            invariant
                i <= self.entries@.len(),
                self.wf(),
                forall|k: int| 0 <= k < i ==> #[trigger] self@[k].0 != id@,
                -1 <= position_of(self@, id@) < self@.len(),
                position_of(self@, id@) >= 0 <==> has_id(self@, id@),
                forall|k: int| 0 <= k < self@.len() && self@[k].0 == id@ ==> k == position_of(self@, id@),
            decreases self.entries@.len() - i,
        {
            assert(self@[i as int].0 == self.entries@[i as int].0@);
            if str_eq(self.entries[i].0.as_str(), id) {
                return Some(i);
            }
            i += 1;
        }
        None
    }

    pub fn contains(&self, id: &str) -> (r: bool)
        requires
            self.wf(),
        ensures
            r == has_id(self@, id@),
    {
        proof {
            lemma_position_of(self@, id@);
        }
        self.find(id).is_some()
    }

    pub fn get(&self, id: &str) -> (r: Option<&P>)
        requires
            self.wf(),
        ensures
            r == match lookup(self@, id@) {
                Some(p) => Some(&p),
                None => None::<&P>,
            },
    {
        proof {
            lemma_position_of(self@, id@);
        }
        match self.find(id) {
            Some(i) => {
                assert(self@[i as int].1 == self.entries@[i as int].1);
                Some(&self.entries[i].1)
            },
            None => None,
        }
    }

    pub fn get_mut(&mut self, id: &str) -> (r: Option<&mut P>)
        requires
            old(self).wf(),
        ensures
            r is None ==> !has_id(old(self)@, id@) && final(self)@ == old(self)@,
            r matches Some(p) ==> {
                let i = position_of(old(self)@, id@);
                &&& 0 <= i < old(self)@.len()
                &&& *p == old(self)@[i].1
                &&& final(self)@ == old(self)@.update(i, (id@, *final(p)))
            },
    {
        proof {
            lemma_position_of(self@, id@);
        }
        match self.find(id) {
            Some(i) => {
                let entry = &mut self.entries[i];
                Some(&mut entry.1)
            },
            None => None,
        }
    }

    /// Registers `player` under `id`. A player already registered under `id`
    /// is replaced and handed back; otherwise the player joins at the end.
    pub fn add(&mut self, id: String, player: P) -> (r: Option<P>)
        requires
            old(self).wf(),
        ensures
            final(self).wf(),
            final(self)@ == added(old(self)@, id@, player),
            r == lookup(old(self)@, id@),
    {
        proof {
            lemma_position_of(self@, id@);
        }
        match self.find(id.as_str()) {
            Some(i) => {
                let mut replaced = player;
                let ghost before = self@;
                std::mem::swap(&mut self.entries[i].1, &mut replaced);
                assert(self@ =~= before.update(i as int, (id@, player)));
                Some(replaced)
            },
            None => {
                let ghost before = self@;
                self.entries.push((id, player));
                assert(self@ =~= before.push((id@, player)));
                None
            },
        }
    }

    /// Takes the player registered under `id` out of the map, if there is one;
    /// the others keep their order.
    pub fn remove(&mut self, id: &str) -> (r: Option<P>)
        requires
            old(self).wf(),
        ensures
            final(self).wf(),
            final(self)@ == removed(old(self)@, id@),
            r == lookup(old(self)@, id@),
    {
        proof {
            lemma_position_of(self@, id@);
        }
        match self.find(id) {
            Some(i) => {
                let ghost before = self@;
                let (_, player) = self.entries.remove(i);
                assert(self@ =~= before.remove(i as int));
                Some(player)
            },
            None => None,
        }
    }

    /// The players, in map order.
    pub fn values(&self) -> (r: Vec<&P>)
        ensures
            r@.len() == self@.len(),
            forall|i: int| 0 <= i < self@.len() ==> *#[trigger] r@[i] == self@[i].1,
    {
        let mut r: Vec<&P> = Vec::new();
        let mut i: usize = 0;
        while i < self.entries.len()
            invariant
                i <= self.entries@.len(),
                r@.len() == i,
                forall|k: int| 0 <= k < i ==> *#[trigger] r@[k] == self@[k].1,
            decreases self.entries@.len() - i,
        {
            r.push(&self.entries[i].1);
            i += 1;
        }
        r
    }

    /// The ids, in map order.
    pub fn ids(&self) -> (r: Vec<String>)
        ensures
            r@.len() == self@.len(),
            forall|i: int| 0 <= i < self@.len() ==> #[trigger] r@[i]@ == self@[i].0,
    {
        let mut r: Vec<String> = Vec::new();
        let mut i: usize = 0;
        while i < self.entries.len()
            invariant
                i <= self.entries@.len(),
                r@.len() == i,
                forall|k: int| 0 <= k < i ==> #[trigger] r@[k]@ == self@[k].0,
            decreases self.entries@.len() - i,
        {
            r.push(self.entries[i].0.clone());
            i += 1;
        }
        r
    }

    pub fn len(&self) -> (r: usize)
        ensures
            r == self@.len(),
    {
        self.entries.len()
    }

    pub fn is_empty(&self) -> (r: bool)
        ensures
            r == (self@.len() == 0),
    {
        self.entries.len() == 0
    }
}

/// Registering a player under an id keeps ids unique; afterwards the id
/// finds that player, and every other id finds what it found before.
pub proof fn law_add_then_lookup<P>(s: Seq<(Seq<char>, P)>, id: Seq<char>, p: P, other: Seq<char>)
    requires
        ids_distinct(s),
    ensures
        ids_distinct(added(s, id, p)),
        lookup(added(s, id, p), id) == Some(p),
        other != id ==> lookup(added(s, id, p), other) == lookup(s, other),
{
    let t = added(s, id, p);
    lemma_position_of(s, id);
    lemma_position_of(s, other);
    if has_id(s, id) {
        let i = position_of(s, id);
        assert forall|a: int, b: int| 0 <= a < b < t.len() implies #[trigger] t[a].0
            != #[trigger] t[b].0 by {
            assert(t[a].0 == s[a].0);
            assert(t[b].0 == s[b].0);
        }
    } else {
        assert forall|a: int, b: int| 0 <= a < b < t.len() implies #[trigger] t[a].0
            != #[trigger] t[b].0 by {
            if b == s.len() {
                assert(s[a].0 == t[a].0);
            } else {
                assert(s[a].0 != s[b].0);
            }
        }
    }
    lemma_position_of(t, id);
    lemma_position_of(t, other);
    let j = if has_id(s, id) {
        position_of(s, id)
    } else {
        s.len() as int
    };
    assert(t[j].0 == id);
    if other != id {
        if has_id(s, other) {
            let k = position_of(s, other);
            assert(t[k] == s[k]);
        }
        if has_id(t, other) {
            let k = position_of(t, other);
            assert(k != j);
            assert(t[k] == s[k]);
        }
    }
}

/// Taking the player under an id out keeps ids unique; afterwards the id
/// finds nothing, and every other id finds what it found before.
pub proof fn law_remove_then_lookup<P>(s: Seq<(Seq<char>, P)>, id: Seq<char>, other: Seq<char>)
    requires
        ids_distinct(s),
    ensures
        ids_distinct(removed(s, id)),
        lookup(removed(s, id), id) is None,
        other != id ==> lookup(removed(s, id), other) == lookup(s, other),
{
    let t = removed(s, id);
    lemma_position_of(s, id);
    lemma_position_of(s, other);
    if has_id(s, id) {
        let i = position_of(s, id);
        assert forall|a: int, b: int| 0 <= a < b < t.len() implies #[trigger] t[a].0
            != #[trigger] t[b].0 by {
            let a2 = if a < i { a } else { a + 1 };
            let b2 = if b < i { b } else { b + 1 };
            assert(t[a] == s[a2]);
            assert(t[b] == s[b2]);
            assert(s[a2].0 != s[b2].0);
        }
        lemma_position_of(t, id);
        lemma_position_of(t, other);
        if has_id(t, id) {
            let k = position_of(t, id);
            let k2 = if k < i { k } else { k + 1 };
            assert(t[k] == s[k2]);
        }
        if other != id {
            if has_id(s, other) {
                let k = position_of(s, other);
                assert(k != i);
                let k1 = if k < i { k } else { k - 1 };
                assert(t[k1] == s[k]);
            }
            if has_id(t, other) {
                let k = position_of(t, other);
                let k2 = if k < i { k } else { k + 1 };
                assert(t[k] == s[k2]);
            }
        }
    } else {
        lemma_position_of(t, id);
    }
}

/// Registering a new id and taking it out again gives back the map as it was.
pub proof fn law_add_then_remove<P>(s: Seq<(Seq<char>, P)>, id: Seq<char>, p: P)
    requires
        ids_distinct(s),
        !has_id(s, id),
    ensures
        removed(added(s, id, p), id) == s,
{
    let t = added(s, id, p);
    lemma_position_of(t, id);
    assert(t[s.len() as int].0 == id);
    assert(t.remove(s.len() as int) =~= s);
}

/// Reading a collection of players: what a game is given.
pub trait ReadPlayerCollection<P: Player> {
    /// The players, by id.
    spec fn entries(&self) -> Seq<(Seq<char>, P)>;

    /// Ids are unique.
    spec fn inv(&self) -> bool;

    fn contains(&self, id: &str) -> (r: bool)
        requires
            self.inv(),
        ensures
            r == has_id(self.entries(), id@),
    ;

    fn get(&self, id: &str) -> (r: Option<&P>)
        requires
            self.inv(),
        ensures
            r == match lookup(self.entries(), id@) {
                Some(p) => Some(&p),
                None => None::<&P>,
            },
    ;

    fn get_mut(&mut self, id: &str) -> (r: Option<&mut P>)
        requires
            old(self).inv(),
        ensures
            r is None ==> !has_id(old(self).entries(), id@) && final(self).entries() == old(
                self,
            ).entries(),
            r matches Some(p) ==> {
                let i = position_of(old(self).entries(), id@);
                &&& 0 <= i < old(self).entries().len()
                &&& *p == old(self).entries()[i].1
                &&& final(self).entries() == old(self).entries().update(i, (id@, *final(p)))
            },
    ;

    fn len(&self) -> (r: usize)
        ensures
            r == self.entries().len(),
    ;

    fn is_empty(&self) -> (r: bool)
        ensures
            r == (self.entries().len() == 0),
    ;

    /// The players, in the collection's order.
    fn iter(&self) -> (r: Vec<&P>)
        ensures
            r@.len() == self.entries().len(),
            forall|i: int| 0 <= i < self.entries().len() ==> *#[trigger] r@[i] == self.entries()[i].1,
    ;
}

/// Adding players to and removing them from a collection: what a lobby does.
pub trait WritePlayerCollection<P: Player> {
    spec fn entries(&self) -> Seq<(Seq<char>, P)>;

    spec fn inv(&self) -> bool;

    fn add(&mut self, id: String, player: P) -> (r: Option<P>)
        requires
            old(self).inv(),
        ensures
            final(self).inv(),
            final(self).entries() == added(old(self).entries(), id@, player),
            r == lookup(old(self).entries(), id@),
    ;

    fn remove(&mut self, id: &str) -> (r: Option<P>)
        requires
            old(self).inv(),
        ensures
            final(self).inv(),
            final(self).entries() == removed(old(self).entries(), id@),
            r == lookup(old(self).entries(), id@),
    ;
}

impl<P: Player> ReadPlayerCollection<P> for PlayerMap<P> {
    closed spec fn entries(&self) -> Seq<(Seq<char>, P)> {
        self@
    }

    closed spec fn inv(&self) -> bool {
        self.wf()
    }

    fn contains(&self, id: &str) -> (r: bool) {
        PlayerMap::contains(self, id)
    }

    fn get(&self, id: &str) -> (r: Option<&P>) {
        PlayerMap::get(self, id)
    }

    fn get_mut(&mut self, id: &str) -> (r: Option<&mut P>) {
        PlayerMap::get_mut(self, id)
    }

    fn len(&self) -> (r: usize) {
        PlayerMap::len(self)
    }

    fn is_empty(&self) -> (r: bool) {
        PlayerMap::is_empty(self)
    }

    fn iter(&self) -> (r: Vec<&P>) {
        self.values()
    }
}

impl<P: Player> WritePlayerCollection<P> for PlayerMap<P> {
    closed spec fn entries(&self) -> Seq<(Seq<char>, P)> {
        self@
    }

    closed spec fn inv(&self) -> bool {
        self.wf()
    }

    fn add(&mut self, id: String, player: P) -> (r: Option<P>) {
        PlayerMap::add(self, id, player)
    }

    fn remove(&mut self, id: &str) -> (r: Option<P>) {
        PlayerMap::remove(self, id)
    }
}

} // verus!
