use vstd::prelude::*;

verus! {

/// The map that a list of bindings stands for: a later binding of a key
/// overrides an earlier one.
pub open spec fn bindings_map(entries: Seq<(i32, u32)>) -> Map<i32, u32>
    decreases entries.len(),
{
    if entries.len() == 0 {
        Map::empty()
    } else {
        bindings_map(entries.drop_last()).insert(entries.last().0, entries.last().1)
    }
}

/// What `m` binds `key` to, if anything.
pub open spec fn lookup(m: Map<i32, u32>, key: i32) -> Option<u32> {
    if m.dom().contains(key) {
        Some(m[key])
    } else {
        None
    }
}

/// Dropping every binding of `key` from a list drops `key` from its map.
pub proof fn lemma_without_key(entries: Seq<(i32, u32)>, key: i32)
    ensures
        bindings_map(entries.filter(|e: (i32, u32)| e.0 != key)) == bindings_map(entries).remove(key),
    decreases entries.len(),
{
    let f = |e: (i32, u32)| e.0 != key;
    if entries.len() == 0 {
        assert(entries.filter(f) =~= Seq::<(i32, u32)>::empty());
        assert(bindings_map(entries).remove(key) =~= Map::<i32, u32>::empty());
    } else {
        lemma_without_key(entries.drop_last(), key);
        reveal(Seq::filter);
        if entries.last().0 == key {
            assert(entries.filter(f) == entries.drop_last().filter(f));
            assert(bindings_map(entries).remove(key) =~= bindings_map(entries.drop_last()).remove(
                key,
            ));
        } else {
            let rest = entries.drop_last().filter(f);
            assert(entries.filter(f) == rest.push(entries.last()));
            assert(rest.push(entries.last()).drop_last() =~= rest);
            assert(bindings_map(entries).remove(key) =~= bindings_map(
                entries.drop_last(),
            ).remove(key).insert(entries.last().0, entries.last().1));
        }
    }
}

/// A table from key codes to the commands of a component.
pub struct KeyBindings {
    entries: Vec<(i32, u32)>,
}

impl View for KeyBindings {
    type V = Map<i32, u32>;

    closed spec fn view(&self) -> Map<i32, u32> {
        bindings_map(self.entries@)
    }
}

impl KeyBindings {
    /// A table binding no key.
    pub fn new() -> (r: KeyBindings)
        ensures
            r@ == Map::<i32, u32>::empty(),
    {
        KeyBindings { entries: Vec::new() }
    }

    /// Binds `key` to `command`, replacing any earlier binding of it.
    pub fn insert(&mut self, key: i32, command: u32)
        ensures
            final(self)@ == old(self)@.insert(key, command),
    {
        self.entries.push((key, command));
        assert(self.entries@.drop_last() =~= old(self).entries@);
    }

    /// Drops the binding of `key`, if any.
    pub fn remove(&mut self, key: i32)
        ensures
            final(self)@ == old(self)@.remove(key),
    {
        let ghost f = |e: (i32, u32)| e.0 != key;
        let mut kept: Vec<(i32, u32)> = Vec::new();
        let mut i: usize = 0;
        proof {
            reveal(Seq::filter);
            assert(self.entries@.take(0) =~= Seq::<(i32, u32)>::empty());
            assert(kept@ =~= self.entries@.take(0).filter(f));
        }
        while i < self.entries.len()
            invariant
                i <= self.entries@.len(),
                f == (|e: (i32, u32)| e.0 != key),
                kept@ == self.entries@.take(i as int).filter(f),
            decreases self.entries.len() - i,
        {
            let e = self.entries[i];
            proof {
                reveal(Seq::filter);
                assert(self.entries@.take(i + 1).drop_last() =~= self.entries@.take(i as int));
                assert(self.entries@.take(i + 1).last() == e);
                assert(f(e) == (e.0 != key));
            }
            if e.0 != key {
                kept.push(e);
            }
            i = i + 1;
        }
        proof {
            assert(self.entries@.take(self.entries@.len() as int) =~= self.entries@);
            lemma_without_key(self.entries@, key);
        }
        self.entries = kept;
    }

    /// The command bound to `key`, if any.
    pub fn get(&self, key: i32) -> (r: Option<u32>)
        ensures
            r == lookup(self@, key),
    {
        let mut i: usize = self.entries.len();
        assert(self.entries@.take(i as int) =~= self.entries@);
        while i > 0
            invariant
                i <= self.entries@.len(),
                lookup(self@, key) == lookup(bindings_map(self.entries@.take(i as int)), key),
            decreases i,
        {
            let e = self.entries[i - 1];
            assert(self.entries@.take(i as int).drop_last() =~= self.entries@.take(i - 1));
            if e.0 == key {
                return Some(e.1);
            }
            i = i - 1;
        }
        assert(self.entries@.take(0) =~= Seq::<(i32, u32)>::empty());
        None
    }

    /// Whether `key` is bound.
    pub fn contains(&self, key: i32) -> (r: bool)
        ensures
            r == self@.dom().contains(key),
    {
        self.get(key).is_some()
    }
}

} // verus!
