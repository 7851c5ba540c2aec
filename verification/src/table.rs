//! The texture table: which GPU texture backs which texture identifier.

use std::collections::HashMap;
use vstd::prelude::*;
use vstd::std_specs::hash::*;
use vstd::std_specs::iter::IteratorSpec;
use crate::texture::TextureId;

verus! {

/// Maps texture identifiers to texture objects, at most one for each
/// identifier.
///
/// Its view is the map itself. The two kinds of identifier are kept apart,
/// each under its number.
pub struct TextureTable {
    managed: HashMap<u64, glow::Texture>,
    user: HashMap<u64, glow::Texture>,
}

impl View for TextureTable {
    type V = Map<TextureId, glow::Texture>;

    closed spec fn view(&self) -> Map<TextureId, glow::Texture> {
        Map::new(
            |id: TextureId|
                match id {
                    TextureId::Managed(n) => self.managed@.contains_key(n),
                    TextureId::User(n) => self.user@.contains_key(n),
                },
            |id: TextureId|
                match id {
                    TextureId::Managed(n) => self.managed@[n],
                    TextureId::User(n) => self.user@[n],
                },
        )
    }
}

/// `order` names every member of `ids` once and nothing else.
pub open spec fn enumerates(order: Seq<TextureId>, ids: Set<TextureId>) -> bool {
    &&& order.no_duplicates()
    &&& forall|id: TextureId| order.contains(id) <==> ids.contains(id)
}

impl TextureTable {
    pub fn new() -> (table: TextureTable)
        ensures
            table@ == Map::<TextureId, glow::Texture>::empty(),
    {
        let table = TextureTable { managed: HashMap::new(), user: HashMap::new() };
        assert(table@ =~= Map::<TextureId, glow::Texture>::empty());
        table
    }

    /// The texture object that backs `id`, if there is one.
    pub fn get(&self, id: TextureId) -> (texture: Option<glow::Texture>)
        ensures
            texture == self@.get(id),
    {
        broadcast use group_hash_axioms;

        let found = match id {
            TextureId::Managed(n) => self.managed.get(&n),
            TextureId::User(n) => self.user.get(&n),
        };
        match found {
            Some(texture) => Some(*texture),
            None => None,
        }
    }

    /// Lets `texture` back `id`, and returns what backed it before.
    pub fn insert(&mut self, id: TextureId, texture: glow::Texture) -> (displaced: Option<
        glow::Texture,
    >)
        ensures
            final(self)@ == old(self)@.insert(id, texture),
            displaced == old(self)@.get(id),
    {
        broadcast use group_hash_axioms;

        let displaced = match id {
            TextureId::Managed(n) => self.managed.insert(n, texture),
            TextureId::User(n) => self.user.insert(n, texture),
        };
        assert(self@ =~= old(self)@.insert(id, texture));
        displaced
    }

    /// Forgets `id`, and returns what backed it.
    pub fn remove(&mut self, id: TextureId) -> (removed: Option<glow::Texture>)
        ensures
            final(self)@ == old(self)@.remove(id),
            removed == old(self)@.get(id),
    {
        broadcast use group_hash_axioms;

        let removed = match id {
            TextureId::Managed(n) => self.managed.remove(&n),
            TextureId::User(n) => self.user.remove(&n),
        };
        assert(self@ =~= old(self)@.remove(id));
        removed
    }

    /// Every identifier of the table, once each, in no particular order.
    pub fn ids(&self) -> (ids: Vec<TextureId>)
        ensures
            enumerates(ids@, self@.dom()),
    {
        broadcast use group_hash_axioms;

        let mut ids: Vec<TextureId> = Vec::new();
        for n in keys: self.managed.keys()
            invariant
                keys.seq() == spec_keys_iter(&self.managed).remaining(),
                ids@.len() == keys.index(),
                forall|j: int| 0 <= j < ids@.len() ==> ids@[j] == TextureId::Managed(*keys.seq()[j]),
        {
            ids.push(TextureId::Managed(*n));
        }
        let ghost managed_keys = spec_keys_iter(&self.managed).remaining();
        let ghost split = ids@.len() as int;
        for n in keys: self.user.keys()
            invariant
                keys.seq() == spec_keys_iter(&self.user).remaining(),
                managed_keys == spec_keys_iter(&self.managed).remaining(),
                split == managed_keys.len(),
                ids@.len() == split + keys.index(),
                forall|j: int| 0 <= j < split ==> ids@[j] == TextureId::Managed(*managed_keys[j]),
                forall|j: int| split <= j < ids@.len() ==> ids@[j] == TextureId::User(*keys.seq()[j - split]),
        {
            ids.push(TextureId::User(*n));
        }
        proof {
            let user_keys = spec_keys_iter(&self.user).remaining();
            assert(managed_keys.unref().to_set() == self.managed@.dom());
            assert(user_keys.unref().to_set() == self.user@.dom());
            assert forall|id: TextureId| ids@.contains(id) <==> self@.dom().contains(id) by {
                if ids@.contains(id) {
                    let j = choose|j: int| 0 <= j < ids@.len() && ids@[j] == id;
                    if j < split {
                        assert(managed_keys.unref()[j] == *managed_keys[j]);
                        assert(managed_keys.unref().to_set().contains(*managed_keys[j]));
                    } else {
                        assert(user_keys.unref()[j - split] == *user_keys[j - split]);
                        assert(user_keys.unref().to_set().contains(*user_keys[j - split]));
                    }
                }
                if self@.dom().contains(id) {
                    match id {
                        TextureId::Managed(n) => {
                            assert(managed_keys.unref().to_set().contains(n));
                            let j = choose|j: int| 0 <= j < managed_keys.len() && managed_keys.unref()[j] == n;
                            assert(ids@[j] == id);
                        },
                        TextureId::User(n) => {
                            assert(user_keys.unref().to_set().contains(n));
                            let j = choose|j: int| 0 <= j < user_keys.len() && user_keys.unref()[j] == n;
                            assert(ids@[split + j] == id);
                        },
                    }
                }
            }
            assert forall|i: int, j: int| 0 <= i < ids@.len() && 0 <= j < ids@.len() && i != j implies ids@[i] != ids@[j] by {
                if i < split && j < split {
                    assert(managed_keys[i] != managed_keys[j]);
                } else if i >= split && j >= split {
                    assert(user_keys[i - split] != user_keys[j - split]);
                }
            }
        }
        ids
    }

    /// The table holds finitely many textures.
    pub proof fn lemma_finite(&self)
        ensures
            self@.dom().finite(),
    {
        broadcast use group_hash_axioms;
        let managed = self.managed@.dom().map(|n: u64| TextureId::Managed(n));
        let user = self.user@.dom().map(|n: u64| TextureId::User(n));
        self.managed@.dom().lemma_map_finite(|n: u64| TextureId::Managed(n));
        self.user@.dom().lemma_map_finite(|n: u64| TextureId::User(n));
        assert(self@.dom() =~= managed.union(user)) by {
            assert forall|id: TextureId| self@.dom().contains(id) implies managed.union(user).contains(id) by {
                match id {
                    TextureId::Managed(n) => {
                        assert(self.managed@.dom().contains(n));
                    },
                    TextureId::User(n) => {
                        assert(self.user@.dom().contains(n));
                    },
                }
            }
        }
    }
}

} // verus!
