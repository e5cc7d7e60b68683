//! The editors a plugin has created, each under an id of its own.
//!
//! The plugin keeps every editor it hands out alive in this registry until it
//! is unloaded. Ids come from a counter and are never given out twice, also
//! not after an unload.

use vstd::prelude::*;
use std::collections::HashMap;

verus! {

/// The registry as a map from ids to editors, and the next id to hand out.
pub struct RegistryModel<T> {
    pub editors: Map<usize, T>,
    pub next_id: nat,
}

/// The registry holds finitely many editors, and every id in use is below
/// the next id to hand out.
pub open spec fn registry_wf<T>(m: RegistryModel<T>) -> bool {
    &&& m.editors.dom().finite()
    &&& forall|k: usize| #[trigger] m.editors.contains_key(k) ==> k < m.next_id
}

/// Registering gives the editor the next id and stores it under that id.
pub open spec fn after_register<T>(m: RegistryModel<T>, item: T) -> (RegistryModel<T>, nat) {
    (
        RegistryModel { editors: m.editors.insert(m.next_id as usize, item), next_id: m.next_id + 1 },
        m.next_id,
    )
}

/// Unloading drops every editor, reports how many there were, and keeps the counter.
pub open spec fn after_unload<T>(m: RegistryModel<T>) -> (RegistryModel<T>, nat) {
    (RegistryModel { editors: Map::empty(), next_id: m.next_id }, m.editors.len())
}

/// The editors created by the plugin, by id.
pub struct EditorRegistry<T> {
    editors: HashMap<usize, T>,
    next_editor_id: usize,
}

impl<T> View for EditorRegistry<T> {
    type V = RegistryModel<T>;

    closed spec fn view(&self) -> RegistryModel<T> {
        RegistryModel { editors: self.editors@, next_id: self.next_editor_id as nat }
    }
}

impl<T> EditorRegistry<T> {
    #[verifier::type_invariant]
    spec fn ids_below_counter(&self) -> bool {
        forall|k: usize| #[trigger] self.editors@.contains_key(k) ==> k < self.next_editor_id
    }

    /// An empty registry whose first id is 0.
    pub fn new() -> (r: Self)
        ensures
            registry_wf(r@),
            r@.editors == Map::<usize, T>::empty(),
            r@.next_id == 0,
    {
        EditorRegistry { editors: HashMap::new(), next_editor_id: 0 }
    }

    /// The id the next registered editor will get.
    pub fn next_id(&self) -> (n: usize)
        ensures
            n == self@.next_id,
            registry_wf(self@),
    {
        proof {
            use_type_invariant(self);
        }
        self.next_editor_id
    }

    /// The number of editors held.
    pub fn len(&self) -> (n: usize)
        ensures
            n == self@.editors.len(),
            registry_wf(self@),
    {
        proof {
            use_type_invariant(self);
        }
        self.editors.len()
    }

    /// Whether an editor is held under `id`.
    pub fn contains(&self, id: usize) -> (b: bool)
        ensures
            b == self@.editors.contains_key(id),
    {
        self.editors.contains_key(&id)
    }

    /// Stores an editor under a fresh id and returns the id.
    pub fn register(&mut self, item: T) -> (id: usize)
        requires
            old(self)@.next_id < usize::MAX,
        ensures
            registry_wf(old(self)@),
            registry_wf(final(self)@),
            (final(self)@, id as nat) == after_register(old(self)@, item),
            !old(self)@.editors.contains_key(id),
            final(self)@.editors.len() == old(self)@.editors.len() + 1,
    {
        proof {
            use_type_invariant(&*self);
        }
        let id = self.next_editor_id;
        self.next_editor_id = id + 1;
        let mut editors: HashMap<usize, T> = HashMap::new();
        std::mem::swap(&mut editors, &mut self.editors);
        editors.insert(id, item);
        self.editors = editors;
        assert(self@.editors == old(self)@.editors.insert(id, item));
        id
    }

    /// Drops every editor and returns how many there were.
    pub fn unload_all(&mut self) -> (count: usize)
        ensures
            registry_wf(final(self)@),
            (final(self)@, count as nat) == after_unload(old(self)@),
    {
        let count = self.editors.len();
        self.editors = HashMap::new();
        count
    }
}

/// Ids are never reused: an editor registered after others, even after an
/// unload in between, gets an id that none of them got and that no held
/// editor has. Each registration holds one editor more than before.
pub proof fn law_ids_never_reused<T>(m: RegistryModel<T>, a: T, b: T)
    requires
        registry_wf(m),
        m.next_id + 1 < usize::MAX,
    ensures
        ({
            let (m1, id_a) = after_register(m, a);
            let (m2, _) = after_unload(m1);
            let (m3, id_b) = after_register(m2, b);
            &&& id_a != id_b
            &&& !m.editors.contains_key(id_a as usize)
            &&& registry_wf(m1)
            &&& registry_wf(m2)
            &&& registry_wf(m3)
            &&& m1.editors.len() == m.editors.len() + 1
            &&& m2.editors.len() == 0
            &&& m3.editors.len() == 1
        }),
{
    let (m1, id_a) = after_register(m, a);
    assert(registry_wf(m1)) by {
        assert forall|k: usize| #[trigger] m1.editors.contains_key(k) implies k < m1.next_id by {
            if k != m.next_id as usize {
                assert(m.editors.contains_key(k));
            }
        }
    }
}

} // verus!
