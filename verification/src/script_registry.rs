//! The registry of persistent scripts: an ordered store keyed by script id.

use crate::text::same_text;
use vstd::prelude::*;

verus! {

/// How the content of a script is to be read.
#[derive(Clone, Copy, Debug, PartialEq, Eq, Structural)]
pub enum ScriptType {
    /// The content is the script's source text.
    Inline,
    /// The content is the address the script is loaded from.
    Url,
}

/// One registered script.
#[derive(Clone, Debug, PartialEq, Eq)]
pub struct ScriptEntry {
    /// The key under which the script is registered.
    pub id: String,
    pub script_type: ScriptType,
    pub content: String,
}

/// The content of a [`ScriptEntry`].
pub struct EntryModel {
    pub id: Seq<char>,
    pub script_type: ScriptType,
    pub content: Seq<char>,
}

impl View for ScriptEntry {
    type V = EntryModel;

    open spec fn view(&self) -> EntryModel {
        EntryModel { id: self.id@, script_type: self.script_type, content: self.content@ }
    }
}

impl ScriptEntry {
    /// A copy of the entry.
    pub fn duplicate(&self) -> (r: ScriptEntry)
        ensures
            r@ == self@,
    {
        ScriptEntry {
            id: self.id.clone(),
            script_type: self.script_type,
            content: self.content.clone(),
        }
    }
}

/// The ids of a sequence of entries, one for one.
pub open spec fn entry_ids(entries: Seq<EntryModel>) -> Seq<Seq<char>> {
    Seq::new(entries.len(), |i: int| entries[i].id)
}

/// The entries after `entry` was registered: it takes the place of the
/// entry with its id where there is one, and comes last where there is not.
pub open spec fn registered(entries: Seq<EntryModel>, entry: EntryModel) -> Seq<EntryModel> {
    match entry_ids(entries).index_of_first(entry.id) {
        Some(i) => entries.update(i, entry),
        None => entries.push(entry),
    }
}

/// The entries after the entry with `id` was removed; the same entries
/// where none has that id.
pub open spec fn unregistered(entries: Seq<EntryModel>, id: Seq<char>) -> Seq<EntryModel> {
    match entry_ids(entries).index_of_first(id) {
        Some(i) => entries.remove(i),
        None => entries,
    }
}

/// The entry with `id`, where there is one.
pub open spec fn lookup(entries: Seq<EntryModel>, id: Seq<char>) -> Option<EntryModel> {
    match entry_ids(entries).index_of_first(id) {
        Some(i) => Some(entries[i]),
        None => None,
    }
}

/// The views of a vector of entries, one for one.
pub open spec fn entry_models(entries: Seq<ScriptEntry>) -> Seq<EntryModel> {
    Seq::new(entries.len(), |i: int| entries[i]@)
}

/// The scripts that persist across page loads, in the order in which their
/// ids were first registered. No two entries share an id.
pub struct ScriptRegistry {
    entries: Vec<ScriptEntry>,
}

impl View for ScriptRegistry {
    type V = Seq<EntryModel>;

    closed spec fn view(&self) -> Seq<EntryModel> {
        entry_models(self.entries@)
    }
}

/// Index of the first of `entries` that has the id `id`.
fn position(entries: &Vec<ScriptEntry>, id: &str) -> (r: Option<usize>)
    ensures
        match r {
            Some(i) => i < entries.len() && entry_ids(entry_models(entries@)).index_of_first(id@)
                == Some(i as int),
            None => entry_ids(entry_models(entries@)).index_of_first(id@) is None,
        },
{
    let ghost ids = entry_ids(entry_models(entries@));
    let mut i: usize = 0;
    while i < entries.len()
        invariant
            i <= entries.len(),
            ids == entry_ids(entry_models(entries@)),
            ids.len() == entries.len(),
            forall|j: int| 0 <= j < i ==> ids[j] != id@,
        decreases entries.len() - i,
    {
        if same_text(entries[i].id.as_str(), id) {
            proof {
                ids.index_of_first_ensures(id@);
                assert(ids[i as int] == id@);
            }
            return Some(i);
        }
        i += 1;
    }
    proof {
        ids.index_of_first_ensures(id@);
    }
    None
}

impl ScriptRegistry {
    /// No two entries share an id.
    #[verifier::type_invariant]
    spec fn unique_ids(self) -> bool {
        entry_ids(entry_models(self.entries@)).no_duplicates()
    }

    /// A registry without entries.
    pub fn new() -> (r: ScriptRegistry)
        ensures
            r@ == Seq::<EntryModel>::empty(),
    {
        let r = ScriptRegistry { entries: Vec::new() };
        r
    }

    /// Number of registered scripts.
    pub fn len(&self) -> (r: usize)
        ensures
            r == self@.len(),
    {
        self.entries.len()
    }

    /// Whether no script is registered.
    pub fn is_empty(&self) -> (r: bool)
        ensures
            r == (self@.len() == 0),
    {
        self.entries.len() == 0
    }

    /// Registers `entry` under its id, in place of an entry with the same
    /// id where there is one. Ids stay unique.
    pub fn add(&mut self, entry: ScriptEntry)
        ensures
            final(self)@ == registered(old(self)@, entry@),
            entry_ids(old(self)@).no_duplicates(),
            entry_ids(final(self)@).no_duplicates(),
    {
        let ghost before = self@;
        let ghost e = entry@;
        proof {
            use_type_invariant(&*self);
            lemma_registry_keeps_ids_unique(before, e);
        }
        let mut entries: Vec<ScriptEntry> = Vec::new();
        core::mem::swap(&mut self.entries, &mut entries);
        match position(&entries, entry.id.as_str()) {
            Some(i) => {
                entries.set(i, entry);
                assert(entry_models(entries@) =~= before.update(i as int, e));
            },
            None => {
                entries.push(entry);
                assert(entry_models(entries@) =~= before.push(e));
            },
        }
        core::mem::swap(&mut self.entries, &mut entries);
    }

    /// Removes the entry with `id` and hands it out; `None` where no entry
    /// has that id. Ids stay unique.
    pub fn remove(&mut self, id: &str) -> (r: Option<ScriptEntry>)
        ensures
            final(self)@ == unregistered(old(self)@, id@),
            r.is_some() == lookup(old(self)@, id@).is_some(),
            r matches Some(e) ==> lookup(old(self)@, id@) == Some(e@),
            entry_ids(old(self)@).no_duplicates(),
            entry_ids(final(self)@).no_duplicates(),
    {
        let ghost before = self@;
        proof {
            use_type_invariant(&*self);
            lemma_registry_keeps_ids_unique(
                before,
                EntryModel { id: id@, script_type: ScriptType::Inline, content: Seq::empty() },
            );
        }
        let mut entries: Vec<ScriptEntry> = Vec::new();
        core::mem::swap(&mut self.entries, &mut entries);
        let removed = match position(&entries, id) {
            Some(i) => {
                let e = entries.remove(i);
                assert(entry_models(entries@) =~= before.remove(i as int));
                Some(e)
            },
            None => None,
        };
        core::mem::swap(&mut self.entries, &mut entries);
        removed
    }

    /// Removes every entry.
    pub fn clear(&mut self)
        ensures
            final(self)@ == Seq::<EntryModel>::empty(),
    {
        let mut entries: Vec<ScriptEntry> = Vec::new();
        core::mem::swap(&mut self.entries, &mut entries);
    }

    /// The entry with `id`, where there is one.
    pub fn get(&self, id: &str) -> (r: Option<&ScriptEntry>)
        ensures
            r.is_some() == lookup(self@, id@).is_some(),
            r matches Some(e) ==> lookup(self@, id@) == Some(e@),
    {
        match position(&self.entries, id) {
            Some(i) => Some(&self.entries[i]),
            None => None,
        }
    }

    /// Copies of all entries, in registry order.
    pub fn get_all(&self) -> (r: Vec<ScriptEntry>)
        ensures
            entry_models(r@) == self@,
            entry_ids(self@).no_duplicates(),
    {
        proof {
            use_type_invariant(self);
        }
        let mut out: Vec<ScriptEntry> = Vec::new();
        let mut i: usize = 0;
        while i < self.entries.len()
            invariant
                i <= self.entries.len(),
                out.len() == i,
                forall|j: int| 0 <= j < i ==> out[j]@ == self.entries[j]@,
            decreases self.entries.len() - i,
        {
            out.push(self.entries[i].duplicate());
            i += 1;
        }
        out
    }
}

/// Registering a second entry under an id that an earlier registration
/// used leaves the registry as if only the second had been registered: one
/// entry with that id, holding the later content.
pub proof fn lemma_register_overwrites(
    entries: Seq<EntryModel>,
    first: EntryModel,
    second: EntryModel,
)
    requires
        first.id == second.id,
    ensures
        registered(registered(entries, first), second) == registered(entries, second),
        lookup(registered(registered(entries, first), second), second.id) == Some(second),
        registered(registered(entries, first), second).len() == registered(entries, first).len(),
{
    let ids = entry_ids(entries);
    let once = registered(entries, first);
    ids.index_of_first_ensures(first.id);
    entry_ids(once).index_of_first_ensures(second.id);
    match ids.index_of_first(first.id) {
        Some(i) => {
            assert(entry_ids(once) =~= ids);
            assert(once.update(i, second) =~= entries.update(i, second));
        },
        None => {
            assert(entry_ids(once) =~= ids.push(first.id));
            assert(entry_ids(once)[ids.len() as int] == second.id);
            assert(entry_ids(once).contains(second.id));
            let k = entry_ids(once).index_of_first(second.id).unwrap();
            if k < ids.len() {
                assert(ids[k] == second.id);
                assert(ids.contains(second.id));
            }
            assert(once.update(k, second) =~= entries.push(second));
        },
    }
    let twice = registered(once, second);
    entry_ids(twice).index_of_first_ensures(second.id);
    let ids2 = entry_ids(twice);
    let j = entry_ids(entries).index_of_first(second.id);
    match j {
        Some(i) => {
            assert(twice =~= entries.update(i, second));
            assert(ids2 =~= ids);
        },
        None => {
            assert(twice =~= entries.push(second));
            assert(ids2 =~= ids.push(second.id));
            assert(ids2[ids.len() as int] == second.id);
            assert(ids2.contains(second.id));
            let k = ids2.index_of_first(second.id).unwrap();
            if k < ids.len() {
                assert(ids[k] == second.id);
                assert(ids.contains(second.id));
            }
        },
    }
}

/// Registration keeps ids unique, and so does removal.
pub proof fn lemma_registry_keeps_ids_unique(entries: Seq<EntryModel>, entry: EntryModel)
    requires
        entry_ids(entries).no_duplicates(),
    ensures
        entry_ids(registered(entries, entry)).no_duplicates(),
        entry_ids(unregistered(entries, entry.id)).no_duplicates(),
{
    let ids = entry_ids(entries);
    ids.index_of_first_ensures(entry.id);
    match ids.index_of_first(entry.id) {
        Some(i) => {
            assert(entry_ids(entries.update(i, entry)) =~= ids);
            assert(entry_ids(entries.remove(i)) =~= ids.remove(i));
            assert forall|a: int, b: int|
                0 <= a < ids.len() - 1 && 0 <= b < ids.len() - 1 && a != b implies ids.remove(i)[a]
                != ids.remove(i)[b] by {
                let a2 = if a < i { a } else { a + 1 };
                let b2 = if b < i { b } else { b + 1 };
                assert(ids.remove(i)[a] == ids[a2]);
                assert(ids.remove(i)[b] == ids[b2]);
            }
        },
        None => {
            assert(entry_ids(entries.push(entry)) =~= ids.push(entry.id));
            assert forall|a: int, b: int|
                0 <= a < ids.len() + 1 && 0 <= b < ids.len() + 1 && a != b implies ids.push(
                entry.id,
            )[a] != ids.push(entry.id)[b] by {
                if a < ids.len() && b < ids.len() {
                } else if a < ids.len() {
                    assert(ids.contains(ids[a]));
                } else {
                    assert(ids.contains(ids[b]));
                }
            }
        },
    }
}

} // verus!
