//! The registry that tells which action each registered shortcut triggers.
use vstd::prelude::*;
use crate::shortcut::{normalize_shortcut, normalized_shortcut};
use crate::text::same_text;

verus! {

/// The action that `hotkey` finds in bindings keyed by normal form.
pub open spec fn action_for(bindings: Map<Seq<char>, Seq<char>>, hotkey: Seq<char>) -> Option<Seq<char>> {
    if bindings.contains_key(normalized_shortcut(hotkey)) {
        Some(bindings[normalized_shortcut(hotkey)])
    } else {
        None
    }
}

/// The shortcuts that are registered, each by its normal form, with the name
/// of the action that it triggers. The bindings are kept as a list of pairs
/// with no shortcut twice: vstd's specification of `HashMap` holds only for
/// key types that `obeys_key_model`, which it establishes for integers and
/// `bool` but not for `String`.
pub struct ShortcutRegistry {
    entries: Vec<(String, String)>,
    bindings: Ghost<Map<Seq<char>, Seq<char>>>,
}

impl View for ShortcutRegistry {
    type V = Map<Seq<char>, Seq<char>>;

    /// Each registered shortcut, in normal form, to the name of its action.
    closed spec fn view(&self) -> Map<Seq<char>, Seq<char>> {
        self.bindings@
    }
}

/// The entries are the map: no shortcut stands twice, each entry is a pair
/// of the map, and each shortcut of the map has an entry.
spec fn entries_match(entries: Seq<(String, String)>, bindings: Map<Seq<char>, Seq<char>>) -> bool {
    &&& forall|i: int, j: int|
        0 <= i < j < entries.len() ==> #[trigger] entries[i].0@ != #[trigger] entries[j].0@
    &&& forall|i: int|
        0 <= i < entries.len() ==> bindings.contains_key(#[trigger] entries[i].0@)
            && bindings[entries[i].0@] == entries[i].1@
    &&& forall|k: Seq<char>|
        #[trigger] bindings.contains_key(k) ==> exists|i: int|
            0 <= i < entries.len() && #[trigger] entries[i].0@ == k
}

impl ShortcutRegistry {
    /// The entries are the map.
    #[verifier::type_invariant]
    spec fn wf(&self) -> bool {
        entries_match(self.entries@, self.bindings@)
    }

    /// An empty registry.
    pub fn new() -> (r: Self)
        ensures
            r@ == Map::<Seq<char>, Seq<char>>::empty(),
    {
        ShortcutRegistry { entries: Vec::new(), bindings: Ghost(Map::empty()) }
    }

    /// Where the entry for the shortcut `key` (in normal form) stands.
    fn position(&self, key: &str) -> (r: Option<usize>)
        ensures
            match r {
                Some(i) => i < self.entries@.len() && self.entries@[i as int].0@ == key@,
                None => !self@.contains_key(key@),
            },
    {
        proof {
            use_type_invariant(self);
        }
        let n: usize = self.entries.len();
        let mut i: usize = 0;
        while i < n
            invariant
                self.wf(),
                n == self.entries@.len(),
                i <= n,
                forall|j: int| 0 <= j < i ==> #[trigger] self.entries@[j].0@ != key@,
            decreases n - i,
        {
            if same_text(self.entries[i].0.as_str(), key) {
                return Some(i);
            }
            i = i + 1;
        }
        None
    }

    /// Binds the shortcut `hotkey`, in normal form, to `action`; a binding
    /// that the shortcut had before is replaced.
    pub fn insert(&mut self, hotkey: String, action: String)
        ensures
            final(self)@ == old(self)@.insert(normalized_shortcut(hotkey@), action@),
    {
        proof {
            use_type_invariant(&*self);
        }
        let key = normalize_shortcut(hotkey.as_str());
        let ghost k = key@;
        let ghost a = action@;
        let pos = self.position(key.as_str());
        let mut taken = ShortcutRegistry::new();
        std::mem::swap(self, &mut taken);
        proof {
            use_type_invariant(&taken);
        }
        let ShortcutRegistry { mut entries, bindings } = taken;
        let ghost before = entries@;
        let ghost after = bindings@.insert(k, a);
        match pos {
            Some(i) => {
                entries.remove(i);
                entries.insert(i, (key, action));
                assert forall|j: int| 0 <= j < entries@.len() implies #[trigger] entries@[j].0@
                    == before[j].0@ by {}
                assert forall|m: Seq<char>| #[trigger] after.contains_key(m) implies exists|j: int|
                    0 <= j < entries@.len() && #[trigger] entries@[j].0@ == m by {
                    if m != k {
                        let j: int = choose|j: int| 0 <= j < before.len() && #[trigger] before[j].0@ == m;
                        assert(entries@[j].0@ == m);
                    } else {
                        assert(entries@[i as int].0@ == m);
                    }
                }
            },
            None => {
                entries.push((key, action));
                assert forall|m: Seq<char>| #[trigger] after.contains_key(m) implies exists|j: int|
                    0 <= j < entries@.len() && #[trigger] entries@[j].0@ == m by {
                    if m != k {
                        let j: int = choose|j: int| 0 <= j < before.len() && #[trigger] before[j].0@ == m;
                        assert(entries@[j].0@ == m);
                    } else {
                        assert(entries@[before.len() as int].0@ == m);
                    }
                }
            },
        }
        assert(entries_match(entries@, after));
        *self = ShortcutRegistry { entries, bindings: Ghost(after) };
    }

    /// Drops the binding of the shortcut `hotkey`, in normal form, if it has
    /// one.
    pub fn remove(&mut self, hotkey: &str)
        ensures
            final(self)@ == old(self)@.remove(normalized_shortcut(hotkey@)),
    {
        proof {
            use_type_invariant(&*self);
        }
        let key = normalize_shortcut(hotkey);
        let ghost k = key@;
        let pos = self.position(key.as_str());
        let mut taken = ShortcutRegistry::new();
        std::mem::swap(self, &mut taken);
        proof {
            use_type_invariant(&taken);
        }
        let ShortcutRegistry { mut entries, bindings } = taken;
        let ghost before = entries@;
        let ghost after = bindings@.remove(k);
        match pos {
            Some(i) => {
                entries.remove(i);
                assert forall|j: int| 0 <= j < entries@.len() implies #[trigger] entries@[j]
                    == before[if j < i { j } else { j + 1 }] by {}
                assert forall|m: Seq<char>| #[trigger] after.contains_key(m) implies exists|j: int|
                    0 <= j < entries@.len() && #[trigger] entries@[j].0@ == m by {
                    let j: int = choose|j: int| 0 <= j < before.len() && #[trigger] before[j].0@ == m;
                    if j < i {
                        assert(entries@[j].0@ == m);
                    } else {
                        assert(j != i);
                        assert(entries@[j - 1].0@ == m);
                    }
                }
            },
            None => {
                assert(after =~= bindings@);
            },
        }
        assert(entries_match(entries@, after));
        *self = ShortcutRegistry { entries, bindings: Ghost(after) };
    }

    /// The action that the shortcut `hotkey` triggers: the binding of its
    /// normal form, if it has one.
    pub fn get_action(&self, hotkey: &str) -> (r: Option<String>)
        ensures
            match r {
                Some(a) => action_for(self@, hotkey@) == Some(a@),
                None => action_for(self@, hotkey@) is None,
            },
    {
        proof {
            use_type_invariant(self);
        }
        let key = normalize_shortcut(hotkey);
        match self.position(key.as_str()) {
            Some(i) => Some(self.entries[i].1.clone()),
            None => None,
        }
    }

    /// A shortcut that triggers `action`, as the registry stores it (in
    /// normal form); `None` when no shortcut triggers it.
    pub fn hotkey_of(&self, action: &str) -> (r: Option<String>)
        ensures
            match r {
                Some(k) => self@.contains_key(k@) && self@[k@] == action@,
                None => forall|k: Seq<char>| #[trigger] self@.contains_key(k) ==> self@[k] != action@,
            },
    {
        proof {
            use_type_invariant(self);
        }
        let n: usize = self.entries.len();
        let mut i: usize = 0;
        while i < n
            invariant
                self.wf(),
                n == self.entries@.len(),
                i <= n,
                forall|j: int| 0 <= j < i ==> #[trigger] self.entries@[j].1@ != action@,
            decreases n - i,
        {
            if same_text(self.entries[i].1.as_str(), action) {
                return Some(self.entries[i].0.clone());
            }
            i = i + 1;
        }
        assert forall|k: Seq<char>| #[trigger] self@.contains_key(k) implies self@[k] != action@ by {
            let j: int = choose|j: int| 0 <= j < self.entries@.len() && #[trigger] self.entries@[j].0@ == k;
            assert(self.entries@[j].1@ != action@);
        }
        None
    }
}

/// What is registered is found again: after `insert` of `hotkey`, a shortcut
/// with the same normal form finds the new action, and any other finds what
/// it found before.
pub proof fn law_lookup_after_insert(
    before: Map<Seq<char>, Seq<char>>,
    hotkey: Seq<char>,
    action: Seq<char>,
    query: Seq<char>,
)
    ensures
        action_for(before.insert(normalized_shortcut(hotkey), action), query) == if normalized_shortcut(
            query,
        ) == normalized_shortcut(hotkey) {
            Some(action)
        } else {
            action_for(before, query)
        },
{
}

/// What is removed is gone: after `remove` of `hotkey`, a shortcut with the
/// same normal form finds nothing, and any other finds what it found before.
pub proof fn law_lookup_after_remove(
    before: Map<Seq<char>, Seq<char>>,
    hotkey: Seq<char>,
    query: Seq<char>,
)
    ensures
        action_for(before.remove(normalized_shortcut(hotkey)), query) == if normalized_shortcut(
            query,
        ) == normalized_shortcut(hotkey) {
            None
        } else {
            action_for(before, query)
        },
{
}

} // verus!
