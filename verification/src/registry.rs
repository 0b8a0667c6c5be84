//! The plugin registry: the loaded modules in dispatch order, the
//! execution context they share, and the per-module configuration.

use crate::text::{find, lemma_find, lemma_find_at, same_text};
use vstd::prelude::*;

verus! {

/// The settings of one module: keys and values, as the module is handed
/// them when it is initialised.
pub type Settings = Vec<(String, String)>;

/// The mathematical value of `Settings`.
pub type SettingsView = Seq<(Seq<char>, Seq<char>)>;

/// A copy of `settings`.
pub fn clone_settings(settings: &Settings) -> (copy: Settings)
    ensures
        copy.deep_view() == settings.deep_view(),
{
    let mut copy: Settings = Vec::new();
    let mut i: usize = 0;
    while i < settings.len()
        invariant
            i <= settings.len(),
            copy.len() == i,
            forall|j: int| 0 <= j < i ==> copy@[j].deep_view() == settings@[j].deep_view(),
        decreases settings.len() - i,
    {
        let key = settings[i].0.clone();
        let value = settings[i].1.clone();
        copy.push((key, value));
        i += 1;
    }
    assert(copy.deep_view() =~= settings.deep_view());
    copy
}

/// The settings of the module named `module`.
pub struct ConfigEntry {
    pub module: String,
    pub settings: Settings,
}

/// The per-module configuration: for each configured module, by name, its
/// settings. No name occurs twice.
pub struct ModulesConfig {
    entries: Vec<ConfigEntry>,
}

/// The names that `entries` are filed under, in order.
pub open spec fn keys(entries: Seq<ConfigEntry>) -> Seq<Seq<char>> {
    Seq::new(entries.len(), |i: int| entries[i].module@)
}

/// The configuration that `entries` stand for: each name with the settings
/// of the first entry filed under it.
pub open spec fn config_of(entries: Seq<ConfigEntry>) -> Map<Seq<char>, SettingsView> {
    Map::new(
        |name: Seq<char>| find(keys(entries), name) < entries.len(),
        |name: Seq<char>| entries[find(keys(entries), name)].settings.deep_view(),
    )
}

impl View for ModulesConfig {
    type V = Map<Seq<char>, SettingsView>;

    closed spec fn view(&self) -> Map<Seq<char>, SettingsView> {
        config_of(self.entries@)
    }
}

impl ModulesConfig {
    #[verifier::type_invariant]
    spec fn well_formed(&self) -> bool {
        forall|i: int, j: int|
            0 <= i < j < self.entries.len() ==> self.entries[i].module@ != self.entries[j].module@
    }

    /// The configuration of no module.
    pub fn new() -> (config: ModulesConfig)
        ensures
            config@ == Map::<Seq<char>, SettingsView>::empty(),
    {
        let config = ModulesConfig { entries: Vec::new() };
        assert(config@ =~= Map::<Seq<char>, SettingsView>::empty());
        config
    }

    /// The index of the entry filed under `name`, or the number of entries
    /// if there is none.
    fn index_of(&self, name: &str) -> (i: usize)
        ensures
            i == find(keys(self.entries@), name@),
            i <= self.entries.len(),
    {
        let mut i: usize = 0;
        while i < self.entries.len() && !same_text(self.entries[i].module.as_str(), name)
            invariant
                i <= self.entries.len(),
                forall|j: int| 0 <= j < i ==> keys(self.entries@)[j] != name@,
            decreases self.entries.len() - i,
        {
            i += 1;
        }
        proof {
            lemma_find_at(keys(self.entries@), name@, i as int);
        }
        i
    }

    /// Sets the settings of the module named `module`, in place of any it
    /// had.
    pub fn insert(&mut self, module: String, settings: Settings)
        ensures
            final(self)@ == old(self)@.insert(module@, settings.deep_view()),
    {
        proof {
            use_type_invariant(&*self);
        }
        let ghost before = self.entries@;
        let ghost key = module@;
        let ghost value = settings.deep_view();
        let i = self.index_of(module.as_str());
        let mut entries: Vec<ConfigEntry> = Vec::new();
        core::mem::swap(&mut self.entries, &mut entries);
        if i < entries.len() {
            entries.set(i, ConfigEntry { module, settings });
            proof {
                lemma_find(keys(before), key);
                assert(keys(before)[i as int] == key);
                assert(keys(entries@) =~= keys(before));
                let new_map = config_of(entries@);
                let old_map = config_of(before).insert(key, value);
                assert forall|name: Seq<char>|
                    new_map.dom().contains(name) == old_map.dom().contains(name) && (
                    new_map.dom().contains(name) ==> new_map[name] == old_map[name]) by {
                    lemma_find(keys(before), name);
                }
                assert(new_map =~= old_map);
            }
        } else {
            entries.push(ConfigEntry { module, settings });
            proof {
                let old_keys = keys(before);
                let new_keys = keys(entries@);
                assert(new_keys =~= old_keys.push(key));
                lemma_find(old_keys, key);
                assert forall|name: Seq<char>| #![trigger find(new_keys, name)]
                    find(new_keys, name) == if find(old_keys, name) < old_keys.len() {
                        find(old_keys, name)
                    } else if name == key {
                        old_keys.len() as int
                    } else {
                        new_keys.len() as int
                    } by {
                    lemma_find(old_keys, name);
                    let k = if find(old_keys, name) < old_keys.len() {
                        find(old_keys, name)
                    } else if name == key {
                        old_keys.len() as int
                    } else {
                        new_keys.len() as int
                    };
                    assert forall|j: int| 0 <= j < k implies new_keys[j] != name by {
                        if j < old_keys.len() {
                            assert(new_keys[j] == old_keys[j]);
                        }
                    }
                    lemma_find_at(new_keys, name, k);
                }
                let new_map = config_of(entries@);
                let old_map = config_of(before).insert(key, value);
                assert forall|name: Seq<char>|
                    new_map.dom().contains(name) == old_map.dom().contains(name) && (
                    new_map.dom().contains(name) ==> new_map[name] == old_map[name]) by {
                    lemma_find(old_keys, name);
                    let at = find(new_keys, name);
                    if at < old_keys.len() {
                        assert(entries@[at] == before[at]);
                    }
                }
                assert(new_map =~= old_map);
            }
        }
        proof {
            assert forall|a: int, b: int| 0 <= a < b < entries.len() implies entries@[a].module@
                != entries@[b].module@ by {
                lemma_find(keys(before), key);
                assert(keys(entries@)[a] == entries@[a].module@);
                assert(keys(entries@)[b] == entries@[b].module@);
                if b < before.len() {
                    assert(keys(before)[a] == before[a].module@);
                    assert(keys(before)[b] == before[b].module@);
                } else {
                    assert(keys(before)[a] != key);
                }
            }
        }
        self.entries = entries;
    }

    /// A copy of this configuration.
    pub fn copy(&self) -> (copy: ModulesConfig)
        ensures
            copy@ == self@,
    {
        proof {
            use_type_invariant(self);
        }
        let mut entries: Vec<ConfigEntry> = Vec::new();
        let mut i: usize = 0;
        while i < self.entries.len()
            invariant
                i <= self.entries.len(),
                entries.len() == i,
                forall|j: int|
                    0 <= j < i ==> entries@[j].module@ == self.entries@[j].module@
                        && entries@[j].settings.deep_view()
                        == self.entries@[j].settings.deep_view(),
            decreases self.entries.len() - i,
        {
            entries.push(
                ConfigEntry {
                    module: self.entries[i].module.clone(),
                    settings: clone_settings(&self.entries[i].settings),
                },
            );
            i += 1;
        }
        proof {
            let names = keys(self.entries@);
            assert(keys(entries@) =~= names);
            assert forall|name: Seq<char>|
                config_of(entries@).dom().contains(name) == config_of(
                    self.entries@,
                ).dom().contains(name) && (config_of(entries@).dom().contains(name) ==> config_of(
                    entries@,
                )[name] == config_of(self.entries@)[name]) by {
                lemma_find(names, name);
            }
            assert(config_of(entries@) =~= config_of(self.entries@));
        }
        ModulesConfig { entries }
    }

    /// The settings of the module named `module`, if it is configured.
    pub fn get(&self, module: &str) -> (settings: Option<&Settings>)
        ensures
            settings.deep_view() == if self@.dom().contains(module@) {
                Some(self@[module@])
            } else {
                None
            },
    {
        let i = self.index_of(module);
        if i < self.entries.len() {
            Some(&self.entries[i].settings)
        } else {
            None
        }
    }
}

/// The loaded modules: their names in dispatch order, and the execution
/// context that all of them share. A registry is built in one piece and
/// replaced in one piece.
pub struct Registry<S> {
    pub names: Vec<String>,
    pub sandbox: S,
}

impl<S> Registry<S> {
    /// The names of the loaded modules, in dispatch order.
    pub open spec fn module_names(&self) -> Seq<Seq<char>> {
        self.names.deep_view()
    }

    /// The number of loaded modules.
    pub fn len(&self) -> (n: usize)
        ensures
            n == self.module_names().len(),
    {
        self.names.len()
    }
}

/// A copy of `names`.
pub fn clone_names(names: &Vec<String>) -> (copy: Vec<String>)
    ensures
        copy.deep_view() == names.deep_view(),
{
    let mut copy: Vec<String> = Vec::new();
    let mut i: usize = 0;
    while i < names.len()
        invariant
            i <= names.len(),
            copy.len() == i,
            forall|j: int| 0 <= j < i ==> copy@[j]@ == names@[j]@,
        decreases names.len() - i,
    {
        copy.push(names[i].clone());
        i += 1;
    }
    assert(copy.deep_view() =~= names.deep_view());
    copy
}

} // verus!
