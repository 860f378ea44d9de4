//! What the agent knows about its user: preferences, configured platforms
//! and content templates.

use vstd::prelude::*;
use crate::keyed::KeyedList;

verus! {

/// A value set under a key is what a later read of that key gives, and
/// every other key keeps its value: the law of the preference, platform and
/// template tables.
pub proof fn lemma_set_then_get<V>(m: Map<Seq<char>, V>, k: Seq<char>, v: V, other: Seq<char>)
    ensures
        m.insert(k, v).contains_key(k),
        m.insert(k, v)[k] == v,
        other != k ==> m.insert(k, v).contains_key(other) == m.contains_key(other),
        other != k && m.contains_key(other) ==> m.insert(k, v)[other] == m[other],
{
}

/// The table after writing each `(name, value)` of `writes` in turn.
pub open spec fn after_writes<V>(m: Map<Seq<char>, V>, writes: Seq<(Seq<char>, V)>) -> Map<Seq<char>, V>
    decreases writes.len(),
{
    if writes.len() == 0 {
        m
    } else {
        after_writes(m, writes.drop_last()).insert(writes.last().0, writes.last().1)
    }
}

/// The position of the last write under `name`, or -1 when there is none.
pub open spec fn last_write<V>(writes: Seq<(Seq<char>, V)>, name: Seq<char>) -> int
    decreases writes.len(),
{
    if writes.len() == 0 {
        -1
    } else if writes.last().0 == name {
        writes.len() - 1
    } else {
        last_write(writes.drop_last(), name)
    }
}

/// After any sequence of writes (`add_content_template`, `set_user_preference`
/// or `configure_platform`, each of which inserts into its own table and
/// leaves the others alone), a read of a name gives the value of the last
/// write under that name, or what the table held before when none wrote it.
pub proof fn lemma_last_write_wins<V>(m: Map<Seq<char>, V>, writes: Seq<(Seq<char>, V)>, name: Seq<char>)
    ensures
        last_write(writes, name) >= 0 ==> {
            &&& 0 <= last_write(writes, name) < writes.len()
            &&& writes[last_write(writes, name)].0 == name
            &&& after_writes(m, writes).contains_key(name)
            &&& after_writes(m, writes)[name] == writes[last_write(writes, name)].1
        },
        last_write(writes, name) < 0 ==> {
            &&& after_writes(m, writes).contains_key(name) == m.contains_key(name)
            &&& m.contains_key(name) ==> after_writes(m, writes)[name] == m[name]
        },
    decreases writes.len(),
{
    if writes.len() > 0 {
        lemma_last_write_wins(m, writes.drop_last(), name);
        if writes.last().0 != name {
            let i = last_write(writes.drop_last(), name);
            if i >= 0 {
                assert(writes.drop_last()[i] == writes[i]);
            }
        }
    }
}

/// Settings of one social-media platform.
#[derive(Debug, Clone, PartialEq, Eq)]
pub struct PlatformConfig {
    pub platform: String,
    pub configured: bool,
    pub preferences: KeyedList<String>,
}

/// Preferences, platform settings and templates, each keyed by name.
#[derive(Debug, Clone, PartialEq, Eq)]
pub struct AgentContext {
    pub user_preferences: KeyedList<String>,
    pub platform_configs: KeyedList<PlatformConfig>,
    pub content_templates: KeyedList<String>,
}

impl AgentContext {
    /// A context with nothing in it.
    pub fn new() -> (r: AgentContext)
        ensures
            r.user_preferences@ == Map::<Seq<char>, String>::empty(),
            r.platform_configs@ == Map::<Seq<char>, PlatformConfig>::empty(),
            r.content_templates@ == Map::<Seq<char>, String>::empty(),
    {
        AgentContext { user_preferences: KeyedList::new(), platform_configs: KeyedList::new(), content_templates: KeyedList::new() }
    }

    /// Sets a user preference.
    pub fn set_user_preference(&mut self, key: String, value: String)
        ensures
            final(self).user_preferences@ == old(self).user_preferences@.insert(key@, value),
            final(self).platform_configs@ == old(self).platform_configs@,
            final(self).content_templates@ == old(self).content_templates@,
    {
        self.user_preferences.insert(key, value);
    }

    /// A user preference, if set.
    pub fn get_user_preference(&self, key: &str) -> (r: Option<&String>)
        ensures
            match r {
                Some(v) => self.user_preferences@.contains_key(key@) && *v == self.user_preferences@[key@],
                None => !self.user_preferences@.contains_key(key@),
            },
    {
        self.user_preferences.get(key)
    }

    /// Sets the configuration of a platform.
    pub fn configure_platform(&mut self, platform: String, config: PlatformConfig)
        ensures
            final(self).platform_configs@ == old(self).platform_configs@.insert(platform@, config),
            final(self).user_preferences@ == old(self).user_preferences@,
            final(self).content_templates@ == old(self).content_templates@,
    {
        self.platform_configs.insert(platform, config);
    }

    /// The configuration of a platform, if set.
    pub fn get_platform_config(&self, platform: &str) -> (r: Option<&PlatformConfig>)
        ensures
            match r {
                Some(v) => self.platform_configs@.contains_key(platform@) && *v == self.platform_configs@[platform@],
                None => !self.platform_configs@.contains_key(platform@),
            },
    {
        self.platform_configs.get(platform)
    }

    /// Stores a content template under a name.
    pub fn add_content_template(&mut self, name: String, template: String)
        ensures
            final(self).content_templates@ == old(self).content_templates@.insert(name@, template),
            final(self).user_preferences@ == old(self).user_preferences@,
            final(self).platform_configs@ == old(self).platform_configs@,
    {
        self.content_templates.insert(name, template);
    }

    /// The template stored under a name, if any.
    pub fn get_content_template(&self, name: &str) -> (r: Option<&String>)
        ensures
            match r {
                Some(v) => self.content_templates@.contains_key(name@) && *v == self.content_templates@[name@],
                None => !self.content_templates@.contains_key(name@),
            },
    {
        self.content_templates.get(name)
    }
}

} // verus!
