//! The stored configuration and the operations on its contexts.
//!
//! Where the configuration file lies, and reading and writing it, is left
//! to the caller.

pub mod schema;

pub use schema::{
    context_name_from_url, default_limit, default_regex_color, default_since, default_timeout,
    default_version, Config, Context, ContextDefaults, HighlightsConfig, RegexHighlight,
    CONFIG_VERSION,
};

use vstd::prelude::*;
use crate::error::Error;
use crate::text::{
    distinct_keys, find_named, first_index, join3, lemma_first_index, names_of, owned, text_eq,
};

verus! {

/// The name of the configuration file.
pub open spec fn config_file() -> Seq<char> {
    "logchef.json"@
}

/// The name of the configuration file.
pub fn config_file_name() -> (name: String)
    ensures
        name@ == config_file(),
{
    owned("logchef.json")
}

/// The context named `name`.
pub open spec fn context_of(contexts: Seq<(String, Context)>, name: Seq<char>) -> Option<Context> {
    match first_index(names_of(contexts), name) {
        Some(i) => Some(contexts[i].1),
        None => None,
    }
}

/// The place of the first context whose server is `url`.
pub open spec fn first_for_url(contexts: Seq<(String, Context)>, url: Seq<char>) -> Option<int>
    decreases contexts.len(),
{
    if contexts.len() == 0 {
        None
    } else if contexts[0].1.server_url@ == url {
        Some(0)
    } else {
        match first_for_url(contexts.drop_first(), url) {
            Some(i) => Some(i + 1),
            None => None,
        }
    }
}

/// `first_for_url` gives the least place whose context has the server, and
/// nothing only where no context has it.
pub proof fn lemma_first_for_url(contexts: Seq<(String, Context)>, url: Seq<char>)
    ensures
        match first_for_url(contexts, url) {
            Some(i) => 0 <= i < contexts.len() && contexts[i].1.server_url@ == url && forall|j: int|
                0 <= j < i ==> (#[trigger] contexts[j]).1.server_url@ != url,
            None => forall|j: int|
                0 <= j < contexts.len() ==> (#[trigger] contexts[j]).1.server_url@ != url,
        },
    decreases contexts.len(),
{
    if contexts.len() > 0 && contexts[0].1.server_url@ != url {
        let rest = contexts.drop_first();
        lemma_first_for_url(rest, url);
        match first_for_url(rest, url) {
            Some(i) => {
                assert forall|j: int| 0 <= j < i + 1 implies (#[trigger] contexts[j]).1.server_url@
                    != url by {
                    if j > 0 {
                        assert(contexts[j] == rest[j - 1]);
                    }
                }
            },
            None => {
                assert forall|j: int| 0 <= j < contexts.len() implies (
                #[trigger] contexts[j]).1.server_url@ != url by {
                    if j > 0 {
                        assert(contexts[j] == rest[j - 1]);
                    }
                }
            },
        }
    }
}

/// The text that says that no context has the name.
pub open spec fn not_found_text(name: Seq<char>) -> Seq<char> {
    "Context '"@ + name + "' not found"@
}

/// The text that says that a context has the name already.
pub open spec fn exists_text(name: Seq<char>) -> Seq<char> {
    "Context '"@ + name + "' already exists"@
}

fn not_found(name: &str) -> (e: Error)
    ensures
        e matches Error::Config(m) && m@ == not_found_text(name@),
{
    Error::Config(join3("Context '", name, "' not found"))
}

fn already_exists(name: &str) -> (e: Error)
    ensures
        e matches Error::Config(m) && m@ == exists_text(name@),
{
    Error::Config(join3("Context '", name, "' already exists"))
}

impl Config {
    /// Whether no name occurs twice among the contexts.
    pub open spec fn wf(&self) -> bool {
        distinct_keys(names_of(self.contexts@))
    }

    /// Whether a context is named `name`.
    pub open spec fn has(&self, name: Seq<char>) -> bool {
        first_index(names_of(self.contexts@), name) is Some
    }

    /// The name of the context in use, if one is.
    pub fn current_context_name(&self) -> (name: Option<&str>)
        ensures
            match name {
                Some(n) => self.current_context matches Some(c) && c@ == n@,
                None => self.current_context is None,
            },
    {
        match &self.current_context {
            Some(name) => Some(name.as_str()),
            None => None,
        }
    }

    /// The context named `name`.
    pub fn get_context(&self, name: &str) -> (found: Option<&Context>)
        ensures
            match found {
                Some(context) => context_of(self.contexts@, name@) == Some(*context),
                None => context_of(self.contexts@, name@) is None,
            },
    {
        match find_named(&self.contexts, name) {
            Some(i) => Some(&self.contexts[i].1),
            None => None,
        }
    }

    /// The context in use: the one that the current name names, if a name
    /// is set and a context has it.
    pub fn current_context(&self) -> (found: Option<&Context>)
        ensures
            match found {
                Some(context) => self.current_context matches Some(c) && context_of(
                    self.contexts@,
                    c@,
                ) == Some(*context),
                None => self.current_context matches Some(c) ==> context_of(self.contexts@, c@)
                    is None,
            },
    {
        match &self.current_context {
            Some(name) => self.get_context(name.as_str()),
            None => None,
        }
    }

    /// The first context whose server is `url`, with its name.
    pub fn find_context_by_url(&self, url: &str) -> (found: Option<(&str, &Context)>)
        ensures
            match found {
                Some(pair) => first_for_url(self.contexts@, url@) matches Some(i) && pair.0@
                    == self.contexts@[i].0@ && *pair.1 == self.contexts@[i].1,
                None => first_for_url(self.contexts@, url@) is None,
            },
    {
        let mut i: usize = 0;
        while i < self.contexts.len()
            invariant
                i <= self.contexts.len(),
                forall|j: int| 0 <= j < i ==> (#[trigger] self.contexts@[j]).1.server_url@ != url@,
            decreases self.contexts.len() - i,
        {
            if text_eq(self.contexts[i].1.server_url.as_str(), url) {
                proof {
                    lemma_first_for_url(self.contexts@, url@);
                }
                return Some((self.contexts[i].0.as_str(), &self.contexts[i].1));
            }
            i += 1;
        }
        proof {
            lemma_first_for_url(self.contexts@, url@);
        }
        None
    }

    /// Makes the context named `name` the one in use. It fails, and changes
    /// nothing, where no context has the name.
    pub fn use_context(&mut self, name: &str) -> (r: Result<(), Error>)
        ensures
            final(self).contexts == old(self).contexts,
            final(self).version == old(self).version,
            final(self).highlights == old(self).highlights,
            match r {
                Ok(_) => {
                    &&& old(self).has(name@)
                    &&& final(self).current_context matches Some(c)
                    &&& c@ == name@
                },
                Err(e) => {
                    &&& !old(self).has(name@)
                    &&& final(self).current_context == old(self).current_context
                    &&& e matches Error::Config(m)
                    &&& m@ == not_found_text(name@)
                },
            },
    {
        match find_named(&self.contexts, name) {
            Some(_) => {
                self.current_context = Some(owned(name));
                Ok(())
            },
            None => Err(not_found(name)),
        }
    }

    /// Adds a context under a new name, and makes it the one in use where
    /// none is. It fails, and changes nothing, where a context has the name
    /// already.
    pub fn add_context(&mut self, name: String, context: Context) -> (r: Result<(), Error>)
        ensures
            final(self).version == old(self).version,
            final(self).highlights == old(self).highlights,
            old(self).wf() ==> final(self).wf(),
            match r {
                Ok(_) => {
                    &&& !old(self).has(name@)
                    &&& final(self).contexts@ == old(self).contexts@.push((name, context))
                    &&& if old(self).current_context is None {
                        final(self).current_context matches Some(c) && c@ == name@
                    } else {
                        final(self).current_context == old(self).current_context
                    }
                },
                Err(e) => {
                    &&& old(self).has(name@)
                    &&& final(self).contexts == old(self).contexts
                    &&& final(self).current_context == old(self).current_context
                    &&& e matches Error::Config(m)
                    &&& m@ == exists_text(name@)
                },
            },
    {
        proof {
            lemma_first_index(names_of(self.contexts@), name@);
        }
        match find_named(&self.contexts, name.as_str()) {
            Some(_) => Err(already_exists(name.as_str())),
            None => {
                if self.current_context.is_none() {
                    self.current_context = Some(name.clone());
                }
                self.contexts.push((name, context));
                proof {
                    let before = names_of(old(self).contexts@);
                    let after = names_of(self.contexts@);
                    assert(after =~= before.push(name@));
                }
                Ok(())
            },
        }
    }

    /// Stores a context under a name, in place of the one of that name if
    /// there is one, and makes it the one in use.
    pub fn add_or_update_context(&mut self, name: String, context: Context)
        ensures
            final(self).version == old(self).version,
            final(self).highlights == old(self).highlights,
            old(self).wf() ==> final(self).wf(),
            final(self).current_context matches Some(c) && c@ == name@,
            match first_index(names_of(old(self).contexts@), name@) {
                Some(i) => final(self).contexts@ == old(self).contexts@.update(i, (name, context)),
                None => final(self).contexts@ == old(self).contexts@.push((name, context)),
            },
            context_of(final(self).contexts@, name@) == Some(context),
    {
        proof {
            lemma_first_index(names_of(self.contexts@), name@);
        }
        self.current_context = Some(name.clone());
        match find_named(&self.contexts, name.as_str()) {
            Some(i) => {
                self.contexts.set(i, (name, context));
                proof {
                    assert(names_of(self.contexts@) =~= names_of(old(self).contexts@));
                    assert(self.contexts@[i as int].1 == context);
                }
            },
            None => {
                self.contexts.push((name, context));
                proof {
                    let before = names_of(old(self).contexts@);
                    let after = names_of(self.contexts@);
                    assert(after =~= before.push(name@));
                    lemma_first_index(after, name@);
                    assert(after[before.len() as int] == name@);
                    assert forall|j: int| 0 <= j < before.len() implies after[j] != name@ by {
                        assert(after[j] == before[j]);
                    }
                    assert(first_index(after, name@) == Some(before.len() as int));
                }
            },
        }
    }

    /// Removes the context named `name`. Where it was the one in use, the
    /// first of the others takes its place, or none where there is no other.
    /// It fails, and changes nothing, where no context has the name.
    pub fn delete_context(&mut self, name: &str) -> (r: Result<(), Error>)
        ensures
            final(self).version == old(self).version,
            final(self).highlights == old(self).highlights,
            old(self).wf() ==> final(self).wf(),
            match r {
                Ok(_) => {
                    &&& first_index(names_of(old(self).contexts@), name@) matches Some(i)
                    &&& final(self).contexts@ == old(self).contexts@.remove(i)
                    &&& if old(self).current_context matches Some(c) && c@ == name@ {
                        if final(self).contexts@.len() == 0 {
                            final(self).current_context is None
                        } else {
                            final(self).current_context matches Some(n) && n@
                                == final(self).contexts@[0].0@
                        }
                    } else {
                        final(self).current_context == old(self).current_context
                    }
                },
                Err(e) => {
                    &&& !old(self).has(name@)
                    &&& final(self).contexts == old(self).contexts
                    &&& final(self).current_context == old(self).current_context
                    &&& e matches Error::Config(m)
                    &&& m@ == not_found_text(name@)
                },
            },
    {
        match find_named(&self.contexts, name) {
            Some(i) => {
                self.contexts.remove(i);
                proof {
                    let before = names_of(old(self).contexts@);
                    let after = names_of(self.contexts@);
                    assert(after =~= before.remove(i as int));
                }
                let was_current = match &self.current_context {
                    Some(c) => text_eq(c.as_str(), name),
                    None => false,
                };
                if was_current {
                    if self.contexts.len() > 0 {
                        self.current_context = Some(self.contexts[0].0.clone());
                    } else {
                        self.current_context = None;
                    }
                }
                Ok(())
            },
            None => Err(not_found(name)),
        }
    }

    /// Gives the context named `old_name` the name `new_name`, and keeps it
    /// the one in use where it was. It fails, and changes nothing, where no
    /// context has the old name or one has the new name already.
    pub fn rename_context(&mut self, old_name: &str, new_name: &str) -> (r: Result<(), Error>)
        ensures
            final(self).version == old(self).version,
            final(self).highlights == old(self).highlights,
            old(self).wf() ==> final(self).wf(),
            match r {
                Ok(_) => {
                    &&& first_index(names_of(old(self).contexts@), old_name@) matches Some(i)
                    &&& !old(self).has(new_name@)
                    &&& final(self).contexts@.len() == old(self).contexts@.len()
                    &&& names_of(final(self).contexts@) == names_of(old(self).contexts@).update(
                        i,
                        new_name@,
                    )
                    &&& forall|j: int|
                        0 <= j < old(self).contexts@.len() ==> final(self).contexts@[j].1 == (
                        #[trigger] old(self).contexts@[j]).1
                    &&& if old(self).current_context matches Some(c) && c@ == old_name@ {
                        final(self).current_context matches Some(n) && n@ == new_name@
                    } else {
                        final(self).current_context == old(self).current_context
                    }
                },
                Err(e) => {
                    &&& final(self).contexts == old(self).contexts
                    &&& final(self).current_context == old(self).current_context
                    &&& e matches Error::Config(m)
                    &&& if !old(self).has(old_name@) {
                        m@ == not_found_text(old_name@)
                    } else {
                        old(self).has(new_name@) && m@ == exists_text(new_name@)
                    }
                },
            },
    {
        let i = match find_named(&self.contexts, old_name) {
            Some(i) => i,
            None => {
                return Err(not_found(old_name));
            },
        };
        if find_named(&self.contexts, new_name).is_some() {
            return Err(already_exists(new_name));
        }
        proof {
            lemma_first_index(names_of(self.contexts@), new_name@);
        }
        let entry = self.contexts.remove(i);
        self.contexts.insert(i, (owned(new_name), entry.1));
        proof {
            assert(names_of(self.contexts@) =~= names_of(old(self).contexts@).update(
                i as int,
                new_name@,
            ));
        }
        let was_current = match &self.current_context {
            Some(c) => text_eq(c.as_str(), old_name),
            None => false,
        };
        if was_current {
            self.current_context = Some(owned(new_name));
        }
        Ok(())
    }

    /// The context named `name`, to change it.
    pub fn get_context_mut(&mut self, name: &str) -> (found: Option<&mut Context>)
        ensures
            match found {
                Some(context) => {
                    &&& first_index(names_of(old(self).contexts@), name@) matches Some(i)
                    &&& *context == old(self).contexts@[i].1
                    &&& final(self).contexts@ == old(self).contexts@.update(
                        i,
                        (old(self).contexts@[i].0, *final(context)),
                    )
                    &&& final(self).current_context == old(self).current_context
                    &&& final(self).version == old(self).version
                    &&& final(self).highlights == old(self).highlights
                },
                None => !old(self).has(name@) && *final(self) == *old(self),
            },
    {
        match find_named(&self.contexts, name) {
            Some(i) => Some(&mut self.contexts[i].1),
            None => None,
        }
    }

    /// The context in use, to change it.
    pub fn current_context_mut(&mut self) -> (found: Option<&mut Context>)
        ensures
            match found {
                Some(context) => {
                    &&& old(self).current_context matches Some(c)
                    &&& first_index(names_of(old(self).contexts@), c@) matches Some(i)
                    &&& *context == old(self).contexts@[i].1
                    &&& final(self).contexts@ == old(self).contexts@.update(
                        i,
                        (old(self).contexts@[i].0, *final(context)),
                    )
                    &&& final(self).current_context == old(self).current_context
                    &&& final(self).version == old(self).version
                    &&& final(self).highlights == old(self).highlights
                },
                None => {
                    &&& old(self).current_context matches Some(c) ==> !old(self).has(c@)
                    &&& *final(self) == *old(self)
                },
            },
    {
        match self.current_context.clone() {
            Some(name) => self.get_context_mut(name.as_str()),
            None => None,
        }
    }

    /// The names of the contexts, in order.
    pub fn context_names(&self) -> (names: Vec<&str>)
        ensures
            names@.len() == self.contexts@.len(),
            forall|i: int| 0 <= i < names@.len() ==> (#[trigger] names@[i])@ == self.contexts@[i].0@,
    {
        let mut names: Vec<&str> = Vec::new();
        let mut i: usize = 0;
        while i < self.contexts.len()
            invariant
                i <= self.contexts.len(),
                names@.len() == i,
                forall|j: int| 0 <= j < i ==> (#[trigger] names@[j])@ == self.contexts@[j].0@,
            decreases self.contexts.len() - i,
        {
            names.push(self.contexts[i].0.as_str());
            i += 1;
        }
        names
    }

    /// Whether there is no context.
    pub fn is_empty(&self) -> (empty: bool)
        ensures
            empty == (self.contexts@.len() == 0),
    {
        self.contexts.len() == 0
    }
}

} // verus!
