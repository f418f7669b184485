//! The configurations that lie in the directory of the daemon, and the one
//! in use.

use vstd::prelude::*;
use vstd::string::{StrSliceExecFns, StringExecFns};

use crate::error::ErrorKind;
use crate::nbfc::FanControlConfigV2;

verus! {

/// The directory in which the configurations of the daemon lie.
pub const DEFAULT_PATH: &'static str = "/etc/fancy/configs/";

/// Whether a position is the last one at which a file name holds a dot.
pub open spec fn is_last_dot(name: Seq<char>, at: int) -> bool {
    &&& 0 <= at < name.len()
    &&& name[at] == '.'
    &&& forall|k: int| at < k < name.len() ==> name[k] != '.'
}

/// The stem of a file name: the part before its last dot, and the whole
/// name where it holds no dot or its only dot comes first.
pub open spec fn file_stem(name: Seq<char>) -> Seq<char> {
    if exists|at: int| 0 < at && is_last_dot(name, at) {
        let at = choose|at: int| 0 < at && is_last_dot(name, at);
        name.subrange(0, at)
    } else {
        name
    }
}

/// Gives the stem of a file name.
pub fn stem_of(name: &str) -> (stem: String)
    ensures
        stem@ == file_stem(name@),
{
    let len = name.unicode_len();
    let mut at: usize = len;
    while at > 0 && name.get_char(at - 1) != '.'
        invariant
            at <= len,
            len == name@.len(),
            forall|k: int| at <= k < len ==> name@[k] != '.',
        decreases at,
    {
        at -= 1;
    }
    if at > 1 {
        let dot: usize = at - 1;
        proof {
            assert(is_last_dot(name@, dot as int));
            let chosen = choose|p: int| 0 < p && is_last_dot(name@, p);
            assert(chosen == dot) by {
                if chosen < dot {
                    assert(name@[dot as int] != '.');
                } else if chosen > dot {
                    assert(name@[chosen] != '.');
                }
            }
        }
        String::from_str(name.substring_char(0, dot))
    } else {
        proof {
            assert forall|p: int| 0 < p implies !is_last_dot(name@, p) by {
                if is_last_dot(name@, p) {
                    if at == 1 {
                        assert(name@[0] == '.');
                    }
                    assert(p >= at);
                    assert(name@[p] != '.');
                }
            }
        }
        String::from_str(name)
    }
}

/// Whether a list of texts holds a text.
pub open spec fn has_text(list: Seq<String>, text: Seq<char>) -> bool {
    exists|a: int| 0 <= a < list.len() && (#[trigger] list[a])@ == text
}

/// Whether no text is twice in a list.
pub open spec fn no_text_twice(list: Seq<String>) -> bool {
    forall|a: int, b: int|
        0 <= a < b < list.len() ==> (#[trigger] list[a])@ != (#[trigger] list[b])@
}

/// Whether one of the first `upto` file names has the stem `stem`.
pub open spec fn has_stem(names: Seq<String>, upto: int, stem: Seq<char>) -> bool {
    exists|k: int| 0 <= k < upto && k < names.len() && file_stem((#[trigger] names[k])@) == stem
}

/// One more file name adds its stem to the stems at hand and nothing else.
proof fn lemma_has_stem_next(names: Seq<String>, upto: int, stem: Seq<char>)
    requires
        0 <= upto < names.len(),
    ensures
        has_stem(names, upto + 1, stem) <==> (has_stem(names, upto, stem) || file_stem(
            names[upto]@,
        ) == stem),
{
    if has_stem(names, upto + 1, stem) {
        let k = choose|k: int|
            0 <= k < upto + 1 && k < names.len() && file_stem((#[trigger] names[k])@) == stem;
        if k < upto {
            assert(has_stem(names, upto, stem));
        }
    }
    if has_stem(names, upto, stem) {
        let k = choose|k: int|
            0 <= k < upto && k < names.len() && file_stem((#[trigger] names[k])@) == stem;
        assert(0 <= k < upto + 1 && file_stem(names[k]@) == stem);
    }
    if file_stem(names[upto]@) == stem {
        assert(0 <= upto < upto + 1 && file_stem(names[upto]@) == stem);
    }
}

/// Puts a text into a list unless the list holds it.
fn insert_once(list: &mut Vec<String>, text: String)
    requires
        no_text_twice(old(list)@),
    ensures
        no_text_twice(final(list)@),
        forall|other: Seq<char>|
            has_text(final(list)@, other) <==> (has_text(old(list)@, other) || other == text@),
{
    let mut j: usize = 0;
    while j < list.len()
        invariant
            j <= list@.len(),
            list@ == old(list)@,
            no_text_twice(list@),
            forall|a: int| 0 <= a < j ==> (#[trigger] list@[a])@ != text@,
        decreases list@.len() - j,
    {
        if list[j] == text {
            proof {
                assert forall|other: Seq<char>| has_text(list@, other) <==> (has_text(
                    old(list)@,
                    other,
                ) || other == text@) by {
                    if other == text@ {
                        assert(list@[j as int]@ == other);
                    }
                }
            }
            return ;
        }
        j += 1;
    }
    let ghost before = list@;
    let ghost added = text@;
    list.push(text);
    proof {
        assert forall|a: int, b: int| 0 <= a < b < list@.len() implies (#[trigger] list@[a])@ != (
        #[trigger] list@[b])@ by {
            assert(list@[a] == before[a]);
            if b < before.len() {
                assert(list@[b] == before[b]);
            }
        }
        assert forall|other: Seq<char>| has_text(list@, other) <==> (has_text(before, other)
            || other == added) by {
            if has_text(list@, other) {
                let a = choose|a: int| 0 <= a < list@.len() && (#[trigger] list@[a])@ == other;
                if a < before.len() {
                    assert(before[a]@ == other);
                }
            }
            if has_text(before, other) {
                let a = choose|a: int| 0 <= a < before.len() && (#[trigger] before[a])@ == other;
                assert(list@[a]@ == other);
            }
            if other == added {
                assert(list@[before.len() as int]@ == other);
            }
        }
    }
}

/// Knows the configurations that lie in the directory of the daemon and
/// keeps the one in use.
#[derive(Clone, Debug, PartialEq)]
pub struct Loader {
    /// Names of the configurations, each once.
    pub configs: Vec<String>,
    /// Name and content of the configuration in use.
    pub current_config: Option<(String, FanControlConfigV2)>,
}

impl Loader {
    /// Whether a name is among the configurations.
    pub open spec fn lists(&self, name: Seq<char>) -> bool {
        has_text(self.configs@, name)
    }

    /// Whether no name is there twice.
    pub open spec fn wf(&self) -> bool {
        no_text_twice(self.configs@)
    }

    /// A loader that knows no configuration.
    pub fn new() -> (loader: Loader)
        ensures
            loader.configs@.len() == 0,
            loader.current_config.is_none(),
            loader.wf(),
    {
        Loader { configs: Vec::new(), current_config: None }
    }

    /// Tells whether a name is among the configurations.
    pub fn contains(&self, name: &str) -> (found: bool)
        ensures
            found == self.lists(name@),
    {
        let wanted = String::from_str(name);
        let mut i: usize = 0;
        while i < self.configs.len()
            invariant
                i <= self.configs@.len(),
                wanted@ == name@,
                forall|k: int| 0 <= k < i ==> (#[trigger] self.configs@[k])@ != name@,
            decreases self.configs@.len() - i,
        {
            if self.configs[i] == wanted {
                return true;
            }
            i += 1;
        }
        false
    }

    /// Takes the names of the files of the directory: the configurations
    /// are from now on the stems of these names, each once.
    pub fn refresh_available(&mut self, file_names: &Vec<String>)
        ensures
            final(self).wf(),
            final(self).current_config == old(self).current_config,
            forall|name: Seq<char>|
                final(self).lists(name) <==> has_stem(file_names@, file_names@.len() as int, name),
    {
        let mut configs: Vec<String> = Vec::new();
        let mut i: usize = 0;
        while i < file_names.len()
            invariant
                i <= file_names@.len(),
                no_text_twice(configs@),
                forall|name: Seq<char>|
                    has_text(configs@, name) <==> has_stem(file_names@, i as int, name),
            decreases file_names@.len() - i,
        {
            let stem = stem_of(file_names[i].as_str());
            let ghost before = configs@;
            insert_once(&mut configs, stem);
            proof {
                assert forall|name: Seq<char>| has_text(configs@, name) <==> has_stem(
                    file_names@,
                    i + 1,
                    name,
                ) by {
                    lemma_has_stem_next(file_names@, i as int, name);
                }
            }
            i += 1;
        }
        self.configs = configs;
        proof {
            assert forall|name: Seq<char>| self.lists(name) <==> has_stem(
                file_names@,
                file_names@.len() as int,
                name,
            ) by {
                assert(self.lists(name) == has_text(self.configs@, name));
            }
        }
    }

    /// Takes a configuration into use, given the outcome of reading it. A
    /// name that is not among the configurations is turned down with
    /// `ConfigNotFound`, and a configuration that could not be read with its
    /// own error; in both cases the configuration in use stays.
    pub fn load(&mut self, config_name: &str, loaded: Result<FanControlConfigV2, ErrorKind>) -> (outcome:
        Result<(), ErrorKind>)
        ensures
            final(self).configs == old(self).configs,
            !old(self).lists(config_name@) ==> outcome == Err::<(), _>(ErrorKind::ConfigNotFound)
                && final(self).current_config == old(self).current_config,
            old(self).lists(config_name@) ==> match loaded {
                Ok(config) => outcome.is_ok() && final(self).current_name() == config_name@
                    && final(self).current_config.is_some() && final(self).current_config.unwrap().1
                    == config,
                Err(kind) => outcome == Err::<(), _>(kind) && final(self).current_config
                    == old(self).current_config,
            },
    {
        if !self.contains(config_name) {
            return Err(ErrorKind::ConfigNotFound);
        }
        match loaded {
            Ok(config) => {
                self.current_config = Some((String::from_str(config_name), config));
                Ok(())
            },
            Err(kind) => Err(kind),
        }
    }

    /// The name of the configuration in use; the empty text where there is
    /// none.
    pub open spec fn current_name(&self) -> Seq<char> {
        match self.current_config {
            Some(current) => current.0@,
            None => Seq::empty(),
        }
    }

    /// Gives the name of the configuration in use, or the empty text.
    pub fn current_config(&self) -> (name: String)
        ensures
            name@ == self.current_name(),
    {
        match &self.current_config {
            Some(current) => current.0.clone(),
            None => String::new(),
        }
    }
}

} // verus!
