//! Where a fan control configuration is looked for.
//!
//! A configuration is asked for by a short name. The loader keeps the list
//! of directories in which configurations may lie and says, for a name,
//! which files would hold it, in the order in which they are to be tried.
//! Whether a file exists, and what it holds, is for the caller to find out.

use vstd::prelude::*;
use vstd::string::{StrSliceExecFns, StringExecFns};

use crate::check::check_control_config;
use crate::error::{ConfigFormat, ErrorKind};
use crate::nbfc::FanControlConfigV2;

verus! {

/// Whether a text holds a character.
pub open spec fn holds_char(text: Seq<char>, wanted: char) -> bool {
    exists|i: int| 0 <= i < text.len() && text[i] == wanted
}

/// Whether a name can be that of a configuration: it holds neither a dot
/// nor a slash.
pub open spec fn is_valid_name(name: Seq<char>) -> bool {
    !holds_char(name, '.') && !holds_char(name, '/')
}

/// The extension of the files of a format.
pub open spec fn extension(format: ConfigFormat) -> Seq<char> {
    match format {
        ConfigFormat::Xml => "xml"@,
        ConfigFormat::Json => "json"@,
    }
}

/// The path of the file `name` in a directory: the two joined by a slash,
/// unless the directory is the empty path or ends in a slash already.
pub open spec fn join(dir: Seq<char>, name: Seq<char>) -> Seq<char> {
    if dir.len() == 0 || dir.last() == '/' {
        dir + name
    } else {
        dir + seq!['/'] + name
    }
}

/// The path of the file that holds the configuration `name` in a
/// directory, in a format.
pub open spec fn config_path(dir: Seq<char>, name: Seq<char>, format: ConfigFormat) -> Seq<char> {
    join(dir, name) + seq!['.'] + extension(format)
}

/// A file that may hold a configuration.
#[derive(Clone, Debug, PartialEq)]
pub struct Candidate {
    pub path: String,
    pub format: ConfigFormat,
}

/// What a [`Candidate`] holds.
pub struct CandidateView {
    pub path: Seq<char>,
    pub format: ConfigFormat,
}

impl View for Candidate {
    type V = CandidateView;

    open spec fn view(&self) -> CandidateView {
        CandidateView { path: self.path@, format: self.format }
    }
}

/// The views of a list of candidates.
pub open spec fn candidate_views(list: Seq<Candidate>) -> Seq<CandidateView> {
    Seq::new(list.len(), |i: int| list[i]@)
}

/// The texts of a list of paths.
pub open spec fn path_texts(paths: Seq<String>) -> Seq<Seq<char>> {
    Seq::new(paths.len(), |i: int| paths[i]@)
}

/// The files that may hold the configuration `name`: for each directory, in
/// order, the file in XML and then the file in JSON.
pub open spec fn candidates_spec(dirs: Seq<Seq<char>>, name: Seq<char>) -> Seq<CandidateView> {
    Seq::new(
        2 * dirs.len(),
        |i: int|
            CandidateView {
                path: config_path(
                    dirs[i / 2],
                    name,
                    if i % 2 == 0 {
                        ConfigFormat::Xml
                    } else {
                        ConfigFormat::Json
                    },
                ),
                format: if i % 2 == 0 {
                    ConfigFormat::Xml
                } else {
                    ConfigFormat::Json
                },
            },
    )
}

/// The place of the first flag that is set.
pub open spec fn first_set(flags: Seq<bool>) -> Option<int>
    decreases flags.len(),
{
    if flags.len() == 0 {
        None
    } else if flags[0] {
        Some(0)
    } else {
        match first_set(flags.subrange(1, flags.len() as int)) {
            Some(i) => Some(i + 1),
            None => None,
        }
    }
}

/// Tells whether a text holds a character.
pub fn text_holds(text: &str, wanted: char) -> (found: bool)
    ensures
        found == holds_char(text@, wanted),
{
    let len = text.unicode_len();
    let mut i: usize = 0;
    while i < len
        invariant
            i <= len,
            len == text@.len(),
            forall|k: int| 0 <= k < i ==> text@[k] != wanted,
        decreases len - i,
    {
        if text.get_char(i) == wanted {
            return true;
        }
        i += 1;
    }
    false
}

/// Builds the path of the file `name` in a directory.
pub fn join_path(dir: &str, name: &str) -> (path: String)
    ensures
        path@ == join(dir@, name@),
{
    let len = dir.unicode_len();
    let mut path = String::from_str(dir);
    if len != 0 && dir.get_char(len - 1) != '/' {
        proof {
            reveal_strlit("/");
            assert("/"@ =~= seq!['/']);
        }
        path.append("/");
    }
    path.append(name);
    path
}

/// Finds the place of the first flag that is set.
pub fn find_first_set(flags: &Vec<bool>) -> (place: Option<usize>)
    ensures
        match place {
            Some(i) => first_set(flags@) == Some(i as int),
            None => first_set(flags@).is_none(),
        },
        place.is_some() ==> place.unwrap() < flags@.len() && flags@[place.unwrap() as int],
{
    let mut i: usize = 0;
    proof {
        assert(flags@.subrange(0, flags@.len() as int) =~= flags@);
    }
    while i < flags.len()
        invariant
            i <= flags@.len(),
            first_set(flags@) == match first_set(flags@.subrange(i as int, flags@.len() as int)) {
                Some(k) => Some(k + i),
                None => None,
            },
        decreases flags@.len() - i,
    {
        proof {
            let rest = flags@.subrange(i as int, flags@.len() as int);
            assert(rest[0] == flags@[i as int]);
            assert(rest.subrange(1, rest.len() as int) =~= flags@.subrange(
                i + 1,
                flags@.len() as int,
            ));
        }
        if flags[i] {
            return Some(i);
        }
        i += 1;
    }
    proof {
        assert(flags@.subrange(i as int, flags@.len() as int).len() == 0);
    }
    None
}

/// Looks fan control configurations up by name in a list of directories.
#[derive(Clone, Debug, PartialEq)]
pub struct ControlConfigLoader {
    pub allowed_paths: Vec<String>,
    /// Whether the directories below an allowed one are allowed too.
    pub follow_dirs: bool,
}

impl Default for ControlConfigLoader {
    fn default() -> (loader: ControlConfigLoader)
        ensures
            loader.allowed_paths@.len() == 0,
            !loader.follow_dirs,
    {
        ControlConfigLoader { allowed_paths: Vec::new(), follow_dirs: false }
    }
}

impl ControlConfigLoader {
    /// The directories in which configurations are looked for, in order.
    pub open spec fn paths(&self) -> Seq<Seq<char>> {
        path_texts(self.allowed_paths@)
    }

    /// Whether a path is one of the allowed directories.
    pub open spec fn allows(&self, path: Seq<char>) -> bool {
        exists|i: int| 0 <= i < self.allowed_paths@.len() && self.allowed_paths@[i]@ == path
    }

    /// The outcome of a look-up: the first candidate whose file exists.
    /// `is_file` says of each candidate, in order, whether its file exists;
    /// a candidate beyond the end of that list counts as missing.
    pub open spec fn lookup(&self, name: Seq<char>, is_file: Seq<bool>) -> Result<
        CandidateView,
        ErrorKind,
    > {
        let found = first_set(is_file);
        if !is_valid_name(name) {
            Err(ErrorKind::ConfigInvalidName)
        } else if found.is_some() && found.unwrap() < candidates_spec(self.paths(), name).len() {
            Ok(candidates_spec(self.paths(), name)[found.unwrap()])
        } else {
            Err(ErrorKind::ConfigNotFound)
        }
    }

    /// A loader without directories.
    pub fn new(follow_dirs: bool) -> (loader: ControlConfigLoader)
        ensures
            loader.allowed_paths@.len() == 0,
            loader.follow_dirs == follow_dirs,
    {
        ControlConfigLoader { allowed_paths: Vec::new(), follow_dirs }
    }

    /// Tells whether a path is one of the allowed directories.
    pub fn contains(&self, p: &str) -> (found: bool)
        ensures
            found == self.allows(p@),
    {
        let wanted = String::from_str(p);
        let mut i: usize = 0;
        while i < self.allowed_paths.len()
            invariant
                i <= self.allowed_paths@.len(),
                wanted@ == p@,
                forall|k: int| 0 <= k < i ==> self.allowed_paths@[k]@ != p@,
            decreases self.allowed_paths@.len() - i,
        {
            if self.allowed_paths[i] == wanted {
                return true;
            }
            i += 1;
        }
        false
    }

    /// Lists the files that may hold the configuration `name`, in the order
    /// in which they are to be tried. A name that holds a dot or a slash is
    /// turned down.
    pub fn candidates(&self, name: &str) -> (list: Result<Vec<Candidate>, ErrorKind>)
        ensures
            is_valid_name(name@) ==> list.is_ok() && candidate_views(list.unwrap()@)
                == candidates_spec(self.paths(), name@),
            !is_valid_name(name@) ==> list == Err::<Vec<Candidate>, _>(
                ErrorKind::ConfigInvalidName,
            ),
    {
        if text_holds(name, '.') || text_holds(name, '/') {
            return Err(ErrorKind::ConfigInvalidName);
        }
        let mut list: Vec<Candidate> = Vec::new();
        let mut i: usize = 0;
        while i < self.allowed_paths.len()
            invariant
                i <= self.allowed_paths@.len(),
                list@.len() == 2 * i,
                forall|k: int|
                    0 <= k < 2 * i ==> (#[trigger] list@[k])@ == candidates_spec(
                        self.paths(),
                        name@,
                    )[k],
            decreases self.allowed_paths@.len() - i,
        {
            let dir = self.allowed_paths[i].as_str();
            proof {
                reveal_strlit(".xml");
                reveal_strlit(".json");
                reveal_strlit("xml");
                reveal_strlit("json");
                assert(".xml"@ =~= seq!['.'] + "xml"@);
                assert(".json"@ =~= seq!['.'] + "json"@);
                assert(self.paths()[i as int] == dir@);
            }
            let mut xml = join_path(dir, name);
            xml.append(".xml");
            let mut json = join_path(dir, name);
            json.append(".json");
            proof {
                assert(xml@ =~= config_path(dir@, name@, ConfigFormat::Xml));
                assert(json@ =~= config_path(dir@, name@, ConfigFormat::Json));
            }
            list.push(Candidate { path: xml, format: ConfigFormat::Xml });
            list.push(Candidate { path: json, format: ConfigFormat::Json });
            i += 1;
        }
        proof {
            assert(candidate_views(list@) =~= candidates_spec(self.paths(), name@));
        }
        Ok(list)
    }

    /// Picks the file that holds the configuration `name`: the first
    /// candidate whose file exists. `is_file` says of each candidate of
    /// [`Self::candidates`], in order, whether its file exists.
    pub fn get_file_path(&self, name: &str, is_file: &Vec<bool>) -> (found: Result<
        Candidate,
        ErrorKind,
    >)
        ensures
            match self.lookup(name@, is_file@) {
                Ok(view) => found.is_ok() && found.unwrap()@ == view,
                Err(kind) => found == Err::<Candidate, _>(kind),
            },
    {
        match self.candidates(name) {
            Err(kind) => Err(kind),
            Ok(mut list) => {
                match find_first_set(is_file) {
                    Some(place) => {
                        if place < list.len() {
                            let ghost views = candidate_views(list@);
                            assert(views[place as int] == list@[place as int]@);
                            Ok(list.swap_remove(place))
                        } else {
                            Err(ErrorKind::ConfigNotFound)
                        }
                    },
                    None => Err(ErrorKind::ConfigNotFound),
                }
            },
        }
    }

    /// Tells whether a configuration that was read can be taken: always
    /// where it is not to be checked, and else where it keeps the rules.
    pub fn test_control_config(&self, config: &FanControlConfigV2, check_config: bool) -> (outcome:
        Result<(), ErrorKind>)
        ensures
            outcome == if !check_config {
                Ok::<(), ErrorKind>(())
            } else {
                match config@.check() {
                    Ok(()) => Ok::<(), ErrorKind>(()),
                    Err(rule) => Err::<(), _>(ErrorKind::ConfigValidation(rule)),
                }
            },
    {
        if !check_config {
            return Ok(());
        }
        match check_control_config(config) {
            Ok(()) => Ok(()),
            Err(rule) => Err(ErrorKind::ConfigValidation(rule)),
        }
    }
}


/// A directory and the directories in it.
#[derive(Debug)]
pub struct DirTree {
    pub path: String,
    pub children: Vec<DirTree>,
}

/// The paths after a directory was allowed: as they were, where the
/// directory is among them; else with the directory behind them and, where
/// directories are followed, with the directories below it in between.
pub open spec fn allow_tree(paths: Seq<Seq<char>>, tree: DirTree, follow: bool) -> Seq<Seq<char>>
    decreases tree, 1nat, 0nat,
{
    if paths.contains(tree.path@) {
        paths
    } else if follow {
        allow_children(paths, tree, tree.children.len() as nat, follow).push(tree.path@)
    } else {
        paths.push(tree.path@)
    }
}

/// The paths after the first `count` directories in a directory were
/// allowed, one after the other.
pub open spec fn allow_children(
    paths: Seq<Seq<char>>,
    tree: DirTree,
    count: nat,
    follow: bool,
) -> Seq<Seq<char>>
    decreases tree, 0nat, count,
{
    if count == 0 || count > tree.children.len() {
        paths
    } else {
        allow_tree(
            allow_children(paths, tree, (count - 1) as nat, follow),
            tree.children[count - 1],
            follow,
        )
    }
}

impl ControlConfigLoader {
    /// Allows a directory and, where `follow_dirs` is set, the directories
    /// below it, each before the one that it lies in, and tells whether the
    /// directory was new. A directory that is allowed already is passed
    /// over, with all that lies below it.
    pub fn add_path(&mut self, tree: &DirTree) -> (added: bool)
        ensures
            final(self).follow_dirs == old(self).follow_dirs,
            final(self).paths() == allow_tree(old(self).paths(), *tree, old(self).follow_dirs),
            added == !old(self).paths().contains(tree.path@),
        decreases tree, 1nat,
    {
        if self.contains(tree.path.as_str()) {
            proof {
                let i = choose|i: int|
                    0 <= i < self.allowed_paths@.len() && self.allowed_paths@[i]@ == tree.path@;
                assert(self.paths()[i] == tree.path@);
            }
            return false;
        }
        proof {
            if self.paths().contains(tree.path@) {
                let i = choose|i: int| 0 <= i < self.paths().len() && self.paths()[i] == tree.path@;
                assert(self.allowed_paths@[i]@ == tree.path@);
            }
        }
        if self.follow_dirs {
            let mut i: usize = 0;
            while i < tree.children.len()
                invariant
                    i <= tree.children@.len(),
                    self.follow_dirs == old(self).follow_dirs,
                    self.paths() == allow_children(
                        old(self).paths(),
                        *tree,
                        i as nat,
                        old(self).follow_dirs,
                    ),
                decreases tree.children@.len() - i,
            {
                self.add_path(&tree.children[i]);
                i += 1;
            }
        }
        let ghost before = self.paths();
        self.allowed_paths.push(tree.path.clone());
        proof {
            assert(self.paths() =~= before.push(tree.path@));
        }
        true
    }
}


/// A directory that was allowed is among the paths.
pub proof fn lemma_allowed_is_listed(paths: Seq<Seq<char>>, tree: DirTree, follow: bool)
    ensures
        allow_tree(paths, tree, follow).contains(tree.path@),
{
    let after = allow_tree(paths, tree, follow);
    if !paths.contains(tree.path@) {
        assert(after.last() == tree.path@);
    }
}

/// Allowing a directory a second time changes nothing.
pub proof fn lemma_allow_twice(paths: Seq<Seq<char>>, tree: DirTree, follow: bool)
    ensures
        allow_tree(allow_tree(paths, tree, follow), tree, follow) == allow_tree(
            paths,
            tree,
            follow,
        ),
{
    lemma_allowed_is_listed(paths, tree, follow);
}

/// Allowing directories never takes a path away: what was allowed stays,
/// in its place.
pub proof fn lemma_allow_keeps_paths(paths: Seq<Seq<char>>, tree: DirTree, follow: bool)
    ensures
        paths.len() <= allow_tree(paths, tree, follow).len(),
        allow_tree(paths, tree, follow).subrange(0, paths.len() as int) == paths,
    decreases tree, 1nat, 0nat,
{
    if paths.contains(tree.path@) {
        assert(paths.subrange(0, paths.len() as int) =~= paths);
    } else if follow {
        lemma_allow_children_keeps_paths(paths, tree, tree.children.len() as nat, follow);
        let inner = allow_children(paths, tree, tree.children.len() as nat, follow);
        assert(inner.push(tree.path@).subrange(0, paths.len() as int) =~= inner.subrange(
            0,
            paths.len() as int,
        ));
    } else {
        assert(paths.push(tree.path@).subrange(0, paths.len() as int) =~= paths);
    }
}

/// Allowing the directories in a directory never takes a path away.
pub proof fn lemma_allow_children_keeps_paths(
    paths: Seq<Seq<char>>,
    tree: DirTree,
    count: nat,
    follow: bool,
)
    ensures
        paths.len() <= allow_children(paths, tree, count, follow).len(),
        allow_children(paths, tree, count, follow).subrange(0, paths.len() as int) == paths,
    decreases tree, 0nat, count,
{
    if count == 0 || count > tree.children.len() {
        assert(paths.subrange(0, paths.len() as int) =~= paths);
    } else {
        let before = allow_children(paths, tree, (count - 1) as nat, follow);
        lemma_allow_children_keeps_paths(paths, tree, (count - 1) as nat, follow);
        lemma_allow_keeps_paths(before, tree.children[count - 1], follow);
        let after = allow_tree(before, tree.children[count - 1], follow);
        assert(after.subrange(0, paths.len() as int) =~= after.subrange(
            0,
            before.len() as int,
        ).subrange(0, paths.len() as int));
    }
}

} // verus!
