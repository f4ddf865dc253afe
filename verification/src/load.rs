//! Loading the configuration: where it lives, how declared paths are
//! expanded, and how the outcomes of path resolution become a configuration
//! or an error.
use vstd::prelude::*;
use vstd::string::StringExecFns;
use crate::config::{Category, CategoryView, Config, ConfigView};

verus! {

/// Why the configuration could not be loaded.
#[derive(Debug, PartialEq, Eq)]
pub enum LoadError {
    /// There is no configuration file at `path`.
    ConfigMissing { path: String },
    /// The configuration file does not have the expected form.
    ConfigParseError { message: String },
    /// The declared `path` does not lead to an existing file.
    PathResolutionError { path: String },
}

/// A type of `directories`: the directories of one application.
#[verifier::external_type_specification]
#[verifier::external_body]
pub struct ExProjectDirs(directories::ProjectDirs);

/// Trusted: `ProjectDirs::from` of `directories`. What it returns depends on
/// the platform and the user's environment, so nothing is stated of it.
#[verifier::external_body]
fn project_dirs(qualifier: &str, organization: &str, application: &str) -> Option<
    directories::ProjectDirs,
> {
    directories::ProjectDirs::from(qualifier, organization, application)
}

/// Trusted: `ProjectDirs::config_dir` of `directories`, as text where the
/// directory's name is valid Unicode. Nothing is stated of it.
#[verifier::external_body]
fn config_dir(dirs: &directories::ProjectDirs) -> Option<String> {
    dirs.config_dir().to_str().map(str::to_owned)
}

/// The path that `Path::join` of the standard library makes of the directory
/// `dir` and the path `file` on the platform that the library is built for.
pub uninterp spec fn path_join(dir: Seq<char>, file: Seq<char>) -> Seq<char>;

/// Trusted: `Path::join` of the standard library on two texts. The result
/// is a matter of the two texts alone and is known by the name `path_join`;
/// how the two are put together depends on the platform and is left open.
#[verifier::external_body]
fn join_path(dir: &str, file: &str) -> (joined: String)
    ensures
        joined@ == path_join(dir@, file@),
{
    std::path::Path::new(dir).join(file).to_string_lossy().into_owned()
}

/// A path that does not begin with a tilde.
pub open spec fn is_plain(path: Seq<char>) -> bool {
    path.len() == 0 || path[0] != '~'
}

/// What is known of the expansion of `path`: a path that does not begin with
/// a tilde is kept as it is.
pub open spec fn expansion_keeps_plain(path: Seq<char>, expanded: Option<String>) -> bool {
    is_plain(path) ==> expanded is Some && expanded.unwrap()@ == path
}

/// Trusted: `expand_tilde` of `nu_path`, as text where the result is valid
/// Unicode. A path whose first character is no tilde comes back unchanged;
/// what a leading tilde is replaced by depends on the user's environment and
/// is left open.
#[verifier::external_body]
fn expand_tilde(path: &str) -> (expanded: Option<String>)
    ensures
        expansion_keeps_plain(path@, expanded),
{
    nu_path::expand_tilde(path).into_os_string().into_string().ok()
}

/// Whether `Path::is_absolute` of the standard library holds of `path` on
/// the platform that the library is built for.
pub uninterp spec fn path_is_absolute(path: Seq<char>) -> bool;

/// Trusted: `Path::is_absolute` of the standard library on a text. The
/// answer is a matter of the text alone and is known by the name
/// `path_is_absolute`; what makes a path absolute depends on the platform and
/// is left open.
#[verifier::external_body]
fn is_absolute(path: &str) -> (absolute: bool)
    ensures
        absolute == path_is_absolute(path@),
{
    std::path::Path::new(path).is_absolute()
}

/// The canonical form that resolving path `j` of category `i` gave. A
/// missing outcome counts as a failure, and so does one that is no absolute
/// path, which no canonical form is.
pub open spec fn outcome_at(canonical: Seq<Vec<Option<String>>>, i: int, j: int) -> Option<
    Seq<char>,
> {
    if 0 <= i < canonical.len() && 0 <= j < canonical[i].len() {
        match canonical[i][j] {
            Some(path) => if path_is_absolute(path@) {
                Some(path@)
            } else {
                None
            },
            None => None,
        }
    } else {
        None
    }
}

/// Every path of `config` is absolute.
pub open spec fn all_absolute(config: ConfigView) -> bool {
    forall|i: int, j: int|
        0 <= i < config.categories.len() && 0 <= j < config.categories[i].paths.len()
            ==> path_is_absolute(#[trigger] config.categories[i].paths[j])
}

/// Path `j` of category `i` was resolved.
pub open spec fn resolved_at(canonical: Seq<Vec<Option<String>>>, i: int, j: int) -> bool {
    outcome_at(canonical, i, j) is Some
}

/// The first `n` paths of category `i` were resolved.
pub open spec fn paths_resolved(canonical: Seq<Vec<Option<String>>>, i: int, n: int) -> bool {
    forall|j: int| 0 <= j < n ==> resolved_at(canonical, i, j)
}

/// Every path of each of the first `n` categories was resolved.
pub open spec fn categories_resolved(
    declared: Seq<CategoryView>,
    canonical: Seq<Vec<Option<String>>>,
    n: int,
) -> bool {
    forall|i: int|
        0 <= i < n ==> paths_resolved(canonical, i, (#[trigger] declared[i]).paths.len() as int)
}

/// Path `j` of category `i` is the first, in declared order, that was not
/// resolved.
pub open spec fn first_unresolved(
    declared: Seq<CategoryView>,
    canonical: Seq<Vec<Option<String>>>,
    i: int,
    j: int,
) -> bool {
    &&& 0 <= i < declared.len()
    &&& 0 <= j < declared[i].paths.len()
    &&& !resolved_at(canonical, i, j)
    &&& paths_resolved(canonical, i, j)
    &&& categories_resolved(declared, canonical, i)
}

/// `resolved` is category `i`, `declared`, with each path replaced by the
/// canonical form that resolving it gave.
pub open spec fn is_resolved_category(
    declared: CategoryView,
    canonical: Seq<Vec<Option<String>>>,
    i: int,
    resolved: CategoryView,
) -> bool {
    &&& resolved.name == declared.name
    &&& resolved.paths.len() == declared.paths.len()
    &&& forall|j: int|
        0 <= j < declared.paths.len() ==> #[trigger] resolved.paths[j] == outcome_at(
            canonical,
            i,
            j,
        ).unwrap()
}

/// `resolved` is `declared` with every path replaced by the canonical form
/// that resolving it gave: same viewer argument, same categories in the same
/// order.
pub open spec fn is_resolution(
    declared: ConfigView,
    canonical: Seq<Vec<Option<String>>>,
    resolved: ConfigView,
) -> bool {
    &&& resolved.feh_arg == declared.feh_arg
    &&& resolved.categories.len() == declared.categories.len()
    &&& forall|i: int|
        0 <= i < declared.categories.len() ==> is_resolved_category(
            declared.categories[i],
            canonical,
            i,
            #[trigger] resolved.categories[i],
        )
}

/// The text that reports `error`.
pub open spec fn description(error: LoadError) -> Seq<char> {
    match error {
        LoadError::ConfigMissing { path } => "Config file "@ + path@
            + " does not exist. An example config file can be found in the repo."@,
        LoadError::ConfigParseError { message } => message@,
        LoadError::PathResolutionError { path } => "file does not exist: "@ + path@,
    }
}

impl LoadError {
    /// The text that reports this error.
    pub fn describe(&self) -> (text: String)
        ensures
            text@ == description(*self),
    {
        match self {
            LoadError::ConfigMissing { path } => {
                let mut text = "Config file ".to_owned();
                text.append(path.as_str());
                text.append(" does not exist. An example config file can be found in the repo.");
                text
            },
            LoadError::ConfigParseError { message } => message.clone(),
            LoadError::PathResolutionError { path } => {
                let mut text = "file does not exist: ".to_owned();
                text.append(path.as_str());
                text
            },
        }
    }
}

/// Where the configuration file is expected, or nothing where the platform
/// names no configuration directory that is valid Unicode. The platform is
/// asked for the directory of the application that `application_identity`
/// names. Which directory it gives is left open; the path is the
/// configuration file in that directory.
pub fn config_file_path() -> (path: Option<String>)
    ensures
        path is Some ==> exists|dir: Seq<char>|
            path.unwrap()@ == #[trigger] config_file_of(dir),
{
    let id = application_identity();
    let dir = match project_dirs(id.0, id.1, id.2) {
        Some(dirs) => config_dir(&dirs),
        None => None,
    };
    config_file_in(dir)
}

/// The identifiers under which the platform keeps the application's
/// directories: the qualifier, the organization and the application's name.
pub fn application_identity() -> (id: (&'static str, &'static str, &'static str))
    ensures
        id.0@ == "com"@,
        id.1@ == "bootstrap"@,
        id.2@ == "random-background"@,
{
    ("com", "bootstrap", "random-background")
}

/// The path of the configuration file in the directory `dir`: the file name
/// `config.toml` joined to the directory.
pub open spec fn config_file_of(dir: Seq<char>) -> Seq<char> {
    path_join(dir, "config.toml"@)
}

/// The configuration file in the application's configuration directory, or
/// nothing where there is no such directory.
pub fn config_file_in(dir: Option<String>) -> (path: Option<String>)
    ensures
        match dir {
            Some(dir) => path is Some && path.unwrap()@ == config_file_of(dir@),
            None => path is None,
        },
{
    match dir {
        Some(dir) => Some(join_path(dir.as_str(), "config.toml")),
        None => None,
    }
}

/// Accepts the configuration file at `path` where it is present, and reports
/// it as missing, by that path, where it is not.
pub fn require_present(path: &str, present: bool) -> (outcome: Result<(), LoadError>)
    ensures
        match outcome {
            Ok(_) => present,
            Err(LoadError::ConfigMissing { path: missing }) => !present && missing@ == path@,
            Err(_) => false,
        },
{
    if present {
        Ok(())
    } else {
        Err(LoadError::ConfigMissing { path: path.to_owned() })
    }
}

/// The paths to resolve: each declared path with a leading tilde expanded to
/// the user's home directory, category by category in declared order. A path
/// without a leading tilde is its own expansion; an expansion that is no
/// valid Unicode is left out as nothing.
pub fn expansion_targets(declared: &Config) -> (targets: Vec<Vec<Option<String>>>)
    ensures
        targets.len() == declared@.categories.len(),
        forall|i: int|
            0 <= i < targets.len() ==> (#[trigger] targets[i]).len()
                == declared@.categories[i].paths.len(),
        forall|i: int, j: int|
            0 <= i < targets.len() && 0 <= j < targets[i].len() ==> expansion_keeps_plain(
                declared@.categories[i].paths[j],
                #[trigger] targets[i][j],
            ),
{
    let mut targets: Vec<Vec<Option<String>>> = Vec::new();
    let mut i: usize = 0;
    while i < declared.categories.len()
        invariant
            i <= declared.categories.len(),
            targets.len() == i,
            forall|k: int|
                0 <= k < i ==> (#[trigger] targets[k]).len() == declared.categories[k].paths.len(),
            forall|k: int, j: int|
                0 <= k < i && 0 <= j < targets[k].len() ==> expansion_keeps_plain(
                    declared.categories[k].paths[j]@,
                    #[trigger] targets[k][j],
                ),
        decreases declared.categories.len() - i,
    {
        let category = &declared.categories[i];
        let mut row: Vec<Option<String>> = Vec::new();
        let mut j: usize = 0;
        while j < category.paths.len()
            invariant
                j <= category.paths.len(),
                row.len() == j,
                forall|m: int|
                    0 <= m < j ==> expansion_keeps_plain(category.paths[m]@, #[trigger] row[m]),
            decreases category.paths.len() - j,
        {
            row.push(expand_tilde(category.paths[j].as_str()));
            j += 1;
        }
        targets.push(row);
        i += 1;
    }
    targets
}

/// The canonical form that resolving path `j` of category `i` gave, where
/// there is one and it is an absolute path.
fn canonical_form<'a>(canonical: &'a Vec<Vec<Option<String>>>, i: usize, j: usize) -> (found: Option<
    &'a String,
>)
    ensures
        match found {
            Some(path) => outcome_at(canonical@, i as int, j as int) == Some(path@),
            None => outcome_at(canonical@, i as int, j as int) is None,
        },
{
    if i < canonical.len() && j < canonical[i].len() {
        match &canonical[i][j] {
            Some(path) => if is_absolute(path.as_str()) {
                Some(path)
            } else {
                None
            },
            None => None,
        }
    } else {
        None
    }
}

/// Builds the loaded configuration from the declared one and the outcomes of
/// resolving its paths: `canonical[i][j]` is the canonical form of path `j`
/// of category `i`, or nothing where it does not lead to an existing file.
/// An outcome that is no absolute path is no canonical form and counts as
/// nothing.
///
/// Where every path was resolved the result is the declared configuration
/// with each path replaced by its canonical form, so every path of it is
/// absolute. Otherwise the load fails as a whole, naming the first declared
/// path that was not resolved.
pub fn resolve_categories(
    declared: &Config,
    canonical: &Vec<Vec<Option<String>>>,
) -> (outcome: Result<Config, LoadError>)
    ensures
        match outcome {
            Ok(resolved) => {
                &&& categories_resolved(
                    declared@.categories,
                    canonical@,
                    declared@.categories.len() as int,
                )
                &&& is_resolution(declared@, canonical@, resolved@)
                &&& all_absolute(resolved@)
            },
            Err(LoadError::PathResolutionError { path }) => exists|i: int, j: int|
                #[trigger] first_unresolved(declared@.categories, canonical@, i, j) && path@
                    == declared@.categories[i].paths[j],
            Err(_) => false,
        },
{
    let mut categories: Vec<Category> = Vec::new();
    let mut i: usize = 0;
    while i < declared.categories.len()
        invariant
            i <= declared.categories.len(),
            categories.len() == i,
            categories_resolved(declared@.categories, canonical@, i as int),
            forall|k: int|
                0 <= k < i ==> is_resolved_category(
                    declared@.categories[k],
                    canonical@,
                    k,
                    (#[trigger] categories[k])@,
                ),
        decreases declared.categories.len() - i,
    {
        let category = &declared.categories[i];
        let mut paths: Vec<String> = Vec::new();
        let mut j: usize = 0;
        while j < category.paths.len()
            invariant
                i < declared.categories.len(),
                *category == declared.categories[i as int],
                categories_resolved(declared@.categories, canonical@, i as int),
                j <= category.paths.len(),
                paths.len() == j,
                paths_resolved(canonical@, i as int, j as int),
                forall|m: int|
                    0 <= m < j ==> (#[trigger] paths[m])@ == outcome_at(
                        canonical@,
                        i as int,
                        m,
                    ).unwrap(),
            decreases category.paths.len() - j,
        {
            match canonical_form(canonical, i, j) {
                Some(path) => {
                    paths.push(path.clone());
                },
                None => {
                    let path = category.paths[j].clone();
                    assert(first_unresolved(declared@.categories, canonical@, i as int, j as int));
                    return Err(LoadError::PathResolutionError { path });
                },
            }
            j += 1;
        }
        categories.push(Category { name: category.name.clone(), paths });
        i += 1;
    }
    let resolved = Config { categories, feh_arg: declared.feh_arg.clone() };
    proof {
        lemma_resolution_is_absolute(declared@, canonical@, resolved@);
    }
    Ok(resolved)
}

/// A configuration whose paths were all resolved holds absolute paths only,
/// whatever the declared paths were.
pub proof fn lemma_resolution_is_absolute(
    declared: ConfigView,
    canonical: Seq<Vec<Option<String>>>,
    resolved: ConfigView,
)
    requires
        categories_resolved(declared.categories, canonical, declared.categories.len() as int),
        is_resolution(declared, canonical, resolved),
    ensures
        all_absolute(resolved),
{
    assert forall|i: int, j: int|
        0 <= i < resolved.categories.len() && 0 <= j < resolved.categories[i].paths.len()
        implies path_is_absolute(#[trigger] resolved.categories[i].paths[j]) by {
        assert(is_resolved_category(declared.categories[i], canonical, i, resolved.categories[i]));
        assert(paths_resolved(canonical, i, declared.categories[i].paths.len() as int));
        assert(resolved_at(canonical, i, j));
    }
}

/// Loading again what was loaded changes nothing: where the paths resolve to
/// the same canonical forms, a second resolution gives the configuration
/// that the first one gave.
pub proof fn lemma_resolution_is_stable(
    declared: ConfigView,
    canonical: Seq<Vec<Option<String>>>,
    first: ConfigView,
    second: ConfigView,
)
    requires
        is_resolution(declared, canonical, first),
        is_resolution(first, canonical, second),
    ensures
        second == first,
{
    assert forall|i: int| 0 <= i < first.categories.len() implies second.categories[i]
        == first.categories[i] by {
        assert(is_resolved_category(declared.categories[i], canonical, i, first.categories[i]));
        assert(is_resolved_category(first.categories[i], canonical, i, second.categories[i]));
        assert(second.categories[i].paths =~= first.categories[i].paths);
    }
    assert(second.categories =~= first.categories);
}

} // verus!
