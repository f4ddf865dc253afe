use random_background::config::{Category, Config};
use random_background::load::{
    application_identity, config_file_in, config_file_path, expansion_targets, require_present,
    resolve_categories, LoadError,
};

fn texts(items: &[&str]) -> Vec<String> {
    items.iter().map(|s| s.to_string()).collect()
}

fn declared() -> Config {
    Config {
        categories: vec![
            Category { name: "nature".to_string(), paths: texts(&["~/pics/a.jpg"]) },
            Category { name: "city".to_string(), paths: texts(&["pics/b.jpg", "/pics/../pics/c.jpg"]) },
        ],
        feh_arg: "--bg-fill".to_string(),
    }
}

fn some(s: &str) -> Option<String> {
    Some(s.to_string())
}

#[test]
fn missing_config_names_the_expected_path() {
    let path = "/home/alice/.config/random-background/config.toml";
    let outcome = require_present(path, false);
    assert_eq!(outcome, Err(LoadError::ConfigMissing { path: path.to_string() }));
    assert_eq!(
        outcome.unwrap_err().describe(),
        "Config file /home/alice/.config/random-background/config.toml does not exist. An example config file can be found in the repo."
    );
}

#[test]
fn present_config_is_accepted() {
    assert_eq!(require_present("/etc/config.toml", true), Ok(()));
}

#[test]
fn descriptions_of_load_errors() {
    assert_eq!(
        LoadError::PathResolutionError { path: "~/gone.png".to_string() }.describe(),
        "file does not exist: ~/gone.png"
    );
    assert_eq!(
        LoadError::ConfigParseError { message: "missing field `feh_arg`".to_string() }.describe(),
        "missing field `feh_arg`"
    );
}

#[test]
fn resolution_replaces_every_path() {
    let canonical = vec![
        vec![some("/home/alice/pics/a.jpg")],
        vec![some("/work/pics/b.jpg"), some("/pics/c.jpg")],
    ];
    let resolved = resolve_categories(&declared(), &canonical).unwrap();
    assert_eq!(
        resolved,
        Config {
            categories: vec![
                Category { name: "nature".to_string(), paths: texts(&["/home/alice/pics/a.jpg"]) },
                Category {
                    name: "city".to_string(),
                    paths: texts(&["/work/pics/b.jpg", "/pics/c.jpg"])
                },
            ],
            feh_arg: "--bg-fill".to_string(),
        }
    );
}

#[test]
fn resolution_is_stable_on_resolved_paths() {
    let canonical = vec![
        vec![some("/home/alice/pics/a.jpg")],
        vec![some("/work/pics/b.jpg"), some("/pics/c.jpg")],
    ];
    let once = resolve_categories(&declared(), &canonical).unwrap();
    let twice = resolve_categories(&once, &canonical).unwrap();
    assert_eq!(once, twice);
}

#[test]
fn one_unresolved_path_fails_the_whole_load() {
    let canonical = vec![vec![some("/home/alice/pics/a.jpg")], vec![some("/work/pics/b.jpg"), None]];
    assert_eq!(
        resolve_categories(&declared(), &canonical),
        Err(LoadError::PathResolutionError { path: "/pics/../pics/c.jpg".to_string() })
    );
}

#[test]
fn first_unresolved_path_is_named() {
    let canonical = vec![vec![None], vec![None, None]];
    assert_eq!(
        resolve_categories(&declared(), &canonical),
        Err(LoadError::PathResolutionError { path: "~/pics/a.jpg".to_string() })
    );
    let canonical = vec![vec![some("/a")], vec![None, None]];
    assert_eq!(
        resolve_categories(&declared(), &canonical),
        Err(LoadError::PathResolutionError { path: "pics/b.jpg".to_string() })
    );
}

#[test]
fn missing_outcome_counts_as_unresolved() {
    let canonical = vec![vec![some("/a")], vec![some("/b")]];
    assert_eq!(
        resolve_categories(&declared(), &canonical),
        Err(LoadError::PathResolutionError { path: "/pics/../pics/c.jpg".to_string() })
    );
    let canonical = vec![vec![some("/a")]];
    assert_eq!(
        resolve_categories(&declared(), &canonical),
        Err(LoadError::PathResolutionError { path: "pics/b.jpg".to_string() })
    );
}

#[test]
fn empty_configuration_resolves_to_itself() {
    let config = Config { categories: Vec::new(), feh_arg: "-x".to_string() };
    assert_eq!(resolve_categories(&config, &Vec::new()), Ok(Config { categories: Vec::new(), feh_arg: "-x".to_string() }));
}

#[test]
fn category_without_paths_is_kept() {
    let config = Config {
        categories: vec![Category { name: "none".to_string(), paths: Vec::new() }],
        feh_arg: "-x".to_string(),
    };
    let resolved = resolve_categories(&config, &vec![Vec::new()]).unwrap();
    assert_eq!(resolved.categories.len(), 1);
    assert_eq!(resolved.categories[0].name, "none");
    assert!(resolved.categories[0].paths.is_empty());
}

#[test]
fn plain_paths_are_their_own_expansion() {
    let targets = expansion_targets(&declared());
    assert_eq!(targets.len(), 2);
    assert_eq!(targets[0].len(), 1);
    assert_eq!(targets[1], vec![some("pics/b.jpg"), some("/pics/../pics/c.jpg")]);
}

#[test]
fn tilde_is_expanded_to_a_home_directory() {
    let targets = expansion_targets(&declared());
    let expanded = targets[0][0].clone().unwrap();
    assert!(expanded.ends_with("pics/a.jpg"));
    assert_ne!(expanded, "~/pics/a.jpg");
    assert!(!expanded.starts_with('~'));
}

#[test]
fn tilde_inside_a_path_is_kept() {
    let config = Config {
        categories: vec![Category { name: "n".to_string(), paths: texts(&["/a/~/b", "./~", ""]) }],
        feh_arg: String::new(),
    };
    assert_eq!(expansion_targets(&config), vec![vec![some("/a/~/b"), some("./~"), some("")]]);
}

#[test]
fn config_file_has_the_fixed_name() {
    if let Some(path) = config_file_path() {
        assert!(path.ends_with("config.toml"));
        assert!(path.contains("random-background"));
    }
}

#[test]
fn config_file_is_joined_to_the_directory() {
    let dir = "/home/alice/.config/random-background";
    let expected = std::path::Path::new(dir).join("config.toml");
    let path = config_file_in(Some(dir.to_string())).unwrap();
    assert_eq!(std::path::PathBuf::from(&path), expected);
    assert_ne!(path, dir);
    assert!(path.starts_with(dir));
    assert!(path.ends_with("config.toml"));
}

#[test]
fn no_directory_gives_no_config_file() {
    assert_eq!(config_file_in(None), None);
}

#[test]
fn application_is_identified_to_the_platform() {
    assert_eq!(application_identity(), ("com", "bootstrap", "random-background"));
}

#[test]
fn outcome_that_is_not_absolute_counts_as_unresolved() {
    let canonical = vec![
        vec![some("/home/alice/pics/a.jpg")],
        vec![some("pics/b.jpg"), some("/pics/c.jpg")],
    ];
    assert_eq!(
        resolve_categories(&declared(), &canonical),
        Err(LoadError::PathResolutionError { path: "pics/b.jpg".to_string() })
    );
    let canonical = vec![vec![some("~/pics/a.jpg")], vec![some("/b"), some("/c")]];
    assert_eq!(
        resolve_categories(&declared(), &canonical),
        Err(LoadError::PathResolutionError { path: "~/pics/a.jpg".to_string() })
    );
    let canonical = vec![vec![some("")], vec![some("/b"), some("/c")]];
    assert_eq!(
        resolve_categories(&declared(), &canonical),
        Err(LoadError::PathResolutionError { path: "~/pics/a.jpg".to_string() })
    );
}

#[test]
fn loaded_paths_are_absolute() {
    let canonical = vec![
        vec![some("/home/alice/pics/a.jpg")],
        vec![some("/work/pics/b.jpg"), some("/pics/c.jpg")],
    ];
    let resolved = resolve_categories(&declared(), &canonical).unwrap();
    for category in &resolved.categories {
        for path in &category.paths {
            assert!(std::path::Path::new(path).is_absolute());
        }
    }
}
