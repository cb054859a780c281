use shuttle_manager::resolve::{resolve, schema_from_fields, ConfigFile, ConfigIssue, Identification};
use shuttle_manager::schema::ProjectSchema;

fn present(text: &str) -> ConfigFile {
    ConfigFile::Present(text.to_string())
}

fn identity(s: &ProjectSchema) -> (String, String, String, bool) {
    (
        s.name().to_string(),
        s.author().to_string(),
        s.description().to_string(),
        s.has_config(),
    )
}

fn same(a: &Identification, b: &Identification) -> bool {
    identity(&a.schema) == identity(&b.schema)
        && a.schema.has_recipe() == b.schema.has_recipe()
        && a.schema.root_path() == b.schema.root_path()
        && a.issue.is_some() == b.issue.is_some()
}

#[test]
fn default_is_blank_with_config() {
    let s = ProjectSchema::default();
    assert_eq!(s.name(), "");
    assert_eq!(s.author(), "");
    assert_eq!(s.description(), "");
    assert_eq!(s.root_path(), "");
    assert!(s.has_config());
    assert!(!s.has_recipe());
}

#[test]
fn no_config_file() {
    for recipe in [false, true] {
        let r = resolve("/srv/app".to_string(), ConfigFile::Missing, recipe);
        assert_eq!(identity(&r.schema), (String::new(), String::new(), String::new(), false));
        assert_eq!(r.schema.has_recipe(), recipe);
        assert!(r.issue.is_none());
    }
}

#[test]
fn well_formed_config() {
    let r = resolve(
        "/srv/app".to_string(),
        present("name = \"x\"\nauthor = \"y\"\ndescription = \"z\"\n"),
        false,
    );
    assert_eq!(
        identity(&r.schema),
        ("x".to_string(), "y".to_string(), "z".to_string(), true)
    );
    assert!(r.issue.is_none());
}

#[test]
fn partial_config() {
    let r = resolve("/srv/app".to_string(), present("name = \"x\"\n"), false);
    assert_eq!(
        identity(&r.schema),
        (
            "x".to_string(),
            "NO_AUTHOR".to_string(),
            "NO_DESCRIPTION".to_string(),
            true
        )
    );
    assert!(r.issue.is_none());
}

#[test]
fn empty_config_gives_all_sentinels() {
    let r = resolve("/srv/app".to_string(), present(""), false);
    assert_eq!(
        identity(&r.schema),
        (
            "NO_NAME".to_string(),
            "NO_AUTHOR".to_string(),
            "NO_DESCRIPTION".to_string(),
            true
        )
    );
}

#[test]
fn non_string_values_get_sentinels() {
    let r = resolve(
        "/srv/app".to_string(),
        present("name = 3\nauthor = [\"a\"]\ndescription = \"d\"\nversion = \"1\"\n"),
        true,
    );
    assert_eq!(
        identity(&r.schema),
        (
            "NO_NAME".to_string(),
            "NO_AUTHOR".to_string(),
            "d".to_string(),
            true
        )
    );
    assert!(r.schema.has_recipe());
}

#[test]
fn nested_keys_are_not_top_level() {
    let r = resolve(
        "/srv/app".to_string(),
        present("[package]\nname = \"inner\"\n"),
        false,
    );
    assert_eq!(r.schema.name(), "NO_NAME");
}

#[test]
fn malformed_config() {
    let r = resolve("/srv/app".to_string(), present("name = \"x\nauthor = = 1"), false);
    assert_eq!(identity(&r.schema), (String::new(), String::new(), String::new(), true));
    match r.issue {
        Some(ConfigIssue::Malformed(message)) => assert!(!message.is_empty()),
        _ => panic!("a malformed config owes one parse diagnostic"),
    }
}

#[test]
fn duplicate_key_is_malformed() {
    let r = resolve("/srv/app".to_string(), present("name = \"a\"\nname = \"b\"\n"), false);
    assert_eq!(r.schema.name(), "");
    assert!(r.schema.has_config());
    assert!(matches!(r.issue, Some(ConfigIssue::Malformed(_))));
}

#[test]
fn unreadable_config() {
    let r = resolve(
        "/srv/app".to_string(),
        ConfigFile::Unreadable("permission denied".to_string()),
        true,
    );
    assert_eq!(identity(&r.schema), (String::new(), String::new(), String::new(), true));
    assert!(r.schema.has_recipe());
    match r.issue {
        Some(ConfigIssue::Unreadable(reason)) => assert_eq!(reason, "permission denied"),
        _ => panic!("an unreadable config owes one read diagnostic"),
    }
}

#[test]
fn recipe_changes_only_has_recipe() {
    let configs = ["", "name = \"x\"\nauthor = \"y\"\ndescription = \"z\"\n"];
    for text in configs {
        for config_present in [false, true] {
            let make = |recipe: bool| {
                let config = if config_present { present(text) } else { ConfigFile::Missing };
                resolve("/srv/app".to_string(), config, recipe)
            };
            let with = make(true);
            let without = make(false);
            assert!(with.schema.has_recipe());
            assert!(!without.schema.has_recipe());
            assert_eq!(identity(&with.schema), identity(&without.schema));
            assert_eq!(with.schema.has_config(), config_present);
        }
    }
}

#[test]
fn resolving_twice_gives_equal_descriptors() {
    let text = "name = \"x\"\n";
    let a = resolve("/srv/app".to_string(), present(text), true);
    let b = resolve("/srv/app".to_string(), present(text), true);
    assert!(same(&a, &b));
    let c = resolve("/srv/app".to_string(), present("= broken"), false);
    let d = resolve("/srv/app".to_string(), present("= broken"), false);
    assert!(same(&c, &d));
}

#[test]
fn root_path_is_kept_verbatim() {
    for path in ["/srv/my project", "relative/dir", "/home/ünïcødé/项目", " "] {
        let r = resolve(path.to_string(), ConfigFile::Missing, false);
        assert_eq!(r.schema.root_path(), path);
        let r = resolve(path.to_string(), present("name = \"n\""), true);
        assert_eq!(r.schema.root_path(), path);
    }
}

#[test]
fn fields_fill_in_sentinels() {
    let s = schema_from_fields(
        "/p".to_string(),
        None,
        Some("ann".to_string()),
        None,
        true,
    );
    assert_eq!(s.name(), "NO_NAME");
    assert_eq!(s.author(), "ann");
    assert_eq!(s.description(), "NO_DESCRIPTION");
    assert!(s.has_config());
    assert!(s.has_recipe());
    assert_eq!(s.root_path(), "/p");
}

#[test]
fn real_name_may_equal_a_sentinel() {
    let s = schema_from_fields("/p".to_string(), Some("NO_NAME".to_string()), Some(String::new()), None, false);
    assert_eq!(s.name(), "NO_NAME");
    assert_eq!(s.author(), "");
}
