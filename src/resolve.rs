//! From what was found in a project directory to its descriptor.
use vstd::prelude::*;
use crate::schema::{ProjectSchema, SchemaModel};
use crate::toml_table::{parse_error_message, parse_table, table_string, toml_strings};

verus! {

/// What the project's config file turned out to be.
pub enum ConfigFile {
    /// There is no config file at the project root.
    Missing,
    /// The file is there but could not be read; the reason.
    Unreadable(String),
    /// The file's text.
    Present(String),
}

/// A diagnostic owed to the caller: the config file was found but yielded no
/// identity.
pub enum ConfigIssue {
    /// The file could not be read; the reason.
    Unreadable(String),
    /// The file is not a TOML document; the parser's message.
    Malformed(String),
}

/// A resolved descriptor with the diagnostic, if any, that resolution owes.
pub struct Identification {
    pub schema: ProjectSchema,
    pub issue: Option<ConfigIssue>,
}

/// `value` where there is one, else `sentinel`.
pub open spec fn field_or(value: Option<Seq<char>>, sentinel: Seq<char>) -> Seq<char> {
    match value {
        Some(v) => v,
        None => sentinel,
    }
}

/// The text held, if any.
pub open spec fn text_of(value: Option<String>) -> Option<Seq<char>> {
    match value {
        Some(s) => Some(s@),
        None => None,
    }
}

/// The entry of `key` in `entries`, if it has one.
pub open spec fn entry(entries: Map<Seq<char>, Seq<char>>, key: Seq<char>) -> Option<Seq<char>> {
    if entries.contains_key(key) {
        Some(entries[key])
    } else {
        None
    }
}

/// The descriptor of a project whose config file held the string entries
/// `entries`: each identity field from its key, or its sentinel.
pub open spec fn from_entries(
    entries: Map<Seq<char>, Seq<char>>,
    has_recipe: bool,
    root_path: Seq<char>,
) -> SchemaModel {
    SchemaModel {
        name: field_or(entry(entries, "name"@), "NO_NAME"@),
        author: field_or(entry(entries, "author"@), "NO_AUTHOR"@),
        description: field_or(entry(entries, "description"@), "NO_DESCRIPTION"@),
        has_recipe,
        has_config: true,
        root_path,
    }
}

/// The descriptor that a project at `root_path` resolves to, given its config
/// file and whether a recipe file stands beside it.
pub open spec fn resolved(root_path: Seq<char>, config: ConfigFile, has_recipe: bool) -> SchemaModel {
    match config {
        ConfigFile::Missing => SchemaModel::blank(false, has_recipe, root_path),
        ConfigFile::Unreadable(_) => SchemaModel::blank(true, has_recipe, root_path),
        ConfigFile::Present(text) => match toml_strings(text@) {
            Some(entries) => from_entries(entries, has_recipe, root_path),
            None => SchemaModel::blank(true, has_recipe, root_path),
        },
    }
}

/// Whether resolving `config` owes a diagnostic: the file was found but gave
/// no identity.
pub open spec fn owes_issue(config: ConfigFile) -> bool {
    match config {
        ConfigFile::Missing => false,
        ConfigFile::Unreadable(_) => true,
        ConfigFile::Present(text) => toml_strings(text@) is None,
    }
}

/// The descriptor of a project whose config file was parsed, from the string
/// values found under `name`, `author` and `description`; a missing one gets
/// its sentinel.
pub fn schema_from_fields(
    root_path: String,
    name: Option<String>,
    author: Option<String>,
    description: Option<String>,
    has_recipe: bool,
) -> (r: ProjectSchema)
    ensures
        r@ == (SchemaModel {
            name: field_or(text_of(name), "NO_NAME"@),
            author: field_or(text_of(author), "NO_AUTHOR"@),
            description: field_or(text_of(description), "NO_DESCRIPTION"@),
            has_recipe,
            has_config: true,
            root_path: root_path@,
        }),
{
    let name = match name {
        Some(v) => v,
        None => "NO_NAME".to_owned(),
    };
    let author = match author {
        Some(v) => v,
        None => "NO_AUTHOR".to_owned(),
    };
    let description = match description {
        Some(v) => v,
        None => "NO_DESCRIPTION".to_owned(),
    };
    ProjectSchema::new(name, author, description, has_recipe, true, root_path)
}

/// Resolves a project at `root_path` from what its directory holds: its config
/// file, and whether a recipe file stands beside it. Never fails: a config
/// file that cannot be read or parsed leaves the identity fields empty and
/// yields one diagnostic.
pub fn resolve(root_path: String, config: ConfigFile, has_recipe: bool) -> (r: Identification)
    ensures
        r.schema@ == resolved(root_path@, config, has_recipe),
        r.schema@.wf(),
        r.issue is Some <==> owes_issue(config),
        config is Unreadable ==> r.issue == Some(ConfigIssue::Unreadable(config->Unreadable_0)),
        config is Present && owes_issue(config) ==> r.issue matches Some(ConfigIssue::Malformed(_)),
{
    match config {
        ConfigFile::Missing => Identification {
            schema: ProjectSchema::blank(false, has_recipe, root_path),
            issue: None,
        },
        ConfigFile::Unreadable(reason) => Identification {
            schema: ProjectSchema::blank(true, has_recipe, root_path),
            issue: Some(ConfigIssue::Unreadable(reason)),
        },
        ConfigFile::Present(text) => match parse_table(text.as_str()) {
            Ok(table) => {
                let name = table_string(&table, "name");
                let author = table_string(&table, "author");
                let description = table_string(&table, "description");
                Identification {
                    schema: schema_from_fields(root_path, name, author, description, has_recipe),
                    issue: None,
                }
            },
            Err(e) => Identification {
                schema: ProjectSchema::blank(true, has_recipe, root_path),
                issue: Some(ConfigIssue::Malformed(parse_error_message(&e))),
            },
        },
    }
}

} // verus!
