//! What holds of resolution over all projects.
use vstd::prelude::*;
use crate::resolve::{owes_issue, resolved, ConfigFile, Identification};
use crate::toml_table::toml_strings;

verus! {

/// Without a config file, a project has `has_config` false and every identity
/// field empty, whatever else its directory holds.
pub proof fn lemma_no_config(root_path: Seq<char>, has_recipe: bool)
    ensures
        !resolved(root_path, ConfigFile::Missing, has_recipe).has_config,
        resolved(root_path, ConfigFile::Missing, has_recipe).name == Seq::<char>::empty(),
        resolved(root_path, ConfigFile::Missing, has_recipe).author == Seq::<char>::empty(),
        resolved(root_path, ConfigFile::Missing, has_recipe).description == Seq::<char>::empty(),
        !owes_issue(ConfigFile::Missing),
{
}

/// A config document with string values under `name`, `author` and
/// `description` gives exactly those three values, and `has_config` true.
pub proof fn lemma_full_config(root_path: Seq<char>, text: String, has_recipe: bool)
    requires
        toml_strings(text@) is Some,
        toml_strings(text@)->0.contains_key("name"@),
        toml_strings(text@)->0.contains_key("author"@),
        toml_strings(text@)->0.contains_key("description"@),
    ensures
        ({
            let r = resolved(root_path, ConfigFile::Present(text), has_recipe);
            let entries = toml_strings(text@)->0;
            &&& r.has_config
            &&& r.name == entries["name"@]
            &&& r.author == entries["author"@]
            &&& r.description == entries["description"@]
        }),
{
}

/// A config document that gives a string value for none of `author` and
/// `description` but one for `name` gives that name and the two sentinels.
pub proof fn lemma_partial_config(root_path: Seq<char>, text: String, has_recipe: bool)
    requires
        toml_strings(text@) is Some,
        toml_strings(text@)->0.contains_key("name"@),
        !toml_strings(text@)->0.contains_key("author"@),
        !toml_strings(text@)->0.contains_key("description"@),
    ensures
        ({
            let r = resolved(root_path, ConfigFile::Present(text), has_recipe);
            &&& r.has_config
            &&& r.name == toml_strings(text@)->0["name"@]
            &&& r.author == "NO_AUTHOR"@
            &&& r.description == "NO_DESCRIPTION"@
        }),
{
}

/// A config file that is not a TOML document leaves every identity field
/// empty, keeps `has_config` true, and owes one diagnostic.
pub proof fn lemma_malformed_config(root_path: Seq<char>, text: String, has_recipe: bool)
    requires
        toml_strings(text@) is None,
    ensures
        ({
            let r = resolved(root_path, ConfigFile::Present(text), has_recipe);
            &&& r.has_config
            &&& r.name == Seq::<char>::empty()
            &&& r.author == Seq::<char>::empty()
            &&& r.description == Seq::<char>::empty()
        }),
        owes_issue(ConfigFile::Present(text)),
{
}

/// Whether a recipe file is there changes `has_recipe` alone: the identity
/// fields, `has_config` and the root path stay as they are.
pub proof fn lemma_recipe_independent(root_path: Seq<char>, config: ConfigFile)
    ensures
        ({
            let with = resolved(root_path, config, true);
            let without = resolved(root_path, config, false);
            &&& with.has_recipe
            &&& !without.has_recipe
            &&& with.name == without.name
            &&& with.author == without.author
            &&& with.description == without.description
            &&& with.has_config == without.has_config
            &&& with.root_path == without.root_path
        }),
{
}

/// Two resolutions of one unchanged project give equal descriptors.
pub proof fn lemma_idempotent(
    root_path: String,
    config: ConfigFile,
    has_recipe: bool,
    first: Identification,
    second: Identification,
)
    requires
        first.schema@ == resolved(root_path@, config, has_recipe),
        second.schema@ == resolved(root_path@, config, has_recipe),
        first.issue is Some <==> owes_issue(config),
        second.issue is Some <==> owes_issue(config),
    ensures
        first.schema@ == second.schema@,
        first.issue is Some <==> second.issue is Some,
{
}

/// The root path of a descriptor is the path it was resolved from, as given.
pub proof fn lemma_root_path_kept(root_path: Seq<char>, config: ConfigFile, has_recipe: bool)
    ensures
        resolved(root_path, config, has_recipe).root_path == root_path,
{
}

/// Every resolved descriptor is well formed.
pub proof fn lemma_resolved_wf(root_path: Seq<char>, config: ConfigFile, has_recipe: bool)
    ensures
        resolved(root_path, config, has_recipe).wf(),
{
}

} // verus!
