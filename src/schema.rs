use vstd::prelude::*;

verus! {

/// What a descriptor states, as mathematical values.
pub struct SchemaModel {
    pub name: Seq<char>,
    pub author: Seq<char>,
    pub description: Seq<char>,
    pub has_recipe: bool,
    pub has_config: bool,
    pub root_path: Seq<char>,
}

impl SchemaModel {
    /// The descriptor of a project whose config file was consulted for nothing:
    /// every identity field is empty.
    pub open spec fn blank(has_config: bool, has_recipe: bool, root_path: Seq<char>) -> SchemaModel {
        SchemaModel {
            name: Seq::empty(),
            author: Seq::empty(),
            description: Seq::empty(),
            has_recipe,
            has_config,
            root_path,
        }
    }

    /// Without a config file no identity field holds anything.
    pub open spec fn wf(self) -> bool {
        !self.has_config ==> self.name.len() == 0 && self.author.len() == 0
            && self.description.len() == 0
    }
}

/// The resolved descriptor of one project directory.
#[derive(Debug)]
pub struct ProjectSchema {
    project_name: String,
    author: String,
    description: String,
    has_dockerfile: bool,
    has_toml_config: bool,
    root_location: String,
}

impl View for ProjectSchema {
    type V = SchemaModel;

    closed spec fn view(&self) -> SchemaModel {
        SchemaModel {
            name: self.project_name@,
            author: self.author@,
            description: self.description@,
            has_recipe: self.has_dockerfile,
            has_config: self.has_toml_config,
            root_path: self.root_location@,
        }
    }
}

impl ProjectSchema {
    /// A descriptor with empty identity fields and root path, no recipe, and a
    /// config file taken as present.
    pub fn default() -> (r: ProjectSchema)
        ensures
            r@ == SchemaModel::blank(true, false, Seq::empty()),
    {
        ProjectSchema {
            project_name: String::new(),
            author: String::new(),
            description: String::new(),
            has_dockerfile: false,
            has_toml_config: true,
            root_location: String::new(),
        }
    }

    /// A descriptor with empty identity fields.
    pub(crate) fn blank(has_config: bool, has_recipe: bool, root_path: String) -> (r: ProjectSchema)
        ensures
            r@ == SchemaModel::blank(has_config, has_recipe, root_path@),
    {
        ProjectSchema {
            project_name: String::new(),
            author: String::new(),
            description: String::new(),
            has_dockerfile: has_recipe,
            has_toml_config: has_config,
            root_location: root_path,
        }
    }

    /// Builds a descriptor from its six fields, taken as they are.
    pub(crate) fn new(
        name: String,
        author: String,
        description: String,
        has_recipe: bool,
        has_config: bool,
        root_path: String,
    ) -> (r: ProjectSchema)
        ensures
            r@ == (SchemaModel {
                name: name@,
                author: author@,
                description: description@,
                has_recipe,
                has_config,
                root_path: root_path@,
            }),
    {
        ProjectSchema {
            project_name: name,
            author,
            description,
            has_dockerfile: has_recipe,
            has_toml_config: has_config,
            root_location: root_path,
        }
    }

    pub fn name(&self) -> (r: &str)
        ensures
            r@ == self@.name,
    {
        self.project_name.as_str()
    }

    pub fn author(&self) -> (r: &str)
        ensures
            r@ == self@.author,
    {
        self.author.as_str()
    }

    pub fn description(&self) -> (r: &str)
        ensures
            r@ == self@.description,
    {
        self.description.as_str()
    }

    pub fn has_recipe(&self) -> (r: bool)
        ensures
            r == self@.has_recipe,
    {
        self.has_dockerfile
    }

    pub fn has_config(&self) -> (r: bool)
        ensures
            r == self@.has_config,
    {
        self.has_toml_config
    }

    pub fn root_path(&self) -> (r: &str)
        ensures
            r@ == self@.root_path,
    {
        self.root_location.as_str()
    }
}

} // verus!
