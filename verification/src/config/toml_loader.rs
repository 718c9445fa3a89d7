use vstd::prelude::*;

verus! {

broadcast use vstd::string::group_string_axioms;

/// Loads the application configuration from a TOML file.
pub struct TomlConfigLoader {
    file_path: String,
}

impl TomlConfigLoader {
    /// The path of the file that is read.
    pub closed spec fn path(&self) -> Seq<char> {
        self.file_path@
    }

    pub fn new(path: &str) -> (r: Self)
        ensures
            r.path() == path@,
    {
        Self { file_path: path.to_string() }
    }

    /// The path of the file that is read.
    pub fn file_path(&self) -> (r: &str)
        ensures
            r@ == self.path(),
    {
        self.file_path.as_str()
    }
}

} // verus!
