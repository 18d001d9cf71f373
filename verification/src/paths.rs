//! Where the token store lies on disk: one file in a directory of this
//! client under the user's configuration directory.

use vstd::prelude::*;
use vstd::string::StringExecFns;

verus! {

/// The name of this client's directory under the user's configuration directory.
pub const APP_DIRECTORY: &'static str = "todo_cli";

/// The name of the token file.
pub const TOKEN_FILE: &'static str = "token";

/// The two paths of the token store.
#[derive(Debug)]
pub struct StorePaths {
    /// The directory that holds the token file.
    pub directory: String,
    /// The token file.
    pub file: String,
}

/// The directory of this client under a configuration directory.
pub open spec fn spec_directory(base: Seq<char>) -> Seq<char> {
    base + "/"@ + APP_DIRECTORY@
}

/// The token file under a configuration directory.
pub open spec fn spec_token_file(base: Seq<char>) -> Seq<char> {
    spec_directory(base) + "/"@ + TOKEN_FILE@
}

impl StorePaths {
    /// Whether these are the paths under `base`.
    pub open spec fn lies_under(&self, base: Seq<char>) -> bool {
        &&& self.directory@ == spec_directory(base)
        &&& self.file@ == spec_token_file(base)
    }
}

/// Calls `dirs::config_dir` and hands the path out as text, or `None` where
/// there is no such directory or its path is not Unicode. The result depends
/// on the user's environment: nothing is claimed of it.
#[verifier::external_body]
fn user_config_dir() -> (base: Option<String>) {
    dirs::config_dir().and_then(|path| path.to_str().map(|text| text.to_owned()))
}

/// The paths of the token store under a configuration directory.
pub fn paths_under(base: &str) -> (paths: StorePaths)
    ensures
        paths.lies_under(base@),
{
    let mut directory = String::from_str(base);
    directory.append("/");
    directory.append(APP_DIRECTORY);
    let mut file = directory.clone();
    file.append("/");
    file.append(TOKEN_FILE);
    StorePaths { directory, file }
}

/// The paths of the token store of this user, or `None` where the user has
/// no configuration directory.
pub fn get_token_file_path() -> (paths: Option<StorePaths>)
    ensures
        exists|base: Option<Seq<char>>| #[trigger] found_under(paths, base),
{
    let base = user_config_dir();
    let found = paths_in(&base);
    assert(found_under(found, crate::text::optional_text(base)));
    found
}

/// Whether `paths` is what a configuration directory leads to: with a
/// directory, the paths under it; without one, nothing.
pub open spec fn found_under(paths: Option<StorePaths>, base: Option<Seq<char>>) -> bool {
    match base {
        Some(directory) => paths.is_some() && paths.unwrap().lies_under(directory),
        None => paths.is_none(),
    }
}

/// The paths of the token store, given the user's configuration directory
/// or that there is none.
pub fn paths_in(base: &Option<String>) -> (paths: Option<StorePaths>)
    ensures
        found_under(paths, crate::text::optional_text(*base)),
{
    match base {
        Some(directory) => Some(paths_under(directory.as_str())),
        None => None,
    }
}

} // verus!
