//! The application's settings and the places of its files.

use vstd::prelude::*;

verus! {

/// The application's settings. `storage_path` is the directory that holds
/// the application's files.
#[derive(Debug, Clone)]
pub struct AppConfig {
    pub version: String,
    pub storage_path: String,
    pub privacy_mode: bool,
    pub theme: String,
}

/// The text of the path that `Path::join` gives for `name` adjoined to the
/// directory `base`. The join works on the two texts alone, by the rules of
/// the platform that the library is built for; it reads neither the disk nor
/// the environment.
pub uninterp spec fn joined_path(base: Seq<char>, name: Seq<char>) -> Seq<char>;

/// `Path::join`, on texts: the result is the text of the path of `name`
/// adjoined to the directory `base`.
#[verifier::external_body]
fn join_path(base: &str, name: &str) -> (path: String)
    ensures
        path@ == joined_path(base@, name@),
{
    std::path::Path::new(base).join(name).to_string_lossy().into_owned()
}

impl AppConfig {
    /// Changes the settings that are given and leaves the others as they
    /// are.
    pub fn update(&mut self, privacy_mode: Option<bool>, theme: Option<String>)
        ensures
            final(self).privacy_mode == (match privacy_mode {
                Some(privacy) => privacy,
                None => old(self).privacy_mode,
            }),
            final(self).theme == (match theme {
                Some(new_theme) => new_theme,
                None => old(self).theme,
            }),
            final(self).version == old(self).version,
            final(self).storage_path == old(self).storage_path,
    {
        if let Some(privacy) = privacy_mode {
            self.privacy_mode = privacy;
        }
        if let Some(new_theme) = theme {
            self.theme = new_theme;
        }
    }

    /// The path of the store's file: `data.db` adjoined to the storage
    /// directory.
    pub fn get_db_path(&self) -> (path: String)
        ensures
            path@ == joined_path(self.storage_path@, "data.db"@),
    {
        join_path(self.storage_path.as_str(), "data.db")
    }

    /// The path of the settings file: `config.json` adjoined to the storage
    /// directory.
    pub fn get_config_file_path(&self) -> (path: String)
        ensures
            path@ == joined_path(self.storage_path@, "config.json"@),
    {
        join_path(self.storage_path.as_str(), "config.json")
    }

    /// The path of the cache: `cache` adjoined to the storage directory.
    pub fn get_cache_dir(&self) -> (path: String)
        ensures
            path@ == joined_path(self.storage_path@, "cache"@),
    {
        join_path(self.storage_path.as_str(), "cache")
    }
}

} // verus!
