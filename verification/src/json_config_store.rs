//! Where configurations are kept, and what holds where one cannot be read.

use vstd::prelude::*;
use crate::export_config;
use crate::export_config::program_dir_of;

verus! {

/// A directory with one JSON file per configuration.
#[derive(Debug, Clone)]
pub struct JsonConfigStore {
    base_dir: String,
}

/// What came of reading a configuration.
pub enum Loaded<T> {
    Parsed(T),
    /// There is no file, as before the first use.
    Missing,
    /// The file could not be read, and what the system said.
    Unreadable(String),
    /// The file is no such configuration, and why.
    Broken(String),
}

/// The name of the file of a configuration.
pub open spec fn file_name_of(name: Seq<char>) -> Seq<char> {
    name + ".json"@
}

impl JsonConfigStore {
    /// The directory.
    pub closed spec fn dir(self) -> Seq<char> {
        self.base_dir@
    }

    /// A store in a directory.
    pub fn new(base_dir: String) -> (r: Self)
        ensures
            r.dir() == base_dir@,
    {
        JsonConfigStore { base_dir }
    }

    /// The store in a user's profile.
    pub fn for_profile(profile: Option<&str>) -> (r: Self)
        ensures
            r.dir() == export_config::program_dir(
                match profile {
                    Some(p) => p@,
                    None => "."@,
                },
            ),
    {
        JsonConfigStore { base_dir: program_dir_of(profile) }
    }

    /// The directory.
    pub fn base_dir(&self) -> (r: &str)
        ensures
            r@ == self.dir(),
    {
        self.base_dir.as_str()
    }

    /// The name of the file of a configuration, in the directory.
    pub fn file_name(name: &str) -> (r: String)
        ensures
            r@ == file_name_of(name@),
    {
        let mut r = name.to_string();
        r.append(".json");
        r
    }

    /// The configuration that was read, or the one to use where that failed; and what to note about a
    /// failure. That there is no file is no failure.
    pub fn load<T>(name: &str, outcome: Loaded<T>, default: T) -> (r: (T, Option<String>))
        ensures
            match outcome {
                Loaded::Parsed(v) => r.0 == v && r.1 is None,
                Loaded::Missing => r.0 == default && r.1 is None,
                Loaded::Unreadable(e) => r.0 == default && (r.1 matches Some(m) && m@ == "[config:"@
                    + name@ + "] 文件读取失败: "@ + e@ + "，使用默认"@),
                Loaded::Broken(e) => r.0 == default && (r.1 matches Some(m) && m@ == "[config:"@
                    + name@ + "] JSON 解析失败: "@ + e@ + "，使用默认"@),
            },
    {
        let (what, e) = match outcome {
            Loaded::Parsed(v) => {
                return (v, None);
            },
            Loaded::Missing => {
                return (default, None);
            },
            Loaded::Unreadable(e) => ("] 文件读取失败: ", e),
            Loaded::Broken(e) => ("] JSON 解析失败: ", e),
        };
        let mut m = "[config:".to_string();
        m.append(name);
        m.append(what);
        m.append(e.as_str());
        m.append("，使用默认");
        (default, Some(m))
    }
}

impl Default for JsonConfigStore {
    /// The store where no profile is known.
    fn default() -> (r: Self)
        ensures
            r.dir() == export_config::program_dir("."@),
    {
        JsonConfigStore::for_profile(None)
    }
}

// ── Laws ───────────────────────────────────────────────

/// Each configuration has a file of its own, with the ending of JSON.
pub proof fn configurations_have_their_own_files(a: &str, b: &str, x: String, y: String)
    requires
        call_ensures(JsonConfigStore::file_name, (a,), x),
        call_ensures(JsonConfigStore::file_name, (b,), y),
    ensures
        x@ == a@ + seq!['.', 'j', 's', 'o', 'n'],
        x@ == y@ ==> a@ == b@,
{
    reveal_strlit(".json");
    assert(".json"@ =~= seq!['.', 'j', 's', 'o', 'n']);
    assert(x@.take(x@.len() - 5) =~= a@);
    assert(y@.take(y@.len() - 5) =~= b@);
}

/// A configuration that can be read is used as it is; where none can be, the default is, and that is
/// noted exactly where there is a file.
pub proof fn the_default_is_used_where_nothing_can_be_read<T>(
    name: &str,
    outcome: Loaded<T>,
    default: T,
    r: (T, Option<String>),
)
    requires
        call_ensures(JsonConfigStore::load::<T>, (name, outcome, default), r),
    ensures
        outcome matches Loaded::Parsed(v) ==> r.0 == v,
        !(outcome is Parsed) ==> r.0 == default,
        r.1 is Some <==> outcome is Unreadable || outcome is Broken,
        outcome matches Loaded::Unreadable(e) ==> r.1->Some_0@ == "[config:"@ + name@
            + "] 文件读取失败: "@ + e@ + "，使用默认"@,
        outcome matches Loaded::Broken(e) ==> r.1->Some_0@ == "[config:"@ + name@
            + "] JSON 解析失败: "@ + e@ + "，使用默认"@,
{
}

/// A store stands in the directory that it was made for.
pub proof fn stores_stand_in_their_directory(base_dir: String, r: JsonConfigStore, dir: &str)
    requires
        call_ensures(JsonConfigStore::new, (base_dir,), r),
        call_ensures(JsonConfigStore::base_dir, (&r,), dir),
    ensures
        dir@ == base_dir@,
{
}

/// The store of a profile is the directory of the program in it.
pub proof fn stores_stand_in_the_directory_of_the_program(
    profile: Option<&str>,
    r: JsonConfigStore,
    dir: String,
)
    requires
        call_ensures(JsonConfigStore::for_profile, (profile,), r),
        call_ensures(program_dir_of, (profile,), dir),
    ensures
        r.dir() == dir@,
{
}

} // verus!
