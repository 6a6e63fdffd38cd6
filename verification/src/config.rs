//! The configuration: the Backlog spaces with their hosts and API keys, and
//! the rules a configuration must follow, where it is found, and when its
//! file permissions deserve a warning.

use vstd::prelude::*;
use crate::text::{push_octal4, octal4};

verus! {

/// One Backlog space: a display name, its host, and the API key for it.
#[derive(Debug)]
pub struct SpaceConfig {
    pub name: String,
    pub host: String,
    pub api_key: String,
}

/// The whole configuration: the space to start with and all spaces.
#[derive(Debug)]
pub struct Config {
    pub default_space: String,
    pub spaces: Vec<SpaceConfig>,
}

impl Clone for SpaceConfig {
    fn clone(&self) -> (res: Self)
        ensures
            res == *self,
    {
        SpaceConfig { name: self.name.clone(), host: self.host.clone(), api_key: self.api_key.clone() }
    }
}

impl Clone for Config {
    fn clone(&self) -> (res: Self)
        ensures
            res.default_space == self.default_space,
            res.spaces@ == self.spaces@,
    {
        let spaces = self.spaces.clone();
        proof {
            assert forall|i: int| 0 <= i < spaces@.len() implies spaces@[i] == self.spaces@[i] by {
                assert(vstd::pervasive::cloned::<SpaceConfig>(self.spaces[i], spaces[i]));
            }
            assert(spaces@ =~= self.spaces@);
        }
        Config { default_space: self.default_space.clone(), spaces }
    }
}

/// Why a parsed configuration is refused.
#[derive(Debug)]
pub enum ConfigError {
    /// The configuration lists no space.
    NoSpaces,
    /// No space carries the name given as `default_space` (kept here).
    DefaultSpaceNotFound(String),
}

/// Some space of the list carries the name `name`.
pub open spec fn has_space_named(spaces: Seq<SpaceConfig>, name: Seq<char>) -> bool {
    exists|i: int| 0 <= i < spaces.len() && #[trigger] spaces[i].name@ == name
}

/// The position of the first space named `name`, or the length of the list
/// when there is none.
pub open spec fn first_space_named(spaces: Seq<SpaceConfig>, name: Seq<char>) -> int
    decreases spaces.len(),
{
    if spaces.len() == 0 {
        0
    } else if spaces[0].name@ == name {
        0
    } else {
        1 + first_space_named(spaces.drop_first(), name)
    }
}

/// `first_space_named` is the least position carrying the name, and it is
/// the length exactly when no space carries it.
pub proof fn lemma_first_space_named(spaces: Seq<SpaceConfig>, name: Seq<char>)
    ensures
        0 <= first_space_named(spaces, name) <= spaces.len(),
        first_space_named(spaces, name) < spaces.len() ==> spaces[first_space_named(
            spaces,
            name,
        )].name@ == name,
        forall|j: int| 0 <= j < first_space_named(spaces, name) ==> #[trigger] spaces[j].name@ != name,
        has_space_named(spaces, name) <==> first_space_named(spaces, name) < spaces.len(),
    decreases spaces.len(),
{
    if spaces.len() > 0 && spaces[0].name@ != name {
        let rest = spaces.drop_first();
        lemma_first_space_named(rest, name);
        assert forall|j: int| 0 <= j < first_space_named(spaces, name) implies #[trigger] spaces[j].name@
            != name by {
            if j > 0 {
                assert(spaces[j] == rest[j - 1]);
            }
        }
        if has_space_named(spaces, name) {
            let k = choose|k: int| 0 <= k < spaces.len() && #[trigger] spaces[k].name@ == name;
            assert(rest[k - 1].name@ == name);
        }
        if first_space_named(spaces, name) < spaces.len() {
            let f = first_space_named(rest, name);
            assert(spaces[f + 1] == rest[f]);
        }
    }
}

/// The position of the first space whose name equals `name`, if any.
pub fn find_space_config(spaces: &Vec<SpaceConfig>, name: &String) -> (res: Option<usize>)
    ensures
        match res {
            Some(i) => i == first_space_named(spaces@, name@) && i < spaces@.len()
                && spaces@[i as int].name@ == name@,
            None => !has_space_named(spaces@, name@),
        },
{
    proof {
        lemma_first_space_named(spaces@, name@);
    }
    let mut i: usize = 0;
    while i < spaces.len()
        invariant
            i <= spaces@.len(),
            forall|j: int| 0 <= j < i ==> #[trigger] spaces@[j].name@ != name@,
            0 <= first_space_named(spaces@, name@) <= spaces@.len(),
            first_space_named(spaces@, name@) < spaces@.len() ==> spaces@[first_space_named(
                spaces@,
                name@,
            )].name@ == name@,
            forall|j: int| 0 <= j < first_space_named(spaces@, name@) ==> #[trigger] spaces@[j].name@ != name@,
        decreases spaces.len() - i,
    {
        if spaces[i].name == *name {
            return Some(i);
        }
        i += 1;
    }
    None
}

/// A configuration is accepted when it lists at least one space and some
/// space carries the default space's name.
pub open spec fn config_ok(config: Config) -> bool {
    config.spaces@.len() > 0 && has_space_named(config.spaces@, config.default_space@)
}

/// Checks a parsed configuration: refused with `NoSpaces` when it lists no
/// space, else with `DefaultSpaceNotFound` when no space carries the default
/// name; accepted unchanged otherwise.
pub fn validate_config(config: Config) -> (res: Result<Config, ConfigError>)
    ensures
        config.spaces@.len() == 0 ==> res matches Err(ConfigError::NoSpaces),
        config.spaces@.len() > 0 && !has_space_named(config.spaces@, config.default_space@)
            ==> (res matches Err(ConfigError::DefaultSpaceNotFound(n)) && n == config.default_space),
        config_ok(config) ==> res == Ok::<Config, ConfigError>(config),
{
    if config.spaces.len() == 0 {
        return Err(ConfigError::NoSpaces);
    }
    match find_space_config(&config.spaces, &config.default_space) {
        Some(_) => Ok(config),
        None => Err(ConfigError::DefaultSpaceNotFound(config.default_space)),
    }
}

/// The message shown for a refused configuration.
pub open spec fn config_error_text(e: ConfigError) -> Seq<char> {
    match e {
        ConfigError::NoSpaces => "No spaces defined in config.toml"@,
        ConfigError::DefaultSpaceNotFound(n) => "default_space '"@ + n@ + "' not found in spaces"@,
    }
}

impl ConfigError {
    /// The message shown for this refusal.
    pub fn message(&self) -> (res: String)
        ensures
            res@ == config_error_text(*self),
    {
        match self {
            ConfigError::NoSpaces => String::from_str("No spaces defined in config.toml"),
            ConfigError::DefaultSpaceNotFound(n) => {
                let s = String::from_str("default_space '");
                let s = s.concat(n.as_str());
                s.concat("' not found in spaces")
            },
        }
    }
}

/// `base` joined with the relative component `part`, as `Path::join` does:
/// a separator is put between them unless `base` is empty or already ends
/// with one.
pub open spec fn join_path(base: Seq<char>, part: Seq<char>) -> Seq<char> {
    if base.len() == 0 || base.last() == '/' {
        base + part
    } else {
        base + seq!['/'] + part
    }
}

/// The directory holding the per-user configuration: `XDG_CONFIG_HOME`
/// when set and non-empty, else `.config` under `HOME` (or under `.` when
/// `HOME` is unset).
pub open spec fn config_home(xdg: Option<Seq<char>>, home: Option<Seq<char>>) -> Seq<char> {
    match xdg {
        Some(x) if x.len() > 0 => x,
        _ => join_path(
            match home {
                Some(h) => h,
                None => "."@,
            },
            ".config"@,
        ),
    }
}

/// The path of the configuration file under a configuration directory.
pub open spec fn config_file_path(xdg: Option<Seq<char>>, home: Option<Seq<char>>) -> Seq<char> {
    join_path(join_path(config_home(xdg, home), "lazybacklog"@), "config.toml"@)
}

fn join(base: String, part: &str) -> (res: String)
    ensures
        res@ == join_path(base@, part@),
{
    let n = base.as_str().unicode_len();
    if n == 0 {
        base.concat(part)
    } else {
        let last = base.as_str().get_char(n - 1);
        if last == '/' {
            base.concat(part)
        } else {
            proof {
                reveal_strlit("/");
            }
            base.concat("/").concat(part)
        }
    }
}

/// The configuration file's path, given the values of the `XDG_CONFIG_HOME`
/// and `HOME` environment variables: `<dir>/lazybacklog/config.toml`.
pub fn config_path_from(xdg: Option<String>, home: Option<String>) -> (res: String)
    ensures
        res@ == config_file_path(
            match xdg {
                Some(x) => Some(x@),
                None => None,
            },
            match home {
                Some(h) => Some(h@),
                None => None,
            },
        ),
{
    let base = match xdg {
        Some(x) if !x.as_str().is_empty() => x,
        _ => {
            let h = match home {
                Some(h) => h,
                None => String::from_str("."),
            };
            join(h, ".config")
        },
    };
    let dir = join(base, "lazybacklog");
    join(dir, "config.toml")
}

/// The warning given for a configuration file whose permission bits (the
/// low nine bits of `mode`) are not exactly `0600`; none when they are.
pub open spec fn permission_warning_text(path: Seq<char>, mode: u32) -> Option<Seq<char>> {
    let m = (mode % 512) as nat;
    if m == 384 {
        None
    } else {
        Some(
            "Warning: "@ + path + " has permissions "@ + octal4(m) + ", expected 0600. Run: chmod 600 "@
                + path,
        )
    }
}

/// The warning for a configuration file at `path` with file mode `mode`,
/// or `None` when its permission bits are `0600`.
pub fn permission_warning(path: &str, mode: u32) -> (res: Option<String>)
    ensures
        match res {
            Some(w) => permission_warning_text(path@, mode) == Some(w@),
            None => permission_warning_text(path@, mode) is None,
        },
{
    let m: u32 = mode & 0o777;
    assert(mode & 0o777 == mode % 512) by (bit_vector);
    if m == 0o600 {
        return None;
    }
    let mut s = String::from_str("Warning: ");
    s.append(path);
    s.append(" has permissions ");
    push_octal4(&mut s, m);
    s.append(", expected 0600. Run: chmod 600 ");
    s.append(path);
    Some(s)
}

} // verus!
