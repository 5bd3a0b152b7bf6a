//! Wine runners: where they are looked for and how they are named.

use vstd::prelude::*;
use crate::entities::{RunnerType, WineRunner};
use crate::error::Error;
use crate::search::{split, split_chars, starts_with, starts_with_str};
use crate::text::{chars_of, concat2, join_path, joined, string_of, strings, texts, trim, trimmed};

verus! {

/// Finder of runners.
#[derive(Debug, Clone, Copy)]
pub struct LinuxRunnerDetector;

impl LinuxRunnerDetector {
    pub fn new() -> Self {
        LinuxRunnerDetector
    }
}

impl Default for LinuxRunnerDetector {
    fn default() -> Self {
        LinuxRunnerDetector
    }
}

/// Installer of runners.
#[derive(Debug, Clone, Copy)]
pub struct LinuxRunnerManager;

impl LinuxRunnerManager {
    pub fn new() -> Self {
        LinuxRunnerManager
    }
}

impl Default for LinuxRunnerManager {
    fn default() -> Self {
        LinuxRunnerManager
    }
}

/// `s` with each pair of backslashes turned into one, from left to right.
pub open spec fn unescaped(s: Seq<char>) -> Seq<char>
    decreases s.len(),
{
    if s.len() >= 2 && s[0] == '\\' && s[1] == '\\' {
        seq!['\\'] + unescaped(s.skip(2))
    } else if s.len() > 0 {
        seq![s[0]] + unescaped(s.skip(1))
    } else {
        Seq::empty()
    }
}

/// A copy of `v` with each pair of backslashes turned into one.
pub fn unescape(v: &[char]) -> (out: Vec<char>)
    ensures
        out@ == unescaped(v@),
{
    let mut out: Vec<char> = Vec::new();
    let mut i: usize = 0;
    assert(v@.skip(0) == v@);
    assert(out@ + unescaped(v@) =~= unescaped(v@));
    while i < v.len()
        invariant
            i <= v.len(),
            out@ + unescaped(v@.skip(i as int)) == unescaped(v@),
        decreases v.len() - i,
    {
        let ghost rest = v@.skip(i as int);
        let ghost before = out@;
        if v[i] == '\\' && i + 1 < v.len() && v[i + 1] == '\\' {
            assert(rest[0] == '\\' && rest[1] == '\\');
            assert(rest.skip(2) == v@.skip(i + 2));
            out.push('\\');
            assert(out@ + unescaped(v@.skip(i + 2)) =~= before + (seq!['\\'] + unescaped(
                rest.skip(2),
            )));
            i += 2;
        } else {
            proof {
                assert(rest[0] == v@[i as int]);
                if rest.len() >= 2 {
                    assert(rest[1] == v@[i + 1]);
                }
                assert(rest.skip(1) == v@.skip(i + 1));
            }
            out.push(v[i]);
            assert(out@ + unescaped(v@.skip(i + 1)) =~= before + (seq![rest[0]] + unescaped(
                rest.skip(1),
            )));
            i += 1;
        }
    }
    assert(unescaped(v@.skip(v.len() as int)) =~= Seq::<char>::empty());
    assert(out@ =~= out@ + Seq::<char>::empty());
    out
}

/// The library path that a line of Steam's library file names: the line
/// must begin with `"path"`, and the path is what stands between the third
/// and the fourth quotation mark, with doubled backslashes made single.
/// Empty paths, comments and other lines name none.
pub open spec fn library_path_in(raw: Seq<char>) -> Option<Seq<char>> {
    let line = trim(raw);
    let q = split(line, '"');
    if line.len() == 0 || starts_with(line, "//"@) || !starts_with(line, "\"path\""@) || q.len()
        < 4 || unescaped(q[3]).len() == 0 {
        None
    } else {
        Some(unescaped(q[3]))
    }
}

/// The library paths that the lines name, in order.
pub open spec fn library_paths(lines: Seq<Seq<char>>) -> Seq<Seq<char>>
    decreases lines.len(),
{
    if lines.len() == 0 {
        Seq::empty()
    } else {
        match library_path_in(lines.last()) {
            Some(p) => library_paths(lines.drop_last()).push(p),
            None => library_paths(lines.drop_last()),
        }
    }
}

fn library_path(raw: &[char]) -> (r: Option<String>)
    ensures
        crate::text::opt_text(r) == library_path_in(raw@),
{
    let line = trimmed(raw);
    if line.len() == 0 || starts_with_str(line.as_slice(), "//") || !starts_with_str(
        line.as_slice(),
        "\"path\"",
    ) {
        return None;
    }
    let q = split_chars(line.as_slice(), '"');
    if q.len() < 4 {
        return None;
    }
    let value = unescape(q[3].as_slice());
    if value.len() == 0 {
        return None;
    }
    Some(string_of(value.as_slice()))
}

/// The library paths in the text of Steam's library file.
pub fn parse_library_paths_from_vdf(content: &str) -> (paths: Vec<String>)
    ensures
        strings(paths@) == library_paths(split(content@, '\n')),
{
    let v = chars_of(content);
    let lines = split_chars(v.as_slice(), '\n');
    let mut paths: Vec<String> = Vec::new();
    let mut i: usize = 0;
    assert(strings(paths@) =~= Seq::<Seq<char>>::empty());
    while i < lines.len()
        invariant
            i <= lines.len(),
            strings(paths@) == library_paths(texts(lines@).take(i as int)),
        decreases lines.len() - i,
    {
        assert(texts(lines@).take(i + 1).drop_last() == texts(lines@).take(i as int));
        assert(texts(lines@).take(i + 1).last() == lines@[i as int]@);
        match library_path(lines[i].as_slice()) {
            Some(p) => {
                let ghost before = strings(paths@);
                paths.push(p);
                assert(strings(paths@) =~= before.push(p@));
            },
            None => {},
        }
        i += 1;
    }
    assert(texts(lines@).take(lines.len() as int) == texts(lines@));
    paths
}

/// A path with a leading `~` put under the home directory; other paths
/// stay as they are. Without a home directory a path with `~` has no
/// place.
pub open spec fn home_expanded(path: Seq<char>, home: Option<Seq<char>>) -> Option<Seq<char>> {
    if path.len() > 0 && path[0] == '~' {
        let rest = path.skip(1);
        let suffix = if rest.len() > 0 && rest[0] == '/' {
            rest.skip(1)
        } else {
            rest
        };
        match home {
            Some(h) => Some(join_path(h, suffix)),
            None => None,
        }
    } else {
        Some(path)
    }
}

/// The place that `path` names, given the home directory if there is one.
pub fn expand_home(path: &str, home: Option<&str>) -> (r: Option<String>)
    ensures
        crate::text::opt_text(r) == home_expanded(
            path@,
            match home {
                Some(h) => Some(h@),
                None => None,
            },
        ),
{
    let v = chars_of(path);
    if v.len() > 0 && v[0] == '~' {
        let from: usize = if v.len() > 1 && v[1] == '/' {
            2
        } else {
            1
        };
        let suffix = crate::text::copy_range(v.as_slice(), from, v.len());
        proof {
            let rest = v@.skip(1);
            if rest.len() > 0 && rest[0] == '/' {
                assert(rest.skip(1) =~= suffix@);
            } else {
                assert(rest =~= suffix@);
            }
        }
        match home {
            Some(h) => Some(joined(h, suffix.as_slice())),
            None => None,
        }
    } else {
        Some(String::from_str(path))
    }
}

/// Where the Wine binary may stand under the directory of a runner, in the
/// order in which the places are tried.
pub open spec fn wine_subpath(i: int) -> Seq<char> {
    if i == 0 {
        "files/bin/wine"@
    } else if i == 1 {
        "dist/bin/wine"@
    } else {
        "bin/wine"@
    }
}

/// The Wine binary of the runner under `base`: the first of the three
/// places at which a file is there.
pub fn find_wine_binary(base: &str, in_files_bin: bool, in_dist_bin: bool, in_bin: bool) -> (r:
    Option<String>)
    ensures
        crate::text::opt_text(r) == if in_files_bin {
            Some(join_path(base@, wine_subpath(0)))
        } else if in_dist_bin {
            Some(join_path(base@, wine_subpath(1)))
        } else if in_bin {
            Some(join_path(base@, wine_subpath(2)))
        } else {
            None
        },
{
    if in_files_bin {
        let p = chars_of("files/bin/wine");
        Some(joined(base, p.as_slice()))
    } else if in_dist_bin {
        let p = chars_of("dist/bin/wine");
        Some(joined(base, p.as_slice()))
    } else if in_bin {
        let p = chars_of("bin/wine");
        Some(joined(base, p.as_slice()))
    } else {
        None
    }
}

/// Where a runner was found.
#[derive(Debug, Clone, Copy, PartialEq, Eq, Structural)]
pub enum RunnerSource {
    System,
    Gaveloc,
    Lutris,
    Proton,
    HeroicWine,
    HeroicProton,
    Bottles,
    Custom,
}

impl RunnerSource {
    /// The type of the runners of this source.
    pub open spec fn runner_type(self) -> RunnerType {
        match self {
            RunnerSource::System => RunnerType::System,
            RunnerSource::Gaveloc => RunnerType::GavelocManaged,
            RunnerSource::Lutris => RunnerType::Lutris,
            RunnerSource::Proton => RunnerType::Proton,
            RunnerSource::HeroicWine => RunnerType::Custom,
            RunnerSource::HeroicProton => RunnerType::Proton,
            RunnerSource::Bottles => RunnerType::Custom,
            RunnerSource::Custom => RunnerType::Custom,
        }
    }

    /// The name of a runner of this source in the directory `name`; for
    /// Bottles, `group` is the kind of runner.
    pub open spec fn runner_name(self, group: Seq<char>, name: Seq<char>) -> Seq<char> {
        match self {
            RunnerSource::System => "System Wine"@,
            RunnerSource::Gaveloc => "Gaveloc - "@ + name,
            RunnerSource::Lutris => "Lutris - "@ + name,
            RunnerSource::Proton => "Proton - "@ + name,
            RunnerSource::HeroicWine => "Heroic (Wine) - "@ + name,
            RunnerSource::HeroicProton => "Heroic (Proton) - "@ + name,
            RunnerSource::Bottles => "Bottles ("@ + group + ") - "@ + name,
            RunnerSource::Custom => "Custom Runner"@,
        }
    }
}

/// The runner found at `path`.
pub fn detected_runner(source: RunnerSource, path: &str, group: &str, name: &str) -> (r:
    WineRunner)
    ensures
        r.path@ == path@,
        r.name@ == source.runner_name(group@, name@),
        r.runner_type == source.runner_type(),
        r.is_valid,
{
    let (label, runner_type) = match source {
        RunnerSource::System => (String::from_str("System Wine"), RunnerType::System),
        RunnerSource::Gaveloc => (concat2("Gaveloc - ", name), RunnerType::GavelocManaged),
        RunnerSource::Lutris => (concat2("Lutris - ", name), RunnerType::Lutris),
        RunnerSource::Proton => (concat2("Proton - ", name), RunnerType::Proton),
        RunnerSource::HeroicWine => (concat2("Heroic (Wine) - ", name), RunnerType::Custom),
        RunnerSource::HeroicProton => (concat2("Heroic (Proton) - ", name), RunnerType::Proton),
        RunnerSource::Bottles => {
            let mut s = concat2("Bottles (", group);
            s.append(") - ");
            s.append(name);
            (s, RunnerType::Custom)
        },
        RunnerSource::Custom => (String::from_str("Custom Runner"), RunnerType::Custom),
    };
    WineRunner { path: String::from_str(path), name: label, runner_type, is_valid: true }
}

/// The runner at a path the player chose: it must be there.
pub fn validate_runner(path: &str, exists: bool) -> (r: Result<WineRunner, Error>)
    ensures
        exists ==> (r matches Ok(w) && w.path@ == path@ && w.name@ == "Custom Runner"@
            && w.runner_type == RunnerType::Custom && w.is_valid),
        !exists ==> (r matches Err(Error::RunnerNotFound(p)) && p@ == path@),
{
    if exists {
        Ok(detected_runner(RunnerSource::Custom, path, "", ""))
    } else {
        Err(Error::RunnerNotFound(String::from_str(path)))
    }
}

} // verus!
