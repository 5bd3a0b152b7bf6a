//! Starting the game under Wine: the wrappers put before the runner, the
//! environment, and the command line.

use vstd::prelude::*;
use crate::config::{GameSettings, WineSettings};
use crate::numbers::{decimal, decimal_chars};
use crate::text::{chars_of, string_of, strings};

verus! {

/// The words that a shell would split a line into.
pub uninterp spec fn shell_words(line: Seq<char>) -> Option<Seq<Seq<char>>>;

/// `shlex::split`: the words of `line` as a POSIX shell splits them, or
/// nothing where the line is malformed, as with a quote left open.
#[verifier::external_body]
fn split_words(line: &str) -> (r: Option<Vec<String>>)
    ensures
        match r {
            Some(words) => shell_words(line@) == Some(strings(words@)),
            None => shell_words(line@) is None,
        },
{
    shlex::split(line)
}

/// Starter of game processes.
#[derive(Debug, Clone, Copy)]
pub struct LinuxProcessLauncher;

impl LinuxProcessLauncher {
    pub fn new() -> Self {
        LinuxProcessLauncher
    }
}

impl Default for LinuxProcessLauncher {
    fn default() -> Self {
        LinuxProcessLauncher
    }
}

/// A flag and the number that follows it, where the number is set.
pub open spec fn flag_with(flag: Seq<char>, value: Option<u32>) -> Seq<Seq<char>> {
    match value {
        Some(n) => seq![flag, decimal(n as nat)],
        None => Seq::empty(),
    }
}

/// One word where `on`, else none.
pub open spec fn word_if(on: bool, word: Seq<char>) -> Seq<Seq<char>> {
    if on {
        seq![word]
    } else {
        Seq::empty()
    }
}

/// The words that start gamescope with its options and the words of its
/// extra arguments, closed by `--`.
pub open spec fn gamescope_words(gs: crate::config::GamescopeSettings, extra: Seq<Seq<char>>) -> Seq<
    Seq<char>,
> {
    seq!["gamescope"@] + flag_with("-W"@, gs.width) + flag_with("-H"@, gs.height) + flag_with(
        "-r"@,
        gs.refresh_rate,
    ) + word_if(gs.fullscreen, "-f"@) + word_if(gs.borderless, "-b"@) + extra + seq!["--"@]
}

/// The wrappers for the given settings and the words of the extra
/// arguments: gamemode, mangohud, then gamescope with its options.
pub open spec fn wrapper_words(settings: GameSettings, extra: Seq<Seq<char>>) -> Seq<Seq<char>> {
    word_if(settings.gamemode, "gamemoderun"@) + word_if(settings.mangohud, "mangohud"@) + (
    if settings.gamescope {
        gamescope_words(settings.gamescope_settings, extra)
    } else {
        Seq::empty()
    })
}

/// The words of the extra arguments of gamescope: none where there are no
/// extra arguments or where they are malformed.
pub open spec fn extra_words(extra_args: Option<String>) -> Seq<Seq<char>> {
    match extra_args {
        Some(line) => match shell_words(line@) {
            Some(words) => words,
            None => Seq::empty(),
        },
        None => Seq::empty(),
    }
}

fn push_word(out: &mut Vec<String>, word: &str)
    ensures
        strings(final(out)@) == strings(old(out)@) + seq![word@],
{
    let w = String::from_str(word);
    out.push(w);
    assert(strings(out@) =~= strings(old(out)@) + seq![word@]);
}

fn push_flag(out: &mut Vec<String>, flag: &str, value: Option<u32>)
    ensures
        strings(final(out)@) == strings(old(out)@) + flag_with(flag@, value),
{
    match value {
        Some(n) => {
            push_word(out, flag);
            let d = decimal_chars(n as u64);
            let w = string_of(d.as_slice());
            let ghost before = strings(out@);
            out.push(w);
            assert(strings(out@) =~= before + seq![decimal(n as nat)]);
            assert(strings(out@) =~= strings(old(out)@) + flag_with(flag@, value));
        },
        None => {
            assert(strings(out@) =~= strings(old(out)@) + flag_with(flag@, value));
        },
    }
}

fn push_if(out: &mut Vec<String>, on: bool, word: &str)
    ensures
        strings(final(out)@) == strings(old(out)@) + word_if(on, word@),
{
    if on {
        push_word(out, word);
    } else {
        assert(strings(out@) =~= strings(old(out)@) + word_if(on, word@));
    }
}

fn push_all(out: &mut Vec<String>, words: Vec<String>)
    ensures
        strings(final(out)@) == strings(old(out)@) + strings(words@),
{
    let mut words = words;
    let ghost all = strings(words@);
    let ghost start = strings(out@);
    let mut i: usize = 0;
    while i < words.len()
        invariant
            i <= words.len(),
            strings(words@) == all,
            strings(out@) =~= start + all.take(i as int),
        decreases words.len() - i,
    {
        let w = words[i].clone();
        let ghost before = strings(out@);
        out.push(w);
        assert(strings(out@) =~= before + seq![all[i as int]]);
        i += 1;
    }
    assert(all.take(all.len() as int) == all);
}

fn gamescope_args(gs: &crate::config::GamescopeSettings) -> (words: Vec<String>)
    ensures
        strings(words@) == gamescope_words(*gs, extra_words(gs.extra_args)),
{
    let mut words: Vec<String> = Vec::new();
    assert(strings(words@) =~= Seq::<Seq<char>>::empty());
    push_word(&mut words, "gamescope");
    let ghost s0 = strings(words@);
    assert(s0 =~= seq!["gamescope"@]);
    push_flag(&mut words, "-W", gs.width);
    let ghost s1 = strings(words@);
    push_flag(&mut words, "-H", gs.height);
    let ghost s2 = strings(words@);
    push_flag(&mut words, "-r", gs.refresh_rate);
    let ghost s3 = strings(words@);
    push_if(&mut words, gs.fullscreen, "-f");
    let ghost s4 = strings(words@);
    push_if(&mut words, gs.borderless, "-b");
    let ghost s5 = strings(words@);
    match &gs.extra_args {
        Some(line) => match split_words(line.as_str()) {
            Some(extra) => {
                push_all(&mut words, extra);
            },
            None => {
                assert(strings(words@) =~= s5 + extra_words(gs.extra_args));
            },
        },
        None => {
            assert(strings(words@) =~= s5 + extra_words(gs.extra_args));
        },
    }
    let ghost s6 = strings(words@);
    assert(s6 == s5 + extra_words(gs.extra_args));
    push_word(&mut words, "--");
    words
}

/// The wrappers to put before the runner.
pub fn build_wrapper_args(settings: &GameSettings) -> (wrappers: Vec<String>)
    ensures
        strings(wrappers@) == wrapper_words(
            *settings,
            extra_words(settings.gamescope_settings.extra_args),
        ),
{
    let mut wrappers: Vec<String> = Vec::new();
    assert(strings(wrappers@) =~= Seq::<Seq<char>>::empty());
    push_if(&mut wrappers, settings.gamemode, "gamemoderun");
    push_if(&mut wrappers, settings.mangohud, "mangohud");
    let ghost base = strings(wrappers@);
    assert(base =~= word_if(settings.gamemode, "gamemoderun"@) + word_if(
        settings.mangohud,
        "mangohud"@,
    ));
    if settings.gamescope {
        let gs = gamescope_args(&settings.gamescope_settings);
        push_all(&mut wrappers, gs);
    } else {
        assert(base =~= base + Seq::<Seq<char>>::empty());
    }
    wrappers
}

/// One variable of the environment.
#[derive(Debug, Clone)]
pub struct EnvVar {
    pub name: String,
    pub value: String,
}

/// The names and values of a list of variables.
pub open spec fn env_view(env: Seq<EnvVar>) -> Seq<(Seq<char>, Seq<char>)> {
    env.map_values(|v: EnvVar| (v.name@, v.value@))
}

/// One variable where `on`, else none.
pub open spec fn var_if(on: bool, name: Seq<char>, value: Seq<char>) -> Seq<
    (Seq<char>, Seq<char>),
> {
    if on {
        seq![(name, value)]
    } else {
        Seq::empty()
    }
}

/// The environment of the game: the prefix, the architecture, and the
/// synchronisation the settings ask for.
pub open spec fn wine_env(prefix_path: Seq<char>, wine: WineSettings) -> Seq<
    (Seq<char>, Seq<char>),
> {
    seq![("WINEPREFIX"@, prefix_path), ("WINEARCH"@, "win64"@)] + var_if(
        wine.esync,
        "WINEESYNC"@,
        "1"@,
    ) + var_if(wine.fsync, "WINEFSYNC"@, "1"@) + var_if(wine.winesync, "WINEFSYNC_FUTEX2"@, "1"@)
        + (match wine.dxvk_hud {
        Some(hud) => seq![("DXVK_HUD"@, hud@)],
        None => Seq::empty(),
    })
}

fn push_var(env: &mut Vec<EnvVar>, on: bool, name: &str, value: &str)
    ensures
        env_view(final(env)@) == env_view(old(env)@) + var_if(on, name@, value@),
{
    if on {
        env.push(EnvVar { name: String::from_str(name), value: String::from_str(value) });
        assert(env_view(env@) =~= env_view(old(env)@) + var_if(on, name@, value@));
    } else {
        assert(env_view(env@) =~= env_view(old(env)@) + var_if(on, name@, value@));
    }
}

/// The environment to start the game in.
pub fn build_environment(prefix_path: &str, wine: &WineSettings) -> (env: Vec<EnvVar>)
    ensures
        env_view(env@) == wine_env(prefix_path@, *wine),
{
    let mut env: Vec<EnvVar> = Vec::new();
    assert(env_view(env@) =~= Seq::<(Seq<char>, Seq<char>)>::empty());
    push_var(&mut env, true, "WINEPREFIX", prefix_path);
    push_var(&mut env, true, "WINEARCH", "win64");
    push_var(&mut env, wine.esync, "WINEESYNC", "1");
    push_var(&mut env, wine.fsync, "WINEFSYNC", "1");
    push_var(&mut env, wine.winesync, "WINEFSYNC_FUTEX2", "1");
    match &wine.dxvk_hud {
        Some(hud) => {
            push_var(&mut env, true, "DXVK_HUD", hud.as_str());
        },
        None => {},
    }
    assert(env_view(env@) =~= wine_env(prefix_path@, *wine));
    env
}

/// The words of a text between runs of white space.
pub open spec fn plain_words(line: Seq<char>) -> Seq<Seq<char>>
    decreases line.len(),
{
    if line.len() == 0 {
        Seq::empty()
    } else if crate::text::is_space(line.last()) {
        plain_words(line.drop_last())
    } else if line.len() >= 2 && !crate::text::is_space(line[line.len() - 2]) {
        let before = plain_words(line.drop_last());
        before.drop_last().push(before.last().push(line.last()))
    } else {
        plain_words(line.drop_last()).push(seq![line.last()])
    }
}

/// The words of a text between runs of white space.
pub fn split_whitespace(line: &[char]) -> (words: Vec<Vec<char>>)
    ensures
        crate::text::texts(words@) == plain_words(line@),
{
    let mut words: Vec<Vec<char>> = Vec::new();
    let mut current: Vec<char> = Vec::new();
    let mut i: usize = 0;
    assert(crate::text::texts(words@) =~= Seq::<Seq<char>>::empty());
    while i < line.len()
        invariant
            i <= line.len(),
            current@.len() > 0 <==> (i > 0 && !crate::text::is_space(line@[i - 1])),
            plain_words(line@.take(i as int)) == if current@.len() > 0 {
                crate::text::texts(words@).push(current@)
            } else {
                crate::text::texts(words@)
            },
        decreases line.len() - i,
    {
        let c = line[i];
        proof {
            let t = line@.take(i + 1);
            assert(t.drop_last() == line@.take(i as int));
            assert(t.last() == c);
            if i > 0 {
                assert(t[t.len() - 2] == line@[i - 1]);
            }
        }
        if crate::text::is_space_char(c) {
            if current.len() > 0 {
                let ghost before = crate::text::texts(words@);
                words.push(current);
                assert(crate::text::texts(words@) =~= before.push(current@));
                current = Vec::new();
            }
        } else {
            let ghost old_current = current@;
            current.push(c);
            proof {
                let w = crate::text::texts(words@);
                if old_current.len() > 0 {
                    assert(w.push(old_current).drop_last() =~= w);
                    assert(w.push(old_current).last() == old_current);
                } else {
                    assert(current@ =~= seq![c]);
                }
            }
        }
        i += 1;
    }
    assert(line@.take(line.len() as int) == line@);
    if current.len() > 0 {
        let ghost before = crate::text::texts(words@);
        words.push(current);
        assert(crate::text::texts(words@) =~= before.push(current@));
    }
    words
}

/// The arguments of the game: the words of the argument line as a shell
/// splits them, or the words between white space where the line is
/// malformed.
pub open spec fn game_arguments(args: Seq<char>) -> Seq<Seq<char>> {
    match shell_words(args) {
        Some(words) => words,
        None => plain_words(args),
    }
}

/// The arguments of the game from its argument line.
pub fn split_launch_args(args: &str) -> (words: Vec<String>)
    ensures
        strings(words@) == game_arguments(args@),
{
    match split_words(args) {
        Some(words) => words,
        None => {
            let v = chars_of(args);
            let parts = split_whitespace(v.as_slice());
            let mut words: Vec<String> = Vec::new();
            let mut i: usize = 0;
            while i < parts.len()
                invariant
                    i <= parts.len(),
                    strings(words@) =~= crate::text::texts(parts@).take(i as int),
                decreases parts.len() - i,
            {
                let w = string_of(parts[i].as_slice());
                let ghost before = strings(words@);
                words.push(w);
                assert(strings(words@) =~= before.push(parts@[i as int]@));
                i += 1;
            }
            assert(crate::text::texts(parts@).take(parts.len() as int) == crate::text::texts(
                parts@,
            ));
            words
        },
    }
}

/// The command that starts the game.
#[derive(Debug, Clone)]
pub struct LaunchCommand {
    /// The program to run: the first wrapper, or the runner.
    pub program: String,
    /// Its arguments: the other wrappers, the runner unless it is the
    /// program, the game executable, and the arguments of the game.
    pub args: Vec<String>,
    pub env: Vec<EnvVar>,
}

/// The command line: wrappers, runner, game executable, game arguments.
pub open spec fn command_words(
    wrappers: Seq<Seq<char>>,
    runner: Seq<char>,
    game_exe: Seq<char>,
    game_args: Seq<Seq<char>>,
) -> Seq<Seq<char>> {
    wrappers + seq![runner, game_exe] + game_args
}

/// The command that starts the game executable under the runner.
pub fn launch_command(
    runner_path: &str,
    prefix_path: &str,
    game_exe: &str,
    args: &str,
    wine_settings: &WineSettings,
    game_settings: &GameSettings,
) -> (cmd: LaunchCommand)
    ensures
        seq![cmd.program@] + strings(cmd.args@) == command_words(
            wrapper_words(*game_settings, extra_words(game_settings.gamescope_settings.extra_args)),
            runner_path@,
            game_exe@,
            game_arguments(args@),
        ),
        env_view(cmd.env@) == wine_env(prefix_path@, *wine_settings),
{
    let wrappers = build_wrapper_args(game_settings);
    let mut line: Vec<String> = Vec::new();
    assert(strings(line@) =~= Seq::<Seq<char>>::empty());
    push_all(&mut line, wrappers);
    push_word(&mut line, runner_path);
    push_word(&mut line, game_exe);
    let words = split_launch_args(args);
    push_all(&mut line, words);
    let ghost all = strings(line@);
    assert(all =~= command_words(
        wrapper_words(*game_settings, extra_words(game_settings.gamescope_settings.extra_args)),
        runner_path@,
        game_exe@,
        game_arguments(args@),
    ));
    let program = line[0].clone();
    let mut rest: Vec<String> = Vec::new();
    let mut i: usize = 1;
    while i < line.len()
        invariant
            1 <= i <= line.len(),
            strings(line@) == all,
            strings(rest@) =~= all.subrange(1, i as int),
        decreases line.len() - i,
    {
        let w = line[i].clone();
        let ghost before = strings(rest@);
        rest.push(w);
        assert(strings(rest@) =~= before.push(all[i as int]));
        i += 1;
    }
    assert(seq![program@] + strings(rest@) =~= all);
    LaunchCommand { program, args: rest, env: build_environment(prefix_path, wine_settings) }
}

} // verus!
