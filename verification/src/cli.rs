use vstd::prelude::*;
use crate::command::strs;
use crate::error::{ErrorV, YbuildError};
use crate::options::BuildOptions;

verus! {

/// What the command line asks for.
#[derive(Debug, PartialEq, Eq)]
pub struct Cli {
    pub options: BuildOptions,
    /// The directory to build in, when not the current one.
    pub target_dir: Option<String>,
    /// Build again whenever a file changes.
    pub watch: bool,
    /// Choose the build system even when one is remembered.
    pub select_system: bool,
    /// Choose the command or target even when one is remembered.
    pub select_command: bool,
    /// A command to run in place of a build system.
    pub custom_command: Option<String>,
}

/// What a command line asks for, with its text as text.
pub struct CliV {
    pub options: BuildOptions,
    pub target_dir: Option<Seq<char>>,
    pub watch: bool,
    pub select_system: bool,
    pub select_command: bool,
    pub custom_command: Option<Seq<char>>,
}

impl View for Cli {
    type V = CliV;

    open spec fn view(&self) -> CliV {
        CliV {
            options: self.options,
            target_dir: crate::command::opt_v(self.target_dir),
            watch: self.watch,
            select_system: self.select_system,
            select_command: self.select_command,
            custom_command: crate::command::opt_v(self.custom_command),
        }
    }
}

/// The argument parser of pico-args, holding the arguments not yet taken.
#[verifier::external_type_specification]
#[verifier::external_body]
pub struct ExArguments(pico_args::Arguments);

/// The arguments a pico-args parser still holds, in order.
pub uninterp spec fn args_left(a: pico_args::Arguments) -> Seq<Seq<char>>;

/// The first place of `x` in `s`; the length of `s` when it is absent.
pub open spec fn position(s: Seq<Seq<char>>, x: Seq<char>) -> int
    decreases s.len(),
{
    if s.len() == 0 {
        0
    } else if s[0] == x {
        0
    } else {
        1 + position(s.drop_first(), x)
    }
}

pub proof fn lemma_position(s: Seq<Seq<char>>, x: Seq<char>)
    ensures
        0 <= position(s, x) <= s.len(),
        s.contains(x) <==> position(s, x) < s.len(),
        position(s, x) < s.len() ==> s[position(s, x)] == x,
        forall|j: int| 0 <= j < position(s, x) ==> s[j] != x,
    decreases s.len(),
{
    if s.len() > 0 && s[0] != x {
        let t = s.drop_first();
        lemma_position(t, x);
        assert forall|j: int| 0 <= j < position(s, x) implies s[j] != x by {
            if j > 0 {
                assert(s[j] == t[j - 1]);
            }
        }
        if s.contains(x) {
            let k = choose|k: int| 0 <= k < s.len() && s[k] == x;
            assert(k > 0);
            assert(t[k - 1] == x);
        }
        if t.contains(x) {
            let k = choose|k: int| 0 <= k < t.len() && t[k] == x;
            assert(s[k + 1] == x);
        }
    }
}

/// Where pico-args finds a key given in short and long form: the first
/// exact occurrence of the short form, else the first of the long form.
pub open spec fn key_at(args: Seq<Seq<char>>, short: Seq<char>, long: Seq<char>) -> Option<int> {
    if args.contains(short) {
        Some(position(args, short))
    } else if args.contains(long) {
        Some(position(args, long))
    } else {
        None
    }
}

/// The form of the key that was found.
pub open spec fn key_found(args: Seq<Seq<char>>, short: Seq<char>, long: Seq<char>) -> Seq<char> {
    if args.contains(short) {
        short
    } else {
        long
    }
}

/// Whether a pair of keys is one that pico-args accepts: a dash and one
/// character other than a dash, and a double dash followed by a name.
pub open spec fn keys_ok(short: Seq<char>, long: Seq<char>) -> bool {
    &&& short.len() == 2
    &&& short[0] == '-'
    &&& short[1] != '-'
    &&& long.len() > 2
    &&& long[0] == '-'
    &&& long[1] == '-'
}

/// The message pico-args gives for an option whose value is missing.
pub open spec fn missing_value_message(key: Seq<char>) -> Seq<char> {
    "the '"@ + key + "' option doesn't have an associated value"@
}

/// A pico-args parser over `args` (`pico_args::Arguments::from_vec`).
/// Claimed: it holds exactly these arguments, in this order.
#[verifier::external_body]
fn arguments_from(args: Vec<String>) -> (r: pico_args::Arguments)
    ensures
        args_left(r) == strs(args@),
{
    pico_args::Arguments::from_vec(args.into_iter().map(|s| s.into()).collect())
}

/// Takes a flag (`pico_args::Arguments::contains`). Claimed, as its source
/// shows: the flag is found at `key_at`; when found it is removed and the
/// result is true; otherwise nothing changes and the result is false.
#[verifier::external_body]
fn take_flag(a: &mut pico_args::Arguments, short: &'static str, long: &'static str) -> (r: bool)
    requires
        keys_ok(short@, long@),
    ensures
        match key_at(args_left(*old(a)), short@, long@) {
            Some(i) => r && args_left(*final(a)) == args_left(*old(a)).remove(i),
            None => !r && args_left(*final(a)) == args_left(*old(a)),
        },
{
    a.contains([short, long])
}

/// Takes an option's value (`pico_args::Arguments::opt_value_from_str`,
/// as a `String`, without the optional features). Claimed, as its source
/// shows: without the key, nothing and no change; with the key followed by
/// an argument, that argument, and both are removed; with the key last, the
/// error message for the form of the key that was found, and no change.
#[verifier::external_body]
fn take_value(a: &mut pico_args::Arguments, short: &'static str, long: &'static str) -> (r: Result<
    Option<String>,
    String,
>)
    requires
        keys_ok(short@, long@),
    ensures
        match key_at(args_left(*old(a)), short@, long@) {
            None => r == Ok::<Option<String>, String>(None) && args_left(*final(a)) == args_left(
                *old(a),
            ),
            Some(i) => if i + 1 < args_left(*old(a)).len() {
                r matches Ok(Some(v)) && v@ == args_left(*old(a))[i + 1] && args_left(*final(a))
                    == args_left(*old(a)).remove(i).remove(i)
            } else {
                r matches Err(m) && m@ == missing_value_message(
                    key_found(args_left(*old(a)), short@, long@),
                ) && args_left(*final(a)) == args_left(*old(a))
            },
        },
{
    match a.opt_value_from_str::<[&'static str; 2], String>([short, long]) {
        Ok(v) => Ok(v),
        Err(e) => Err(e.to_string()),
    }
}

/// Takes the first remaining argument (`pico_args::Arguments::opt_free_from_str`,
/// as a `String`). Claimed, as its source shows: nothing when none is left;
/// otherwise the first argument, removed. Arguments made from strings are
/// UTF-8 and any text reads as a `String`, so it does not fail.
#[verifier::external_body]
fn take_free(a: &mut pico_args::Arguments) -> (r: Result<Option<String>, String>)
    ensures
        if args_left(*old(a)).len() == 0 {
            r == Ok::<Option<String>, String>(None) && args_left(*final(a)) == args_left(*old(a))
        } else {
            r matches Ok(Some(v)) && v@ == args_left(*old(a))[0] && args_left(*final(a))
                == args_left(*old(a)).drop_first()
        },
{
    match a.opt_free_from_str::<String>() {
        Ok(v) => Ok(v),
        Err(e) => Err(e.to_string()),
    }
}

/// What the command line asks for: the help text, the list of systems, or
/// a run.
#[derive(Debug, PartialEq, Eq)]
pub enum CliRequest {
    Help,
    List,
    Run(Cli),
}

/// What parsing a command line comes to, over text.
pub enum CliParseV {
    Help,
    List,
    Run(CliV),
    Fail(ErrorV),
}

/// Whether the key is among the arguments.
pub open spec fn has_key(args: Seq<Seq<char>>, short: Seq<char>, long: Seq<char>) -> bool {
    key_at(args, short, long) is Some
}

/// The arguments once the key is taken.
pub open spec fn drop_key(args: Seq<Seq<char>>, short: Seq<char>, long: Seq<char>) -> Seq<Seq<char>> {
    match key_at(args, short, long) {
        Some(i) => args.remove(i),
        None => args,
    }
}

/// The value given to the key, if it is present and followed by one.
pub open spec fn value_of(args: Seq<Seq<char>>, short: Seq<char>, long: Seq<char>) -> Option<Seq<char>> {
    match key_at(args, short, long) {
        Some(i) => if i + 1 < args.len() {
            Some(args[i + 1])
        } else {
            None
        },
        None => None,
    }
}

/// The arguments once the key and its value are taken.
pub open spec fn drop_value(args: Seq<Seq<char>>, short: Seq<char>, long: Seq<char>) -> Seq<Seq<char>> {
    match key_at(args, short, long) {
        Some(i) => args.remove(i).remove(i),
        None => args,
    }
}

/// The run a command line asks for once the help and list flags are known
/// to be absent: the flags `-r`, `-x`, `-t`, `-s`, `-S`, `-w` (or their long
/// forms) are taken in that order, then the value of `-c`/`--command`, then
/// the first remaining argument is the directory.
pub open spec fn run_request(a0: Seq<Seq<char>>) -> CliParseV {
    let release = has_key(a0, "-r"@, "--release"@);
    let a1 = drop_key(a0, "-r"@, "--release"@);
    let run = has_key(a1, "-x"@, "--run"@);
    let a2 = drop_key(a1, "-x"@, "--run"@);
    let test = has_key(a2, "-t"@, "--test"@);
    let a3 = drop_key(a2, "-t"@, "--test"@);
    let select_system = has_key(a3, "-s"@, "--system"@);
    let a4 = drop_key(a3, "-s"@, "--system"@);
    let select_command = has_key(a4, "-S"@, "--select"@);
    let a5 = drop_key(a4, "-S"@, "--select"@);
    let watch = has_key(a5, "-w"@, "--watch"@);
    let a6 = drop_key(a5, "-w"@, "--watch"@);
    if has_key(a6, "-c"@, "--command"@) && value_of(a6, "-c"@, "--command"@) is None {
        CliParseV::Fail(
            ErrorV::Other(missing_value_message(key_found(a6, "-c"@, "--command"@))),
        )
    } else {
        let a7 = drop_value(a6, "-c"@, "--command"@);
        CliParseV::Run(
            CliV {
                options: BuildOptions { run, release, test, select_system, select_command },
                target_dir: if a7.len() > 0 {
                    Some(a7[0])
                } else {
                    None
                },
                watch,
                select_system,
                select_command,
                custom_command: value_of(a6, "-c"@, "--command"@),
            },
        )
    }
}

/// What a command line (without the program name) asks for: help when
/// `-h`/`--help` is present; else the list of systems when `-l`/`--list`
/// is; else a run.
pub open spec fn parse_v(args: Seq<Seq<char>>) -> CliParseV {
    if has_key(args, "-h"@, "--help"@) {
        CliParseV::Help
    } else if has_key(args, "-l"@, "--list"@) {
        CliParseV::List
    } else {
        run_request(args)
    }
}

/// What a parse result is, over text.
pub open spec fn request_v(r: Result<CliRequest, YbuildError>) -> CliParseV {
    match r {
        Ok(CliRequest::Help) => CliParseV::Help,
        Ok(CliRequest::List) => CliParseV::List,
        Ok(CliRequest::Run(c)) => CliParseV::Run(c@),
        Err(e) => CliParseV::Fail(e@),
    }
}

/// Reads a command line (the arguments after the program name) with
/// pico-args.
pub fn parse_cli(args: Vec<String>) -> (r: Result<CliRequest, YbuildError>)
    ensures
        request_v(r) == parse_v(strs(args@)),
{
    proof {
        reveal_strlit("-h");
        reveal_strlit("--help");
        reveal_strlit("-l");
        reveal_strlit("--list");
        reveal_strlit("-r");
        reveal_strlit("--release");
        reveal_strlit("-x");
        reveal_strlit("--run");
        reveal_strlit("-t");
        reveal_strlit("--test");
        reveal_strlit("-s");
        reveal_strlit("--system");
        reveal_strlit("-S");
        reveal_strlit("--select");
        reveal_strlit("-w");
        reveal_strlit("--watch");
        reveal_strlit("-c");
        reveal_strlit("--command");
    }
    let ghost a0 = strs(args@);
    let mut a = arguments_from(args);
    if take_flag(&mut a, "-h", "--help") {
        return Ok(CliRequest::Help);
    }
    if take_flag(&mut a, "-l", "--list") {
        return Ok(CliRequest::List);
    }
    let release = take_flag(&mut a, "-r", "--release");
    let run = take_flag(&mut a, "-x", "--run");
    let test = take_flag(&mut a, "-t", "--test");
    let select_system = take_flag(&mut a, "-s", "--system");
    let select_command = take_flag(&mut a, "-S", "--select");
    let watch = take_flag(&mut a, "-w", "--watch");
    let custom_command = match take_value(&mut a, "-c", "--command") {
        Ok(v) => v,
        Err(m) => {
            return Err(YbuildError::Other(m));
        },
    };
    let target_dir = match take_free(&mut a) {
        Ok(v) => v,
        Err(m) => {
            return Err(YbuildError::Other(m));
        },
    };
    let options = BuildOptions { run, release, test, select_system, select_command };
    Ok(
        CliRequest::Run(
            Cli { options, target_dir, watch, select_system, select_command, custom_command },
        ),
    )
}

/// Taking a key leaves every other argument where it can still be found.
proof fn lemma_drop_key_keeps_others(a: Seq<Seq<char>>, short: Seq<char>, long: Seq<char>)
    ensures
        forall|x: Seq<char>|
            x != short && x != long ==> (#[trigger] drop_key(a, short, long).contains(x)
                == a.contains(x)),
{
    lemma_position(a, short);
    lemma_position(a, long);
    match key_at(a, short, long) {
        Some(i) => {
            assert(a[i] == short || a[i] == long);
            assert forall|x: Seq<char>| x != short && x != long implies #[trigger] a.remove(i).contains(
                x,
            ) == a.contains(x) by {
                let b = a.remove(i);
                if a.contains(x) {
                    let k = choose|k: int| 0 <= k < a.len() && a[k] == x;
                    assert(k != i);
                    if k < i {
                        assert(b[k] == x);
                    } else {
                        assert(b[k - 1] == x);
                    }
                }
                if b.contains(x) {
                    let k = choose|k: int| 0 <= k < b.len() && b[k] == x;
                    if k < i {
                        assert(a[k] == x);
                    } else {
                        assert(a[k + 1] == x);
                    }
                }
            }
        },
        None => {},
    }
}

/// Arguments may come in any order: when a command line asks for a run,
/// each flag is set exactly when its short or its long form is among the
/// arguments, wherever it stands.
pub proof fn law_flags_anywhere(args: Seq<Seq<char>>)
    requires
        parse_v(args) is Run,
    ensures
        parse_v(args) matches CliParseV::Run(c) && {
            &&& c.options.release == (args.contains("-r"@) || args.contains("--release"@))
            &&& c.options.run == (args.contains("-x"@) || args.contains("--run"@))
            &&& c.options.test == (args.contains("-t"@) || args.contains("--test"@))
            &&& c.select_system == (args.contains("-s"@) || args.contains("--system"@))
            &&& c.select_command == (args.contains("-S"@) || args.contains("--select"@))
            &&& c.watch == (args.contains("-w"@) || args.contains("--watch"@))
        },
{
    reveal_strlit("-r");
    reveal_strlit("--release");
    reveal_strlit("-x");
    reveal_strlit("--run");
    reveal_strlit("-t");
    reveal_strlit("--test");
    reveal_strlit("-s");
    reveal_strlit("--system");
    reveal_strlit("-S");
    reveal_strlit("--select");
    reveal_strlit("-w");
    reveal_strlit("--watch");
    let a1 = drop_key(args, "-r"@, "--release"@);
    let a2 = drop_key(a1, "-x"@, "--run"@);
    let a3 = drop_key(a2, "-t"@, "--test"@);
    let a4 = drop_key(a3, "-s"@, "--system"@);
    let a5 = drop_key(a4, "-S"@, "--select"@);
    lemma_drop_key_keeps_others(args, "-r"@, "--release"@);
    lemma_drop_key_keeps_others(a1, "-x"@, "--run"@);
    lemma_drop_key_keeps_others(a2, "-t"@, "--test"@);
    lemma_drop_key_keeps_others(a3, "-s"@, "--system"@);
    lemma_drop_key_keeps_others(a4, "-S"@, "--select"@);
    assert("-r"@[1] != "-x"@[1]);
    assert("--run"@.len() != "-r"@.len() && "--run"@.len() != "--release"@.len());
    assert("-t"@[1] != "-r"@[1] && "-t"@[1] != "-x"@[1]);
    assert("--test"@.len() != "-r"@.len() && "--test"@.len() != "--release"@.len());
    assert("--test"@.len() != "--run"@.len());
    assert("-s"@[1] != "-r"@[1] && "-s"@[1] != "-x"@[1] && "-s"@[1] != "-t"@[1]);
    assert("--system"@.len() != "-r"@.len() && "--system"@.len() != "--release"@.len());
    assert("--system"@.len() != "--run"@.len() && "--system"@.len() != "--test"@.len());
    assert("-S"@[1] != "-r"@[1] && "-S"@[1] != "-x"@[1] && "-S"@[1] != "-t"@[1]);
    assert("-S"@[1] != "-s"@[1]);
    assert("--select"@.len() != "-r"@.len() && "--select"@.len() != "--release"@.len());
    assert("--select"@.len() != "--run"@.len() && "--select"@.len() != "--test"@.len());
    assert("--select"@[3] != "--system"@[3]);
    assert("-w"@[1] != "-r"@[1] && "-w"@[1] != "-x"@[1] && "-w"@[1] != "-t"@[1]);
    assert("-w"@[1] != "-s"@[1] && "-w"@[1] != "-S"@[1]);
    assert("--watch"@.len() != "-r"@.len() && "--watch"@.len() != "--release"@.len());
    assert("--watch"@.len() != "--run"@.len() && "--watch"@.len() != "--test"@.len());
    assert("--watch"@.len() != "--system"@.len() && "--watch"@.len() != "--select"@.len());
    assert(a1.contains("-x"@) == args.contains("-x"@));
    assert(a1.contains("--run"@) == args.contains("--run"@));
    assert(a2.contains("-t"@) == args.contains("-t"@));
    assert(a2.contains("--test"@) == args.contains("--test"@));
    assert(a3.contains("-s"@) == args.contains("-s"@));
    assert(a3.contains("--system"@) == args.contains("--system"@));
    assert(a4.contains("-S"@) == args.contains("-S"@));
    assert(a4.contains("--select"@) == args.contains("--select"@));
    assert(a5.contains("-w"@) == args.contains("-w"@));
    assert(a5.contains("--watch"@) == args.contains("--watch"@));
}

/// The help text, as written to standard output.
pub open spec fn help_v() -> Seq<char> {
    "\x1b[1;36mybuild\x1b[0m - A universal build utility\n\n"@ + "Usage: builder [OPTIONS] [DIRECTORY]\n\n"@
        + "Options:\n"@ + "  -x, --run          Build and execute\n"@
        + "  -t, --test         Run project tests\n"@ + "  -r, --release      Enable release optimizations\n"@
        + "  -w, --watch        Rerun on file changes\n"@
        + "  -c, --command <C>  Execute custom command\n"@
        + "  -s, --system       Force selection of build system\n"@
        + "  -S, --select       Force selection of subcommand/target\n"@
        + "  -l, --list         List all supported systems\n"@
        + "  -h, --help         Show this help message\n\n"@
}

/// The help text, as written to standard output.
pub fn help_text() -> (r: String)
    ensures
        r@ == help_v(),
{
    let mut r = "\x1b[1;36mybuild\x1b[0m - A universal build utility\n\n".to_owned();
    r.append("Usage: builder [OPTIONS] [DIRECTORY]\n\n");
    r.append("Options:\n");
    r.append("  -x, --run          Build and execute\n");
    r.append("  -t, --test         Run project tests\n");
    r.append("  -r, --release      Enable release optimizations\n");
    r.append("  -w, --watch        Rerun on file changes\n");
    r.append("  -c, --command <C>  Execute custom command\n");
    r.append("  -s, --system       Force selection of build system\n");
    r.append("  -S, --select       Force selection of subcommand/target\n");
    r.append("  -l, --list         List all supported systems\n");
    r.append("  -h, --help         Show this help message\n\n");
    r
}

} // verus!
