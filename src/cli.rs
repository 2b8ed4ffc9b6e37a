use vstd::prelude::*;

use crate::text::{copy_text, opt_text, text_eq};

verus! {

/// The characters of each argument.
pub open spec fn arg_views(args: Seq<&str>) -> Seq<Seq<char>> {
    args.map_values(|a: &str| a@)
}

/// The options of `rest`, read as `--flag value` pairs: each flag must be one of `allowed`
/// and may come once; anything else is refused.
pub open spec fn parse_flags(rest: Seq<Seq<char>>, allowed: Seq<Seq<char>>) -> Option<
    Map<Seq<char>, Seq<char>>,
>
    decreases rest.len(),
{
    if rest.len() == 0 {
        Some(Map::empty())
    } else if rest.len() == 1 {
        None
    } else {
        match parse_flags(rest.take(rest.len() - 2), allowed) {
            None => None,
            Some(m) => {
                let f = rest[rest.len() - 2];
                let v = rest[rest.len() - 1];
                if allowed.contains(f) && !m.dom().contains(f) {
                    Some(m.insert(f, v))
                } else {
                    None
                }
            },
        }
    }
}

proof fn lemma_odd_refused(rest: Seq<Seq<char>>, allowed: Seq<Seq<char>>)
    requires
        rest.len() % 2 == 1,
    ensures
        parse_flags(rest, allowed) is None,
    decreases rest.len(),
{
    if rest.len() > 1 {
        lemma_odd_refused(rest.take(rest.len() - 2), allowed);
    }
}

/// The value of `flag` among parsed options.
pub open spec fn flag_value(m: Map<Seq<char>, Seq<char>>, flag: Seq<char>) -> Option<Seq<char>> {
    if m.dom().contains(flag) {
        Some(m[flag])
    } else {
        None
    }
}

/// No two entries are equal.
pub open spec fn distinct(s: Seq<Seq<char>>) -> bool {
    forall|a: int, b: int| 0 <= a < s.len() && 0 <= b < s.len() && a != b ==> s[a] != s[b]
}

/// Reads `--flag value` pairs from `args[from..]`; the result holds the value of each
/// allowed flag, in the order of `allowed`.
fn read_flags(args: &Vec<&str>, from: usize, allowed: &Vec<&str>) -> (r: Option<Vec<Option<String>>>)
    requires
        from <= args@.len(),
        distinct(arg_views(allowed@)),
    ensures
        r is None <==> parse_flags(arg_views(args@).skip(from as int), arg_views(allowed@)) is None,
        r matches Some(slots) ==> {
            let m = parse_flags(arg_views(args@).skip(from as int), arg_views(allowed@))->Some_0;
            &&& slots@.len() == allowed@.len()
            &&& forall|j: int|
                0 <= j < slots@.len() ==> opt_text(#[trigger] slots@[j]) == flag_value(
                    m,
                    allowed@[j]@,
                )
        },
{
    let ghost views = arg_views(args@);
    let ghost allowed_v = arg_views(allowed@);
    let mut slots: Vec<Option<String>> = Vec::new();
    let mut j: usize = 0;
    while j < allowed.len()
        invariant
            j <= allowed@.len(),
            slots@.len() == j,
            forall|k: int| 0 <= k < j ==> #[trigger] slots@[k] is None,
        decreases allowed@.len() - j,
    {
        slots.push(None);
        j = j + 1;
    }
    let n = args.len();
    let mut i: usize = from;
    let ghost mut m: Map<Seq<char>, Seq<char>> = Map::empty();
    proof {
        assert(views.skip(from as int).take(0) =~= Seq::<Seq<char>>::empty());
    }
    while i < n
        invariant
            from <= i <= n,
            n == args@.len(),
            views == arg_views(args@),
            allowed_v == arg_views(allowed@),
            distinct(allowed_v),
            (i - from) % 2 == 0,
            parse_flags(views.skip(from as int).take(i - from), allowed_v) == Some(m),
            m.dom().subset_of(allowed_v.to_set()),
            slots@.len() == allowed@.len(),
            forall|k: int|
                0 <= k < slots@.len() ==> opt_text(#[trigger] slots@[k]) == flag_value(
                    m,
                    allowed@[k]@,
                ),
        decreases n - i,
    {
        let ghost rest = views.skip(from as int);
        if i + 1 >= n {
            proof {
                assert(rest.len() == i - from + 1);
                lemma_odd_refused(rest, allowed_v);
            }
            return None;
        }
        let f = args[i];
        let v = args[i + 1];
        let ghost pre = rest.take(i + 2 - from);
        proof {
            assert(pre.take(pre.len() - 2) =~= rest.take(i - from));
            assert(pre[pre.len() - 2] == f@);
            assert(pre[pre.len() - 1] == v@);
        }
        let mut k: usize = 0;
        let mut found: Option<usize> = None;
        while k < allowed.len()
            invariant
                k <= allowed@.len(),
                allowed_v == arg_views(allowed@),
                found is None ==> forall|q: int| 0 <= q < k ==> allowed_v[q] != f@,
                found matches Some(q) ==> q < allowed@.len() && allowed_v[q as int] == f@,
            decreases allowed@.len() - k,
        {
            if found.is_none() && text_eq(allowed[k], f) {
                found = Some(k);
            }
            k = k + 1;
        }
        match found {
            None => {
                proof {
                    assert(!allowed_v.contains(f@));
                    lemma_refused_stays(rest, allowed_v, i + 2 - from);
                }
                return None;
            },
            Some(q) => {
                if slots[q].is_some() {
                    proof {
                        assert(m.dom().contains(f@));
                        lemma_refused_stays(rest, allowed_v, i + 2 - from);
                    }
                    return None;
                }
                proof {
                    assert(allowed_v.contains(f@)) by {
                        assert(allowed_v[q as int] == f@);
                    }
                    assert(!m.dom().contains(f@));
                    m = m.insert(f@, v@);
                    assert forall|x: Seq<char>| m.dom().contains(x) implies allowed_v.to_set().contains(x) by {
                        if x == f@ {
                            assert(allowed_v.contains(x));
                        }
                    }
                }
                slots.set(q, Some(copy_text(v)));
                proof {
                    assert forall|k2: int| 0 <= k2 < slots@.len() implies opt_text(#[trigger] slots@[k2])
                        == flag_value(m, allowed@[k2]@) by {
                        if k2 != q {
                            assert(allowed_v[k2] != allowed_v[q as int]);
                        }
                    }
                }
                i = i + 2;
            },
        }
    }
    proof {
        assert(views.skip(from as int).take(i - from) =~= views.skip(from as int));
    }
    Some(slots)
}

/// Once a prefix of pairs is refused, so is every longer run of pairs.
proof fn lemma_refused_stays(rest: Seq<Seq<char>>, allowed: Seq<Seq<char>>, len: int)
    requires
        0 <= len <= rest.len(),
        len % 2 == 0,
        parse_flags(rest.take(len), allowed) is None,
    ensures
        parse_flags(rest, allowed) is None,
    decreases rest.len() - len,
{
    if len == rest.len() {
        assert(rest.take(len) =~= rest);
    } else if rest.len() % 2 == 1 {
        lemma_odd_refused(rest, allowed);
    } else {
        let t = rest.take(len + 2);
        assert(t.take(t.len() - 2) =~= rest.take(len));
        lemma_refused_stays(rest, allowed, len + 2);
    }
}

/// A command of the command line.
#[derive(Debug)]
#[allow(inconsistent_fields)]
pub enum Commands {
    /// Fetch the kernel, the base image, the hypervisor and the guest key.
    DownloadAssets,
    /// Start a VM.
    Run { mode: String, name: Option<String>, image: Option<String> },
    /// Build a filesystem image with a script.
    Build { image_name: String, script_path: String },
    /// Open a shell in a running VM.
    Ssh { name: String },
    /// Remove a VM and release its subnet.
    Rm { name: String },
    /// List running VMs.
    List,
    /// List available images.
    Images,
    /// Prepare the host environment.
    Setup,
}

/// The parsed command line.
#[derive(Debug)]
pub struct Cli {
    pub command: Commands,
}

/// Why a command line was refused.
#[derive(Debug)]
pub enum CliError {
    /// No command was given.
    MissingCommand,
    /// The command is not known.
    UnknownCommand { command: String },
    /// An option is unknown, repeated, without value, or a required one is missing.
    BadArguments,
}

/// Network mode of a VM when none is chosen.
pub const DEFAULT_MODE: &'static str = "internet";

pub open spec fn run_flags() -> Seq<Seq<char>> {
    seq!["--mode"@, "--name"@, "--image"@]
}

pub open spec fn build_flags() -> Seq<Seq<char>> {
    seq!["--image-name"@, "--script-path"@]
}

/// A lone positional value: one argument that does not look like an option.
pub open spec fn is_positional(rest: Seq<Seq<char>>) -> bool {
    rest.len() == 1 && !(rest[0].len() > 0 && rest[0][0] == '-')
}

/// Whether `args` (program name first) is a valid command line.
pub open spec fn accepted(args: Seq<Seq<char>>) -> bool {
    args.len() >= 2 && {
        let sub = args[1];
        let rest = args.skip(2);
        ||| sub == "run"@ && parse_flags(rest, run_flags()) is Some
        ||| sub == "build"@ && parse_flags(rest, build_flags()) is Some && parse_flags(
            rest,
            build_flags(),
        )->Some_0.dom().contains("--image-name"@) && parse_flags(
            rest,
            build_flags(),
        )->Some_0.dom().contains("--script-path"@)
        ||| (sub == "ssh"@ || sub == "rm"@) && is_positional(rest)
        ||| (sub == "download-assets"@ || sub == "list"@ || sub == "images"@ || sub == "setup"@)
            && rest.len() == 0
    }
}

/// Whether `c` is the command that `args` asks for.
pub open spec fn parsed_as(args: Seq<Seq<char>>, c: Commands) -> bool {
    let sub = args[1];
    let rest = args.skip(2);
    match c {
        Commands::Run { mode, name, image } => {
            let m = parse_flags(rest, run_flags())->Some_0;
            &&& sub == "run"@
            &&& mode@ == match flag_value(m, "--mode"@) {
                Some(v) => v,
                None => DEFAULT_MODE@,
            }
            &&& opt_text(name) == flag_value(m, "--name"@)
            &&& opt_text(image) == flag_value(m, "--image"@)
        },
        Commands::Build { image_name, script_path } => {
            let m = parse_flags(rest, build_flags())->Some_0;
            &&& sub == "build"@
            &&& image_name@ == m["--image-name"@]
            &&& script_path@ == m["--script-path"@]
        },
        Commands::Ssh { name } => sub == "ssh"@ && name@ == rest[0],
        Commands::Rm { name } => sub == "rm"@ && name@ == rest[0],
        Commands::DownloadAssets => sub == "download-assets"@,
        Commands::List => sub == "list"@,
        Commands::Images => sub == "images"@,
        Commands::Setup => sub == "setup"@,
    }
}

fn take_slot(slots: &mut Vec<Option<String>>, j: usize) -> (r: Option<String>)
    requires
        j < old(slots)@.len(),
    ensures
        r == old(slots)@[j as int],
        final(slots)@ == old(slots)@.update(j as int, None),
{
    let mut r: Option<String> = None;
    slots.set_and_swap(j, &mut r);
    r
}

proof fn lemma_flag_lists_distinct()
    ensures
        distinct(run_flags()),
        distinct(build_flags()),
{
    reveal_strlit("--mode");
    reveal_strlit("--name");
    reveal_strlit("--image");
    reveal_strlit("--image-name");
    reveal_strlit("--script-path");
    assert("--mode"@[2] != "--name"@[2]);
    assert("--mode"@[2] != "--image"@[2]);
    assert("--name"@[2] != "--image"@[2]);
    assert("--image-name"@[2] != "--script-path"@[2]);
}

impl Cli {
    /// Parses a command line whose first argument is the program name.
    pub fn try_parse_from(args: Vec<&str>) -> (r: Result<Cli, CliError>)
        ensures
            r is Ok <==> accepted(arg_views(args@)),
            r matches Ok(cli) ==> parsed_as(arg_views(args@), cli.command),
    {
        let ghost views = arg_views(args@);
        if args.len() < 2 {
            return Err(CliError::MissingCommand);
        }
        let sub = args[1];
        let n = args.len();
        proof {
            lemma_flag_lists_distinct();
            reveal_strlit("run");
            reveal_strlit("build");
            reveal_strlit("ssh");
            reveal_strlit("rm");
            reveal_strlit("download-assets");
            reveal_strlit("list");
            reveal_strlit("images");
            reveal_strlit("setup");
            assert("build"@[0] != "setup"@[0]);
            assert("run"@[0] != "ssh"@[0]);
            assert(views[1] == sub@);
            assert(views.skip(2).len() == n - 2);
        }
        if text_eq(sub, "run") {
            let mut allowed: Vec<&str> = Vec::new();
            allowed.push("--mode");
            allowed.push("--name");
            allowed.push("--image");
            assert(arg_views(allowed@) =~= run_flags());
            match read_flags(&args, 2, &allowed) {
                None => Err(CliError::BadArguments),
                Some(slots) => {
                    let mut slots = slots;
                    proof {
                        assert(allowed@[0]@ == arg_views(allowed@)[0]);
                        assert(allowed@[1]@ == arg_views(allowed@)[1]);
                        assert(allowed@[2]@ == arg_views(allowed@)[2]);
                        assert(opt_text(slots@[0]) == flag_value(parse_flags(views.skip(2), run_flags())->Some_0, "--mode"@));
                        assert(opt_text(slots@[1]) == flag_value(parse_flags(views.skip(2), run_flags())->Some_0, "--name"@));
                        assert(opt_text(slots@[2]) == flag_value(parse_flags(views.skip(2), run_flags())->Some_0, "--image"@));
                    }
                    let mode = take_slot(&mut slots, 0);
                    let name = take_slot(&mut slots, 1);
                    let image = take_slot(&mut slots, 2);
                    let mode = match mode {
                        Some(m) => m,
                        None => copy_text(DEFAULT_MODE),
                    };
                    Ok(Cli { command: Commands::Run { mode, name, image } })
                },
            }
        } else if text_eq(sub, "build") {
            let mut allowed: Vec<&str> = Vec::new();
            allowed.push("--image-name");
            allowed.push("--script-path");
            assert(arg_views(allowed@) =~= build_flags());
            match read_flags(&args, 2, &allowed) {
                None => Err(CliError::BadArguments),
                Some(slots) => {
                    let mut slots = slots;
                    let ghost m = parse_flags(views.skip(2), build_flags())->Some_0;
                    proof {
                        assert(allowed@[0]@ == arg_views(allowed@)[0]);
                        assert(allowed@[1]@ == arg_views(allowed@)[1]);
                        assert(opt_text(slots@[0]) == flag_value(m, "--image-name"@));
                        assert(opt_text(slots@[1]) == flag_value(m, "--script-path"@));
                    }
                    let image_name = take_slot(&mut slots, 0);
                    let script_path = take_slot(&mut slots, 1);
                    assert(opt_text(image_name) == flag_value(m, "--image-name"@));
                    assert(opt_text(script_path) == flag_value(m, "--script-path"@));
                    match (image_name, script_path) {
                        (Some(image_name), Some(script_path)) => Ok(
                            Cli { command: Commands::Build { image_name, script_path } },
                        ),
                        _ => {
                            Err(CliError::BadArguments)
                        },
                    }
                },
            }
        } else if text_eq(sub, "ssh") || text_eq(sub, "rm") {
            if n != 3 {
                return Err(CliError::BadArguments);
            }
            let v = args[2];
            proof {
                assert(views.skip(2)[0] == v@);
            }
            if v.unicode_len() > 0 && v.get_char(0) == '-' {
                return Err(CliError::BadArguments);
            }
            let name = copy_text(v);
            if text_eq(sub, "ssh") {
                Ok(Cli { command: Commands::Ssh { name } })
            } else {
                Ok(Cli { command: Commands::Rm { name } })
            }
        } else {
            let command = if text_eq(sub, "download-assets") {
                Commands::DownloadAssets
            } else if text_eq(sub, "list") {
                Commands::List
            } else if text_eq(sub, "images") {
                Commands::Images
            } else if text_eq(sub, "setup") {
                Commands::Setup
            } else {
                return Err(CliError::UnknownCommand { command: copy_text(sub) });
            };
            if n != 2 {
                return Err(CliError::BadArguments);
            }
            Ok(Cli { command })
        }
    }
}

} // verus!
