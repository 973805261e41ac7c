//! Command-line parsing: `--delay <ms> --wait <s> --file <path> --text <str>
//! --minimize --no-minimize --autostart`, all optional.
//!
//! Reading a `--file` is the caller's work: [`file_requests`] names the files
//! in the order the flags give them, and [`parse_cli_args`] takes what
//! reading each one gave (`None` when it could not be read).
use vstd::prelude::*;

use crate::text::{chars_of, parse_decimal, parse_unsigned, same_text};

verus! {

broadcast use vstd::string::group_string_axioms;

/// Command-line overrides (all optional).
pub struct CliArgs {
    pub delay_ms: Option<u32>,
    pub wait_s: Option<u32>,
    pub minimize: Option<bool>,
    pub text: Option<String>,
    pub autostart: bool,
}

/// The parsed command line, with texts as character sequences.
pub struct CliModel {
    pub delay_ms: Option<u32>,
    pub wait_s: Option<u32>,
    pub minimize: Option<bool>,
    pub text: Option<Seq<char>>,
    pub autostart: bool,
}

pub open spec fn text_of(t: Option<String>) -> Option<Seq<char>> {
    match t {
        Some(s) => Some(s@),
        None => None,
    }
}

impl CliArgs {
    pub open spec fn model(&self) -> CliModel {
        CliModel {
            delay_ms: self.delay_ms,
            wait_s: self.wait_s,
            minimize: self.minimize,
            text: text_of(self.text),
            autostart: self.autostart,
        }
    }
}

/// The arguments as character sequences.
pub open spec fn texts(args: Seq<String>) -> Seq<Seq<char>> {
    args.map_values(|s: String| s@)
}

/// What the file reads gave, as character sequences.
pub open spec fn reads(files: Seq<Option<String>>) -> Seq<Option<Seq<char>>> {
    files.map_values(|f: Option<String>| text_of(f))
}

/// A `u32` written in decimal, as `str::parse` reads it.
pub open spec fn parse_u32_text(s: Seq<char>) -> Option<u32> {
    match parse_unsigned(s, u32::MAX as nat) {
        Some(n) => Some(n as u32),
        None => None,
    }
}

/// The number a flag's value gives, if it has a value and it is a number.
pub open spec fn number_arg(next: Option<Seq<char>>) -> Option<u32> {
    match next {
        Some(v) => parse_u32_text(v),
        None => None,
    }
}

/// What reading the `k`-th requested file gave; missing reads count as
/// failed ones.
pub open spec fn file_read(files: Seq<Option<Seq<char>>>, k: int) -> Option<Seq<char>> {
    if 0 <= k < files.len() {
        files[k]
    } else {
        None
    }
}

pub open spec fn empty_model() -> CliModel {
    CliModel { delay_ms: None, wait_s: None, minimize: None, text: None, autostart: false }
}

/// The command line `args[i..]` applied to `m`, where `k` reads of
/// requested files have been used so far. Flags that take a value consume
/// the next argument whatever it is; a missing value clears the field
/// (`--delay`, `--wait`, `--text`) or does nothing (`--file`); unknown
/// arguments are ignored; a later flag overrides an earlier one.
pub open spec fn cli_from(
    args: Seq<Seq<char>>,
    files: Seq<Option<Seq<char>>>,
    i: int,
    k: int,
    m: CliModel,
) -> CliModel
    decreases args.len() - i,
{
    if i < 0 || i >= args.len() {
        m
    } else {
        let a = args[i];
        let has_next = i + 1 < args.len();
        let next = if has_next {
            Some(args[i + 1])
        } else {
            None::<Seq<char>>
        };
        let j = if has_next {
            i + 2
        } else {
            i + 1
        };
        if a == "--delay"@ {
            cli_from(args, files, j, k, CliModel { delay_ms: number_arg(next), ..m })
        } else if a == "--wait"@ {
            cli_from(args, files, j, k, CliModel { wait_s: number_arg(next), ..m })
        } else if a == "--minimize"@ {
            cli_from(args, files, i + 1, k, CliModel { minimize: Some(true), ..m })
        } else if a == "--no-minimize"@ {
            cli_from(args, files, i + 1, k, CliModel { minimize: Some(false), ..m })
        } else if a == "--autostart"@ {
            cli_from(args, files, i + 1, k, CliModel { autostart: true, ..m })
        } else if a == "--text"@ {
            cli_from(args, files, j, k, CliModel { text: next, ..m })
        } else if a == "--file"@ && has_next {
            let m2 = match file_read(files, k) {
                Some(t) => CliModel { text: Some(t), ..m },
                None => m,
            };
            cli_from(args, files, i + 2, k + 1, m2)
        } else {
            cli_from(args, files, i + 1, k, m)
        }
    }
}

/// The paths that the `--file` flags of `args[i..]` name, in order.
pub open spec fn file_paths(args: Seq<Seq<char>>, i: int) -> Seq<Seq<char>>
    decreases args.len() - i,
{
    if i < 0 || i >= args.len() {
        Seq::empty()
    } else {
        let a = args[i];
        let has_next = i + 1 < args.len();
        let j = if has_next {
            i + 2
        } else {
            i + 1
        };
        if a == "--delay"@ || a == "--wait"@ || a == "--text"@ {
            file_paths(args, j)
        } else if a == "--file"@ && has_next {
            seq![args[i + 1]] + file_paths(args, i + 2)
        } else {
            file_paths(args, i + 1)
        }
    }
}

/// Reads a `u32` written in decimal.
pub fn parse_u32(s: &str) -> (r: Option<u32>)
    ensures
        r == parse_u32_text(s@),
{
    let v = chars_of(s);
    assert(v@.subrange(0, v.len() as int) == s@);
    match parse_decimal(&v, 0, v.len(), u32::MAX as u64) {
        Some(n) => Some(n as u32),
        None => None,
    }
}

fn number_of(next: Option<&String>) -> (r: Option<u32>)
    ensures
        r == number_arg(match next {
            Some(s) => Some(s@),
            None => None,
        }),
{
    match next {
        Some(s) => parse_u32(s.as_str()),
        None => None,
    }
}

/// The paths named by the `--file` flags of `args`, in order: the files
/// whose contents [`parse_cli_args`] expects.
pub fn file_requests(args: &Vec<String>) -> (r: Vec<String>)
    ensures
        texts(r@) == file_paths(texts(args@), 0),
{
    let ghost a = texts(args@);
    let mut r: Vec<String> = Vec::new();
    let mut i: usize = 0;
    while i < args.len()
        invariant
            a == texts(args@),
            i <= args.len() + 1,
            file_paths(a, 0) == texts(r@) + file_paths(a, i as int),
        decreases args.len() + 1 - i,
    {
        let arg = args[i].as_str();
        assert(a[i as int] == arg@);
        let has_next = i + 1 < args.len();
        if same_text(arg, "--delay") || same_text(arg, "--wait") || same_text(arg, "--text") {
            i = if has_next {
                i + 2
            } else {
                i + 1
            };
        } else if same_text(arg, "--file") && has_next {
            let ghost before = texts(r@);
            r.push(args[i + 1].clone());
            assert(texts(r@) == before + seq![a[i + 1]]);
            i = i + 2;
        } else {
            i = i + 1;
        }
    }
    assert(texts(r@) + Seq::<Seq<char>>::empty() == texts(r@));
    r
}

/// Parses the command line. `files[k]` is what reading the `k`-th path of
/// [`file_requests`] gave: the file's text, or `None` when it could not be
/// read (the flag then changes nothing; a missing entry counts as `None`).
pub fn parse_cli_args(args: &Vec<String>, files: &Vec<Option<String>>) -> (cli: CliArgs)
    ensures
        cli.model() == cli_from(texts(args@), reads(files@), 0, 0, empty_model()),
{
    let ghost a = texts(args@);
    let ghost f = reads(files@);
    let mut cli = CliArgs { delay_ms: None, wait_s: None, minimize: None, text: None, autostart: false };
    let mut i: usize = 0;
    let mut k: usize = 0;
    while i < args.len()
        invariant
            a == texts(args@),
            f == reads(files@),
            i <= args.len() + 1,
            k <= i,
            cli_from(a, f, 0, 0, empty_model()) == cli_from(a, f, i as int, k as int, cli.model()),
        decreases args.len() + 1 - i,
    {
        let arg = args[i].as_str();
        assert(a[i as int] == arg@);
        let has_next = i + 1 < args.len();
        let next: Option<&String> = if has_next {
            Some(&args[i + 1])
        } else {
            None
        };
        let j = if has_next {
            i + 2
        } else {
            i + 1
        };
        if same_text(arg, "--delay") {
            cli.delay_ms = number_of(next);
            i = j;
        } else if same_text(arg, "--wait") {
            cli.wait_s = number_of(next);
            i = j;
        } else if same_text(arg, "--minimize") {
            cli.minimize = Some(true);
            i = i + 1;
        } else if same_text(arg, "--no-minimize") {
            cli.minimize = Some(false);
            i = i + 1;
        } else if same_text(arg, "--autostart") {
            cli.autostart = true;
            i = i + 1;
        } else if same_text(arg, "--text") {
            cli.text = match next {
                Some(s) => Some(s.clone()),
                None => None,
            };
            i = j;
        } else if same_text(arg, "--file") && has_next {
            if k < files.len() {
                match &files[k] {
                    Some(t) => {
                        cli.text = Some(t.clone());
                    },
                    None => {},
                }
            }
            k = k + 1;
            i = i + 2;
        } else {
            i = i + 1;
        }
    }
    cli
}

/// The outcome depends on the file reads only through the files that
/// [`file_requests`] names: two sets of reads that agree on those give the
/// same command line, whatever else they hold.
pub proof fn lemma_only_requested_files_are_read(
    args: Seq<Seq<char>>,
    f1: Seq<Option<Seq<char>>>,
    f2: Seq<Option<Seq<char>>>,
    i: int,
    k: int,
    m: CliModel,
)
    requires
        0 <= i,
        forall|j: int|
            0 <= j < file_paths(args, i).len() ==> #[trigger] file_read(f1, k + j) == file_read(
                f2,
                k + j,
            ),
    ensures
        cli_from(args, f1, i, k, m) == cli_from(args, f2, i, k, m),
    decreases args.len() - i,
{
    reveal_strlit("--delay");
    reveal_strlit("--wait");
    reveal_strlit("--text");
    reveal_strlit("--file");
    reveal_strlit("--minimize");
    reveal_strlit("--no-minimize");
    reveal_strlit("--autostart");
    if i < args.len() {
        let a = args[i];
        let has_next = i + 1 < args.len();
        let next = if has_next {
            Some(args[i + 1])
        } else {
            None::<Seq<char>>
        };
        let j = if has_next {
            i + 2
        } else {
            i + 1
        };
        if a == "--delay"@ {
            lemma_only_requested_files_are_read(args, f1, f2, j, k, CliModel { delay_ms: number_arg(next), ..m });
        } else if a == "--wait"@ {
            lemma_only_requested_files_are_read(args, f1, f2, j, k, CliModel { wait_s: number_arg(next), ..m });
        } else if a == "--minimize"@ {
            assert(a != "--delay"@ && a != "--wait"@ && a != "--text"@ && a != "--file"@) by {
                assert(a.len() != 7 || a[2] != "--delay"@[2]);
            }
            assert(file_paths(args, i) == file_paths(args, i + 1));
            lemma_only_requested_files_are_read(args, f1, f2, i + 1, k, CliModel { minimize: Some(true), ..m });
        } else if a == "--no-minimize"@ {
            assert(a != "--delay"@ && a != "--wait"@ && a != "--text"@ && a != "--file"@) by {
                assert(a.len() != 7 || a[2] != "--delay"@[2]);
            }
            assert(file_paths(args, i) == file_paths(args, i + 1));
            lemma_only_requested_files_are_read(args, f1, f2, i + 1, k, CliModel { minimize: Some(false), ..m });
        } else if a == "--autostart"@ {
            assert(a != "--delay"@ && a != "--wait"@ && a != "--text"@ && a != "--file"@) by {
                assert(a.len() != 7 || a[2] != "--delay"@[2]);
            }
            assert(file_paths(args, i) == file_paths(args, i + 1));
            lemma_only_requested_files_are_read(args, f1, f2, i + 1, k, CliModel { autostart: true, ..m });
        } else if a == "--text"@ {
            lemma_only_requested_files_are_read(args, f1, f2, j, k, CliModel { text: next, ..m });
        } else if a == "--file"@ && has_next {
            let rest = file_paths(args, i + 2);
            assert(file_paths(args, i) == seq![args[i + 1]] + rest);
            assert(file_read(f1, k + 0) == file_read(f2, k + 0));
            assert forall|q: int| 0 <= q < rest.len() implies #[trigger] file_read(f1, k + 1 + q)
                == file_read(f2, k + 1 + q) by {
                assert(file_read(f1, k + (q + 1)) == file_read(f2, k + (q + 1)));
            }
            let m2 = match file_read(f1, k) {
                Some(t) => CliModel { text: Some(t), ..m },
                None => m,
            };
            lemma_only_requested_files_are_read(args, f1, f2, i + 2, k + 1, m2);
        } else {
            lemma_only_requested_files_are_read(args, f1, f2, i + 1, k, m);
        }
    }
}

} // verus!
