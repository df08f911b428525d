use vstd::prelude::*;

verus! {

/// The views of a list of strings.
pub open spec fn texts(v: Seq<String>) -> Seq<Seq<char>> {
    v.map_values(|s: String| s@)
}

/// Index of the first `--` in `args`, or `args.len()` when there is none.
pub open spec fn separator(args: Seq<Seq<char>>) -> int
    decreases args.len(),
{
    if args.len() == 0 {
        0
    } else if separator(args.drop_last()) < args.len() - 1 {
        separator(args.drop_last())
    } else if args.last() == "--"@ {
        args.len() - 1
    } else {
        args.len() as int
    }
}

/// The launcher's own options: what comes before the first `--`.
pub open spec fn options(args: Seq<Seq<char>>) -> Seq<Seq<char>> {
    args.subrange(0, separator(args))
}

/// What is handed to the target: everything after the first `--`.
pub open spec fn passthrough(args: Seq<Seq<char>>) -> Seq<Seq<char>> {
    if separator(args) < args.len() {
        args.subrange(separator(args) + 1, args.len() as int)
    } else {
        seq![]
    }
}

pub open spec fn known_option(a: Seq<char>) -> bool {
    a == "-v"@ || a == "--verbose"@ || a == "--dry-run"@
}

/// Index of the first option that is not one the launcher accepts when
/// running, or `opts.len()`.
pub open spec fn first_unknown(opts: Seq<Seq<char>>) -> int
    decreases opts.len(),
{
    if opts.len() == 0 {
        0
    } else if first_unknown(opts.drop_last()) < opts.len() - 1 {
        first_unknown(opts.drop_last())
    } else if known_option(opts.last()) {
        opts.len() as int
    } else {
        opts.len() - 1
    }
}

/// What the launcher is asked to do.
#[derive(Clone, Copy, Debug, PartialEq, Eq, Structural)]
pub enum CliAction {
    /// `-h` without `--help`: print the usage text only.
    Usage,
    /// `--help`: usage, description and version information.
    FullHelp,
    /// `--version`: version information.
    Version,
    /// The option at this index of the arguments is not accepted.
    Unexpected(usize),
    /// Authorise and launch the target.
    Run { verbose: bool, dry_run: bool },
}

pub open spec fn cli_action(opts: Seq<Seq<char>>) -> CliAction {
    if opts.contains("--help"@) {
        CliAction::FullHelp
    } else if opts.contains("-h"@) {
        CliAction::Usage
    } else if opts.contains("--version"@) {
        CliAction::Version
    } else if first_unknown(opts) < opts.len() {
        CliAction::Unexpected(first_unknown(opts) as usize)
    } else {
        CliAction::Run {
            verbose: opts.contains("--verbose"@) || opts.contains("-v"@),
            dry_run: opts.contains("--dry-run"@),
        }
    }
}

/// Whether `a` and `b` hold the same characters.
pub fn same_text(a: &str, b: &str) -> (r: bool)
    ensures
        r == (a@ == b@),
{
    let n = a.unicode_len();
    if n != b.unicode_len() {
        return false;
    }
    let mut k: usize = 0;
    while k < n
        invariant
            k <= n,
            n == a@.len(),
            n == b@.len(),
            forall|m: int| 0 <= m < k ==> a@[m] == b@[m],
        decreases n - k,
    {
        if a.get_char(k) != b.get_char(k) {
            return false;
        }
        k = k + 1;
    }
    assert(a@ =~= b@);
    true
}

fn contains_text(v: &Vec<String>, end: usize, t: &str) -> (r: bool)
    requires
        end <= v@.len(),
    ensures
        r == texts(v@).subrange(0, end as int).contains(t@),
{
    let mut i: usize = 0;
    while i < end
        invariant
            i <= end,
            end <= v@.len(),
            forall|m: int| 0 <= m < i ==> v@[m]@ != t@,
        decreases end - i,
    {
        if same_text(v[i].as_str(), t) {
            assert(texts(v@).subrange(0, end as int)[i as int] == t@);
            return true;
        }
        i = i + 1;
    }
    assert forall|m: int| 0 <= m < end implies texts(v@).subrange(0, end as int)[m] != t@ by {}
    false
}

fn is_known_option(a: &str) -> (r: bool)
    ensures
        r == known_option(a@),
{
    same_text(a, "-v") || same_text(a, "--verbose") || same_text(a, "--dry-run")
}

proof fn lemma_separator_prefix(args: Seq<Seq<char>>, i: int)
    requires
        0 <= i <= args.len(),
        forall|m: int| 0 <= m < i ==> args[m] != "--"@,
        i == args.len() || args[i] == "--"@,
    ensures
        separator(args) == i,
    decreases args.len(),
{
    if args.len() > 0 {
        let d = args.drop_last();
        if i == args.len() {
            lemma_separator_prefix(d, i - 1);
        } else if i == args.len() - 1 {
            lemma_separator_prefix(d, d.len() as int);
        } else {
            lemma_separator_prefix(d, i);
        }
    }
}

proof fn lemma_first_unknown(opts: Seq<Seq<char>>, i: int)
    requires
        0 <= i <= opts.len(),
        forall|m: int| 0 <= m < i ==> known_option(opts[m]),
        i == opts.len() || !known_option(opts[i]),
    ensures
        first_unknown(opts) == i,
    decreases opts.len(),
{
    if opts.len() > 0 {
        let d = opts.drop_last();
        if i == opts.len() {
            lemma_first_unknown(d, i - 1);
        } else if i == opts.len() - 1 {
            lemma_first_unknown(d, d.len() as int);
        } else {
            lemma_first_unknown(d, i);
        }
    }
}

/// Reads the launcher's arguments (without the program name): the options
/// before the first `--` decide what to do, everything after it is handed to
/// the target unchanged.
pub fn parse_args(args: &Vec<String>) -> (r: (CliAction, Vec<String>))
    ensures
        r.0 == cli_action(options(texts(args@))),
        texts(r.1@) == passthrough(texts(args@)),
{
    let ghost a = texts(args@);
    let n = args.len();
    let mut k: usize = 0;
    while k < n && !same_text(args[k].as_str(), "--")
        invariant
            k <= n,
            n == args@.len(),
            a == texts(args@),
            forall|m: int| 0 <= m < k ==> a[m] != "--"@,
        decreases n - k,
    {
        k = k + 1;
    }
    proof {
        lemma_separator_prefix(a, k as int);
        assert(options(a) =~= a.subrange(0, k as int));
    }
    let mut u: usize = 0;
    while u < k && is_known_option(args[u].as_str())
        invariant
            u <= k,
            k <= n,
            n == args@.len(),
            a == texts(args@),
            forall|m: int| 0 <= m < u ==> known_option(a[m]),
        decreases k - u,
    {
        u = u + 1;
    }
    proof {
        lemma_first_unknown(options(a), u as int);
    }
    let action = if contains_text(args, k, "--help") {
        CliAction::FullHelp
    } else if contains_text(args, k, "-h") {
        CliAction::Usage
    } else if contains_text(args, k, "--version") {
        CliAction::Version
    } else if u < k {
        CliAction::Unexpected(u)
    } else {
        let verbose = contains_text(args, k, "--verbose") || contains_text(args, k, "-v");
        let dry_run = contains_text(args, k, "--dry-run");
        CliAction::Run { verbose, dry_run }
    };
    let mut rest: Vec<String> = Vec::new();
    if k < n {
        let mut i: usize = k + 1;
        while i < n
            invariant
                k < i <= n,
                n == args@.len(),
                a == texts(args@),
                texts(rest@) == a.subrange(k + 1, i as int),
            decreases n - i,
        {
            let ghost before = rest@;
            rest.push(args[i].clone());
            assert(rest@ == before.push(args@[i as int]));
            assert(texts(rest@) =~= texts(before).push(args@[i as int]@));
            assert(a[i as int] == args@[i as int]@);
            assert(a.subrange(k + 1, i + 1) =~= a.subrange(k + 1, i as int).push(a[i as int]));
            assert(texts(rest@) =~= a.subrange(k + 1, i + 1));
            i = i + 1;
        }
    } else {
        assert(texts(rest@) =~= seq![]);
    }
    (action, rest)
}

} // verus!
