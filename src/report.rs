use vstd::prelude::*;
use crate::cli::texts;

verus! {

/// The quoted, escaped form that `Debug` gives a string.
pub uninterp spec fn debug_quoted(s: Seq<char>) -> Seq<char>;

/// Relies on `<str as Debug>::fmt`: the text in double quotes with special
/// characters escaped; it depends on the text alone.
#[verifier::external_body]
fn quote(s: &str) -> (r: String)
    ensures
        r@ == debug_quoted(s@),
{
    format!("{:?}", s)
}

/// The start of the line printed by a dry run.
pub open spec fn dry_run_prefix() -> Seq<char> {
    "Dry run: would have succeeded in starting the process: "@
}

/// Each of `parts` preceded by a space.
pub open spec fn spaced(parts: Seq<Seq<char>>) -> Seq<char>
    decreases parts.len(),
{
    if parts.len() == 0 {
        seq![]
    } else {
        spaced(parts.drop_last()) + seq![' '] + parts.last()
    }
}

/// The dry-run line for a target and arguments already in quoted form.
pub fn compose_dry_run(quoted_target: &str, quoted_args: &Vec<String>) -> (r: String)
    ensures
        r@ == dry_run_prefix() + quoted_target@ + spaced(texts(quoted_args@)),
{
    let mut out = "Dry run: would have succeeded in starting the process: ".to_owned();
    out.append(quoted_target);
    let mut i: usize = 0;
    while i < quoted_args.len()
        invariant
            i <= quoted_args@.len(),
            out@ == dry_run_prefix() + quoted_target@ + spaced(texts(quoted_args@).subrange(0, i as int)),
        decreases quoted_args@.len() - i,
    {
        proof {
            reveal_strlit(" ");
        }
        out.append(" ");
        out.append(quoted_args[i].as_str());
        proof {
            let p = texts(quoted_args@).subrange(0, i + 1);
            assert(p.drop_last() =~= texts(quoted_args@).subrange(0, i as int));
            assert(out@ =~= dry_run_prefix() + quoted_target@ + spaced(p));
        }
        i = i + 1;
    }
    assert(texts(quoted_args@).subrange(0, i as int) =~= texts(quoted_args@));
    out
}

/// The line a dry run prints: the resolved target path and each argument
/// that would have been passed to it, each in quoted form.
pub fn dry_run_line(target: &str, args: &Vec<String>) -> (r: String)
    ensures
        r@ == dry_run_prefix() + debug_quoted(target@) + spaced(
            texts(args@).map_values(|a: Seq<char>| debug_quoted(a)),
        ),
{
    let qt = quote(target);
    let mut qa: Vec<String> = Vec::new();
    let mut i: usize = 0;
    while i < args.len()
        invariant
            i <= args@.len(),
            texts(qa@) == texts(args@).subrange(0, i as int).map_values(
                |a: Seq<char>| debug_quoted(a),
            ),
        decreases args@.len() - i,
    {
        let ghost before = qa@;
        let q = quote(args[i].as_str());
        qa.push(q);
        assert(qa@ == before.push(q));
        assert(texts(qa@) =~= texts(before).push(q@));
        assert(texts(args@)[i as int] == args@[i as int]@);
        assert(texts(qa@) =~= texts(args@).subrange(0, i + 1).map_values(
            |a: Seq<char>| debug_quoted(a),
        ));
        i = i + 1;
    }
    assert(texts(args@).subrange(0, i as int) =~= texts(args@));
    compose_dry_run(qt.as_str(), &qa)
}

} // verus!
