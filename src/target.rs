use vstd::prelude::*;

verus! {

/// The marker inserted into the launcher's own name to form the target's name.
pub open spec fn marker() -> Seq<char> {
    seq!['.', 'r', 'u', 'n', '-', 's', 'u', 'i', 'd']
}

/// Index of the last `'.'` in `s`, or -1 when there is none.
pub open spec fn last_dot(s: Seq<char>) -> int
    decreases s.len(),
{
    if s.len() == 0 {
        -1
    } else if s.last() == '.' {
        s.len() - 1
    } else {
        last_dot(s.drop_last())
    }
}

/// The target's file name: `stem.run-suid.ext` when `name` holds a `'.'`
/// (split at the last one), else `name.run-suid`.
pub open spec fn target_name(name: Seq<char>) -> Seq<char> {
    let k = last_dot(name);
    if k < 0 {
        name + marker()
    } else {
        name.subrange(0, k) + marker() + seq!['.'] + name.subrange(k + 1, name.len() as int)
    }
}

/// `comp` pushed onto the path `parent`: an absolute `comp` replaces it,
/// otherwise a `'/'` separates the two unless `parent` is empty or already
/// ends with one.
pub open spec fn join_path(parent: Seq<char>, comp: Seq<char>) -> Seq<char> {
    if comp.len() > 0 && comp[0] == '/' {
        comp
    } else if parent.len() > 0 && parent.last() != '/' {
        parent + seq!['/'] + comp
    } else {
        parent + comp
    }
}

/// Where the companion binary of a launcher named `name` in `parent` lives.
pub open spec fn target_path(parent: Seq<char>, name: Seq<char>) -> Seq<char> {
    join_path(parent, target_name(name))
}

proof fn lemma_last_dot_prefix(s: Seq<char>, i: int)
    requires
        0 <= i <= s.len(),
        forall|k: int| i <= k < s.len() ==> s[k] != '.',
    ensures
        last_dot(s) == last_dot(s.subrange(0, i)),
    decreases s.len() - i,
{
    if i == s.len() {
        assert(s.subrange(0, i) =~= s);
    } else {
        assert(s.last() != '.');
        lemma_last_dot_prefix(s.drop_last(), i);
        assert(s.drop_last().subrange(0, i) =~= s.subrange(0, i));
    }
}

fn run_suid_marker() -> (r: &'static str)
    ensures
        r@ == marker(),
{
    proof {
        reveal_strlit(".run-suid");
    }
    let r = ".run-suid";
    assert(r@ =~= marker());
    r
}

/// The file name of the target that a launcher named `file_name` runs.
pub fn target_file_name(file_name: &str) -> (r: String)
    ensures
        r@ == target_name(file_name@),
{
    let n = file_name.unicode_len();
    let mut i: usize = n;
    while i > 0 && file_name.get_char(i - 1) != '.'
        invariant
            i <= n,
            n == file_name@.len(),
            forall|k: int| i <= k < n ==> file_name@[k] != '.',
        decreases i,
    {
        i = i - 1;
    }
    proof {
        lemma_last_dot_prefix(file_name@, i as int);
        if i == 0 {
            assert(file_name@.subrange(0, 0).len() == 0);
        } else {
            assert(file_name@.subrange(0, i as int).last() == '.');
        }
    }
    if i == 0 {
        let mut r = file_name.to_owned();
        r.append(run_suid_marker());
        r
    } else {
        let mut r = file_name.substring_char(0, i - 1).to_owned();
        r.append(run_suid_marker());
        proof {
            reveal_strlit(".");
        }
        r.append(".");
        r.append(file_name.substring_char(i, n));
        assert(r@ =~= target_name(file_name@));
        r
    }
}

/// Pushes the relative or absolute path `comp` onto `parent`.
pub fn join(parent: &str, comp: &str) -> (r: String)
    ensures
        r@ == join_path(parent@, comp@),
{
    let pn = parent.unicode_len();
    let cn = comp.unicode_len();
    if cn > 0 && comp.get_char(0) == '/' {
        comp.to_owned()
    } else if pn > 0 && parent.get_char(pn - 1) != '/' {
        let mut r = parent.to_owned();
        proof {
            reveal_strlit("/");
        }
        r.append("/");
        r.append(comp);
        assert(r@ =~= join_path(parent@, comp@));
        r
    } else {
        let mut r = parent.to_owned();
        r.append(comp);
        r
    }
}

/// The path of the companion binary that the launcher named `file_name`,
/// located in the directory `parent`, runs. It depends on its two arguments
/// alone and is defined for all of them.
pub fn sibling_target(parent: &str, file_name: &str) -> (r: String)
    ensures
        r@ == target_path(parent@, file_name@),
{
    let name = target_file_name(file_name);
    join(parent, name.as_str())
}

} // verus!
