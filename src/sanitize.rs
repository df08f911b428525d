use vstd::prelude::*;

verus! {

/// The system directories a child's `PATH` may name, in priority order.
pub open spec fn allowlist() -> Seq<Seq<char>> {
    seq![
        "/usr/local/sbin"@,
        "/usr/local/bin"@,
        "/usr/sbin"@,
        "/usr/bin"@,
        "/sbin"@,
        "/bin"@,
    ]
}

/// The `PATH` a child gets when no allowlisted directory survives.
pub open spec fn fallback_path() -> Seq<char> {
    "/bin"@
}

/// `s[i..j]` is one of the `':'`-separated entries of `s` and equals `d`.
pub open spec fn entry_at(s: Seq<char>, d: Seq<char>, i: int, j: int) -> bool {
    &&& 0 <= i <= j <= s.len()
    &&& s.subrange(i, j) == d
    &&& (i == 0 || s[i - 1] == ':')
    &&& (j == s.len() || s[j] == ':')
    &&& forall|k: int| i <= k < j ==> s[k] != ':'
}

/// `d` is one of the `':'`-separated entries of `s`.
pub open spec fn has_entry(s: Seq<char>, d: Seq<char>) -> bool {
    exists|i: int, j: int| entry_at(s, d, i, j)
}

/// The first `n` entries of `dirs` that `s` names, in the order of `dirs`.
pub open spec fn kept(s: Seq<char>, dirs: Seq<Seq<char>>, n: int) -> Seq<Seq<char>>
    decreases n,
{
    if n <= 0 {
        seq![]
    } else {
        let k = kept(s, dirs, n - 1);
        if has_entry(s, dirs[n - 1]) {
            k.push(dirs[n - 1])
        } else {
            k
        }
    }
}

/// `parts` joined with `':'`.
pub open spec fn join_colon(parts: Seq<Seq<char>>) -> Seq<char>
    decreases parts.len(),
{
    if parts.len() == 0 {
        seq![]
    } else if parts.len() == 1 {
        parts[0]
    } else {
        join_colon(parts.drop_last()) + seq![':'] + parts.last()
    }
}

/// The `PATH` handed to the child when the inherited one is `inherited`
/// (empty when there was none).
pub open spec fn sanitized(inherited: Seq<char>) -> Seq<char> {
    let k = kept(inherited, allowlist(), allowlist().len() as int);
    if k.len() == 0 {
        fallback_path()
    } else {
        join_colon(k)
    }
}

fn entry_equals(s: &str, start: usize, end: usize, d: &str) -> (r: bool)
    requires
        start <= end <= s@.len(),
    ensures
        r == (s@.subrange(start as int, end as int) == d@),
{
    let dn = d.unicode_len();
    if end - start != dn {
        assert(s@.subrange(start as int, end as int).len() != d@.len());
        return false;
    }
    let mut k: usize = 0;
    while k < dn
        invariant
            k <= dn,
            dn == d@.len(),
            end - start == dn,
            start <= end <= s@.len(),
            forall|m: int| 0 <= m < k ==> s@[start + m] == d@[m],
        decreases dn - k,
    {
        if s.get_char(start + k) != d.get_char(k) {
            assert(s@.subrange(start as int, end as int)[k as int] != d@[k as int]);
            return false;
        }
        k = k + 1;
    }
    assert(s@.subrange(start as int, end as int) =~= d@);
    true
}

proof fn lemma_no_entry_from(s: Seq<char>, d: Seq<char>, start: int, end: int)
    requires
        0 <= start <= end <= s.len(),
        start == 0 || s[start - 1] == ':',
        end == s.len() || s[end] == ':',
        forall|k: int| start <= k < end ==> s[k] != ':',
        forall|a: int, b: int| a < start ==> !entry_at(s, d, a, b),
        s.subrange(start, end) != d,
    ensures
        forall|a: int, b: int| a < end + 1 ==> !entry_at(s, d, a, b),
{
    assert forall|a: int, b: int| a < end + 1 implies !entry_at(s, d, a, b) by {
        if a >= start && entry_at(s, d, a, b) {
            if a > start {
                assert(s[a - 1] != ':');
            } else if b < end {
                assert(s[b] != ':');
            } else if b > end {
                assert(s[end] == ':');
            }
        }
    }
}

/// Whether `d` is one of the `':'`-separated entries of `s`.
pub fn contains_entry(s: &str, d: &str) -> (r: bool)
    ensures
        r == has_entry(s@, d@),
{
    let n = s.unicode_len();
    let mut start: usize = 0;
    let mut i: usize = 0;
    while i < n
        invariant
            n == s@.len(),
            start <= i <= n,
            start == 0 || s@[start - 1] == ':',
            forall|k: int| start <= k < i ==> s@[k] != ':',
            forall|a: int, b: int| a < start ==> !entry_at(s@, d@, a, b),
        decreases n - i,
    {
        if s.get_char(i) == ':' {
            if entry_equals(s, start, i, d) {
                assert(entry_at(s@, d@, start as int, i as int));
                return true;
            }
            proof {
                lemma_no_entry_from(s@, d@, start as int, i as int);
            }
            start = i + 1;
        }
        i = i + 1;
    }
    if entry_equals(s, start, n, d) {
        assert(entry_at(s@, d@, start as int, n as int));
        return true;
    }
    proof {
        lemma_no_entry_from(s@, d@, start as int, n as int);
        assert forall|a: int, b: int| !entry_at(s@, d@, a, b) by {
            if entry_at(s@, d@, a, b) {
                assert(a < n + 1);
            }
        }
    }
    false
}

/// Builds the child's `PATH` from the inherited one (`None` when it was not
/// set): the allowlisted system directories that the inherited value names,
/// joined with `':'` in allowlist order, or `/bin` when there are none.
pub fn sanitized_path(inherited: Option<&str>) -> (r: String)
    ensures
        r@ == sanitized(
            match inherited {
                Some(s) => s@,
                None => Seq::<char>::empty(),
            },
        ),
{
    let s: &str = match inherited {
        Some(s) => s,
        None => "",
    };
    proof {
        reveal_strlit("");
    }
    assert(s@ == match inherited {
        Some(s) => s@,
        None => Seq::<char>::empty(),
    });
    let dirs: Vec<&str> = vec!["/usr/local/sbin", "/usr/local/bin", "/usr/sbin", "/usr/bin", "/sbin", "/bin"];
    assert(dirs@.len() == 6);
    assert forall|m: int| 0 <= m < 6 implies dirs@[m]@ == allowlist()[m] by {}
    let mut out = String::new();
    let mut count: usize = 0;
    let mut i: usize = 0;
    while i < dirs.len()
        invariant
            i <= dirs@.len(),
            dirs@.len() == 6,
            forall|m: int| 0 <= m < 6 ==> dirs@[m]@ == allowlist()[m],
            count <= i,
            count == kept(s@, allowlist(), i as int).len(),
            out@ == join_colon(kept(s@, allowlist(), i as int)),
        decreases dirs@.len() - i,
    {
        let d = dirs[i];
        if contains_entry(s, d) {
            let ghost k = kept(s@, allowlist(), i as int);
            if count > 0 {
                proof {
                    reveal_strlit(":");
                }
                out.append(":");
            }
            out.append(d);
            proof {
                let k2 = k.push(d@);
                assert(k2.drop_last() =~= k);
                assert(out@ =~= join_colon(k2));
            }
            count = count + 1;
        }
        i = i + 1;
    }
    assert(allowlist().len() == 6);
    if count == 0 {
        "/bin".to_owned()
    } else {
        out
    }
}

/// With no inherited `PATH` the child's `PATH` is `/bin`.
pub proof fn lemma_no_path_gives_bin()
    ensures
        sanitized(Seq::<char>::empty()) == "/bin"@,
{
    reveal_strlit("/usr/local/sbin");
    reveal_strlit("/usr/local/bin");
    reveal_strlit("/usr/sbin");
    reveal_strlit("/usr/bin");
    reveal_strlit("/sbin");
    reveal_strlit("/bin");
    let e = Seq::<char>::empty();
    assert forall|d: Seq<char>| d.len() > 0 implies !has_entry(e, d) by {
        assert forall|i: int, j: int| !entry_at(e, d, i, j) by {
            if entry_at(e, d, i, j) {
                assert(e.subrange(i, j).len() == 0);
            }
        }
    }
    assert(kept(e, allowlist(), 6).len() == 0) by {
        reveal_with_fuel(kept, 7);
        assert(!has_entry(e, allowlist()[0]));
        assert(!has_entry(e, allowlist()[1]));
        assert(!has_entry(e, allowlist()[2]));
        assert(!has_entry(e, allowlist()[3]));
        assert(!has_entry(e, allowlist()[4]));
        assert(!has_entry(e, allowlist()[5]));
    }
}

} // verus!
