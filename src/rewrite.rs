//! Rewrites imports through deprecated re-exports of the standard library
//! (`use bumpalo::core_alloc::...`) into imports from `std` itself.

use vstd::prelude::*;
use crate::text::{begins_with, chars_of, starts_with, string_of};

verus! {

/// The number of rewrite rules.
pub const RULE_COUNT: usize = 6;

/// The line prefixes that are rewritten, in the order they are tried.
pub open spec fn deprecated_prefixes() -> Seq<Seq<char>> {
    seq![
        "use bumpalo::core_alloc::"@,
        "use failure::_core::"@,
        "use futures_core::core_reexport::"@,
        "use smallvec::alloc::"@,
        "use tracing::stdlib::"@,
        "use winapi::_core::"@,
    ]
}

/// What each deprecated prefix becomes.
pub open spec fn std_prefix() -> Seq<char> {
    "use std::"@
}

/// The first rule, from `k` on, whose prefix begins `line`.
pub open spec fn first_rule_from(line: Seq<char>, k: int) -> Option<int>
    decreases RULE_COUNT - k,
{
    if k < 0 || k >= RULE_COUNT {
        None
    } else if starts_with(line, deprecated_prefixes()[k]) {
        Some(k)
    } else {
        first_rule_from(line, k + 1)
    }
}

/// One line (without its `'\n'`) after rewriting.
pub open spec fn rewritten_line(line: Seq<char>) -> Seq<char> {
    match first_rule_from(line, 0) {
        Some(k) => std_prefix() + line.skip(deprecated_prefixes()[k].len() as int),
        None => line,
    }
}

/// The index of the first `'\n'` of `s`, or its length if it has none.
pub open spec fn line_end(s: Seq<char>) -> nat
    decreases s.len(),
{
    if s.len() == 0 || s[0] == '\n' {
        0
    } else {
        1 + line_end(s.skip(1))
    }
}

/// The whole text after rewriting: each line is rewritten on its own and the
/// line breaks are kept.
pub open spec fn rewritten(s: Seq<char>) -> Seq<char>
    decreases s.len(),
{
    let j = line_end(s) as int;
    if j >= s.len() {
        rewritten_line(s)
    } else {
        rewritten_line(s.take(j)) + seq!['\n'] + rewritten(s.skip(j + 1))
    }
}

pub proof fn lemma_line_end(s: Seq<char>)
    ensures
        line_end(s) <= s.len(),
        line_end(s) < s.len() ==> s[line_end(s) as int] == '\n',
        forall|i: int| 0 <= i < line_end(s) ==> s[i] != '\n',
    decreases s.len(),
{
    if s.len() > 0 && s[0] != '\n' {
        lemma_line_end(s.skip(1));
        assert forall|i: int| 0 <= i < line_end(s) implies s[i] != '\n' by {
            if i > 0 {
                assert(s[i] == s.skip(1)[i - 1]);
            }
        }
    }
}

/// Where `s` has no `'\n'` before index `n` and one at `n` (or ends there),
/// its first line ends at `n`.
pub proof fn lemma_line_end_at(s: Seq<char>, n: int)
    requires
        0 <= n <= s.len(),
        forall|i: int| 0 <= i < n ==> s[i] != '\n',
        n < s.len() ==> s[n] == '\n',
    ensures
        line_end(s) == n,
    decreases n,
{
    if n > 0 {
        assert forall|i: int| 0 <= i < n - 1 implies s.skip(1)[i] != '\n' by {
            assert(s.skip(1)[i] == s[i + 1]);
        }
        lemma_line_end_at(s.skip(1), n - 1);
    }
}


/// The prefix of rule `k`.
fn prefix_str(k: usize) -> (r: &'static str)
    requires
        k < RULE_COUNT,
    ensures
        r@ == deprecated_prefixes()[k as int],
{
    if k == 0 {
        "use bumpalo::core_alloc::"
    } else if k == 1 {
        "use failure::_core::"
    } else if k == 2 {
        "use futures_core::core_reexport::"
    } else if k == 3 {
        "use smallvec::alloc::"
    } else if k == 4 {
        "use tracing::stdlib::"
    } else {
        "use winapi::_core::"
    }
}

/// Appends `s[from..to]` to `out`.
fn push_range(out: &mut Vec<char>, s: &Vec<char>, from: usize, to: usize)
    requires
        from <= to <= s.len(),
    ensures
        final(out)@ == old(out)@ + s@.subrange(from as int, to as int),
{
    let mut k: usize = from;
    while k < to
        invariant
            from <= k <= to <= s.len(),
            out@ == old(out)@ + s@.subrange(from as int, k as int),
        decreases to - k,
    {
        out.push(s[k]);
        k = k + 1;
    }
}

/// The index of the first `'\n'` of `s` at or after `i`, or the length of `s`.
fn find_line_end(s: &Vec<char>, i: usize) -> (j: usize)
    requires
        i <= s.len(),
    ensures
        i <= j <= s.len(),
        j == i + line_end(s@.skip(i as int)),
{
    let mut j: usize = i;
    while j < s.len() && s[j] != '\n'
        invariant
            i <= j <= s.len(),
            forall|m: int| i <= m < j ==> s@[m] != '\n',
        decreases s.len() - j,
    {
        j = j + 1;
    }
    let ghost t = s@.skip(i as int);
    assert forall|m: int| 0 <= m < j - i implies t[m] != '\n' by {
        assert(t[m] == s@[i + m]);
    }
    proof {
        lemma_line_end_at(t, j - i);
    }
    j
}

/// Rewrites every line of `source` that begins with a deprecated re-export
/// prefix so that it imports from `std` instead; all other text is kept as it
/// is.
pub fn rewrite_source(source: &str) -> (r: String)
    ensures
        r@ == rewritten(source@),
{
    let s = chars_of(source);
    let mut prefixes: Vec<Vec<char>> = Vec::new();
    let mut k: usize = 0;
    while k < RULE_COUNT
        invariant
            k <= RULE_COUNT,
            prefixes.len() == k,
            forall|m: int| 0 <= m < k ==> (#[trigger] prefixes@[m])@ == deprecated_prefixes()[m],
        decreases RULE_COUNT - k,
    {
        prefixes.push(chars_of(prefix_str(k)));
        k = k + 1;
    }
    let replacement = chars_of("use std::");
    let mut out: Vec<char> = Vec::new();
    let mut i: usize = 0;
    let mut done = false;
    assert(s@.skip(0) =~= s@);
    while !done
        invariant
            i <= s.len(),
            prefixes.len() == RULE_COUNT,
            forall|m: int| 0 <= m < RULE_COUNT ==> (#[trigger] prefixes@[m])@ == deprecated_prefixes()[m],
            replacement@ == std_prefix(),
            done ==> out@ == rewritten(s@),
            !done ==> rewritten(s@) == out@ + rewritten(s@.skip(i as int)),
        decreases s.len() - i + (if done { 0int } else { 1int }),
    {
        let j = find_line_end(&s, i);
        let ghost rest = s@.skip(i as int);
        let ghost line = s@.subrange(i as int, j as int);
        proof {
            lemma_line_end(rest);
            assert(rest.take(j - i) =~= line);
        }
        let mut rule: usize = 0;
        while rule < RULE_COUNT && !begins_with(&s, i, j, &prefixes[rule])
            invariant
                i <= j <= s.len(),
                rule <= RULE_COUNT,
                prefixes.len() == RULE_COUNT,
                forall|m: int| 0 <= m < RULE_COUNT ==> (#[trigger] prefixes@[m])@ == deprecated_prefixes()[m],
                line == s@.subrange(i as int, j as int),
                first_rule_from(line, 0) == first_rule_from(line, rule as int),
            decreases RULE_COUNT - rule,
        {
            rule = rule + 1;
        }
        if rule < RULE_COUNT {
            let plen = prefixes[rule].len();
            push_range(&mut out, &replacement, 0, replacement.len());
            push_range(&mut out, &s, i + plen, j);
            proof {
                assert(line.skip(plen as int) =~= s@.subrange(i + plen, j as int));
                assert(replacement@.subrange(0, replacement@.len() as int) =~= replacement@);
            }
        } else {
            push_range(&mut out, &s, i, j);
        }
        if j == s.len() {
            proof {
                assert(rest =~= line);
            }
            done = true;
        } else {
            out.push('\n');
            proof {
                assert(rest.skip(j - i + 1) =~= s@.skip(j + 1));
            }
            i = j + 1;
        }
    }
    string_of(&out)
}


proof fn lemma_first_rule_some(line: Seq<char>, k: int)
    requires
        0 <= k <= RULE_COUNT,
    ensures
        first_rule_from(line, k) is Some ==> {
            let m = first_rule_from(line, k)->0;
            k <= m < RULE_COUNT && starts_with(line, deprecated_prefixes()[m])
        },
        first_rule_from(line, k) is None ==> forall|m: int|
            k <= m < RULE_COUNT ==> !starts_with(line, #[trigger] deprecated_prefixes()[m]),
    decreases RULE_COUNT - k,
{
    if k < RULE_COUNT {
        lemma_first_rule_some(line, k + 1);
    }
}

/// No rule applies to a line that already imports from `std`.
proof fn lemma_std_line_matches_no_rule(rest: Seq<char>)
    ensures
        first_rule_from(std_prefix() + rest, 0) is None,
{
    reveal_strlit("use std::");
    reveal_strlit("use bumpalo::core_alloc::");
    reveal_strlit("use failure::_core::");
    reveal_strlit("use futures_core::core_reexport::");
    reveal_strlit("use smallvec::alloc::");
    reveal_strlit("use tracing::stdlib::");
    reveal_strlit("use winapi::_core::");
    let t = std_prefix() + rest;
    assert(t[4] == 's' && t[5] == 't');
    assert forall|m: int| 0 <= m < RULE_COUNT implies !starts_with(
        t,
        #[trigger] deprecated_prefixes()[m],
    ) by {
        let p = deprecated_prefixes()[m];
        if starts_with(t, p) {
            assert(t.take(p.len() as int)[4] == p[4]);
            assert(t.take(p.len() as int)[5] == p[5]);
        }
    }
    lemma_first_rule_some(t, 0);
}

proof fn lemma_no_newline_concat(a: Seq<char>, b: Seq<char>)
    requires
        forall|i: int| 0 <= i < a.len() ==> a[i] != '\n',
        forall|i: int| 0 <= i < b.len() ==> b[i] != '\n',
    ensures
        forall|i: int| 0 <= i < (a + b).len() ==> (a + b)[i] != '\n',
{
    assert forall|i: int| 0 <= i < (a + b).len() implies (a + b)[i] != '\n' by {
        if i >= a.len() {
            assert((a + b)[i] == b[i - a.len()]);
        }
    }
}

/// A rewritten line is a single line, and rewriting it again changes nothing.
proof fn lemma_rewritten_line(line: Seq<char>)
    requires
        forall|i: int| 0 <= i < line.len() ==> line[i] != '\n',
    ensures
        forall|i: int|
            0 <= i < rewritten_line(line).len() ==> #[trigger] rewritten_line(line)[i] != '\n',
        rewritten_line(rewritten_line(line)) == rewritten_line(line),
{
    lemma_first_rule_some(line, 0);
    if let Some(k) = first_rule_from(line, 0) {
        let rest = line.skip(deprecated_prefixes()[k].len() as int);
        reveal_strlit("use std::");
        assert forall|i: int| 0 <= i < rest.len() implies rest[i] != '\n' by {
            assert(rest[i] == line[i + deprecated_prefixes()[k].len()]);
        }
        lemma_no_newline_concat(std_prefix(), rest);
        lemma_std_line_matches_no_rule(rest);
    }
}

/// Rewriting is idempotent: no replacement produces a line that a rule
/// would rewrite again.
pub proof fn lemma_rewrite_idempotent(s: Seq<char>)
    ensures
        rewritten(rewritten(s)) == rewritten(s),
    decreases s.len(),
{
    let j = line_end(s) as int;
    lemma_line_end(s);
    if j >= s.len() {
        lemma_rewritten_line(s);
        let t = rewritten_line(s);
        lemma_line_end_at(t, t.len() as int);
    } else {
        let first = s.take(j);
        let rest = s.skip(j + 1);
        lemma_rewritten_line(first);
        lemma_rewrite_idempotent(rest);
        let l = rewritten_line(first);
        let t = l + seq!['\n'] + rewritten(rest);
        assert forall|i: int| 0 <= i < l.len() implies t[i] != '\n' by {
            assert(t[i] == l[i]);
        }
        assert(t[l.len() as int] == '\n');
        lemma_line_end_at(t, l.len() as int);
        assert(t.take(l.len() as int) =~= l);
        assert(t.skip(l.len() as int + 1) =~= rewritten(rest));
    }
}

/// Where no line of `s` begins with a deprecated prefix.
pub open spec fn no_deprecated_line(s: Seq<char>) -> bool {
    forall|i: int, k: int|
        0 <= i <= s.len() && (i == 0 || s[i - 1] == '\n') && 0 <= k < RULE_COUNT ==> !starts_with(
            #[trigger] s.skip(i),
            #[trigger] deprecated_prefixes()[k],
        )
}

/// A text in which no line begins with a deprecated prefix is left as it is.
pub proof fn lemma_rewrite_keeps_clean_text(s: Seq<char>)
    requires
        no_deprecated_line(s),
    ensures
        rewritten(s) == s,
    decreases s.len(),
{
    let j = line_end(s) as int;
    lemma_line_end(s);
    let first = s.take(j);
    assert(s.skip(0) =~= s);
    assert forall|k: int| 0 <= k < RULE_COUNT implies !starts_with(
        first,
        #[trigger] deprecated_prefixes()[k],
    ) by {
        let p = deprecated_prefixes()[k];
        assert(!starts_with(s.skip(0), p));
        if starts_with(first, p) {
            assert(s.take(p.len() as int) =~= first.take(p.len() as int));
        }
    }
    lemma_first_rule_some(first, 0);
    if j >= s.len() {
        assert(first =~= s);
    } else {
        let rest = s.skip(j + 1);
        assert forall|i: int, k: int|
            0 <= i <= rest.len() && (i == 0 || rest[i - 1] == '\n') && 0 <= k
                < RULE_COUNT implies !starts_with(
            #[trigger] rest.skip(i),
            #[trigger] deprecated_prefixes()[k],
        ) by {
            assert(rest.skip(i) =~= s.skip(j + 1 + i));
            if i > 0 {
                assert(rest[i - 1] == s[j + 1 + i - 1]);
            }
            assert(!starts_with(s.skip(j + 1 + i), deprecated_prefixes()[k]));
        }
        lemma_rewrite_keeps_clean_text(rest);
        assert(first + seq!['\n'] + rest =~= s);
    }
}

} // verus!
