//! Chooses the toolchain whose `rustfmt` does the formatting: the one that the
//! project's pre-commit configuration runs `rustfmt` with, else the one that
//! `rustup show active-toolchain` reports, else `stable`.

use vstd::prelude::*;
use vstd::utf8::{decode_utf8, valid_utf8};
use crate::text::{
    begins_with, chars_of, find_run_end, is_space, is_space_spec, lemma_run_end, run_end,
    slice_chars, starts_with, string_of,
};

verus! {

/// What `rustup show active-toolchain` gave: whether it exited successfully,
/// and what it wrote to standard output.
pub struct ActiveToolchainQuery {
    pub success: bool,
    pub stdout: Vec<u8>,
}

/// The command that selects a toolchain.
pub open spec fn run_command() -> Seq<char> {
    "rustup run"@
}

/// The flag that asks for the toolchain to be installed first.
pub open spec fn install_flag() -> Seq<char> {
    " --install "@
}

/// The run of non-whitespace characters of `s` that starts at `j`, if one does.
pub open spec fn token_at(s: Seq<char>, j: int) -> Option<Seq<char>> {
    if 0 <= j < s.len() && !is_space_spec(s[j]) {
        Some(s.subrange(j, run_end(s, j)))
    } else {
        None
    }
}

/// The toolchain named by an invocation `rustup run [--install] <toolchain>`
/// that starts at `i`, if one does. The flag is taken where a toolchain
/// follows it.
pub open spec fn invocation_at(s: Seq<char>, i: int) -> Option<Seq<char>> {
    if i < 0 || i > s.len() || !starts_with(s.skip(i), run_command()) {
        None
    } else {
        let k = i + run_command().len();
        if starts_with(s.skip(k), install_flag()) && token_at(s, k + install_flag().len()) is Some {
            token_at(s, k + install_flag().len())
        } else if k < s.len() && s[k] == ' ' {
            token_at(s, k + 1)
        } else {
            None
        }
    }
}

/// The toolchain of the first invocation that starts at `i` or later.
pub open spec fn first_invocation_from(s: Seq<char>, i: int) -> Option<Seq<char>>
    decreases s.len() + 1 - i,
{
    if i < 0 || i > s.len() {
        None
    } else if invocation_at(s, i) is Some {
        invocation_at(s, i)
    } else {
        first_invocation_from(s, i + 1)
    }
}

/// The toolchain that a pre-commit configuration text pins: that of its first
/// invocation in document order.
pub open spec fn config_toolchain(text: Seq<char>) -> Option<Seq<char>> {
    first_invocation_from(text, 0)
}

/// The index of the first non-whitespace character of `s` at or after `j`,
/// or the length of `s` where there is none.
pub open spec fn skip_space(s: Seq<char>, j: int) -> int
    decreases s.len() - j,
{
    if j < 0 || j >= s.len() || !is_space_spec(s[j]) {
        j
    } else {
        skip_space(s, j + 1)
    }
}

/// The toolchain that an active-toolchain query reports: the first
/// whitespace-delimited word of its output, where the query succeeded and the
/// output is UTF-8 holding a word.
pub open spec fn active_toolchain(q: ActiveToolchainQuery) -> Option<Seq<char>> {
    if q.success && valid_utf8(q.stdout@) {
        token_at(decode_utf8(q.stdout@), skip_space(decode_utf8(q.stdout@), 0))
    } else {
        None
    }
}

/// The toolchain used when nothing else names one.
pub open spec fn default_toolchain() -> Seq<char> {
    "stable"@
}

pub open spec fn str_view(o: Option<&str>) -> Option<Seq<char>> {
    match o {
        Some(s) => Some(s@),
        None => None,
    }
}

pub open spec fn string_view(o: Option<String>) -> Option<Seq<char>> {
    match o {
        Some(s) => Some(s@),
        None => None,
    }
}

/// What the configuration pins, if it was read.
pub open spec fn pinned_toolchain(config: Option<Seq<char>>) -> Option<Seq<char>> {
    match config {
        Some(text) => config_toolchain(text),
        None => None,
    }
}

/// The chosen toolchain: the first of the configuration's pin, the active
/// toolchain and the default that is there.
pub open spec fn chosen_toolchain(
    config: Option<Seq<char>>,
    active: Option<ActiveToolchainQuery>,
) -> Seq<char> {
    match pinned_toolchain(config) {
        Some(t) => t,
        None => match active {
            Some(q) => match active_toolchain(q) {
                Some(t) => t,
                None => default_toolchain(),
            },
            None => default_toolchain(),
        },
    }
}

/// The range of the run of non-whitespace characters of `s` at `j`, if one starts there.
fn token_range_at(s: &Vec<char>, j: usize) -> (r: Option<usize>)
    requires
        j <= s.len(),
    ensures
        r is Some <==> token_at(s@, j as int) is Some,
        r is Some ==> r->0 == run_end(s@, j as int) && token_at(s@, j as int) == Some(
            s@.subrange(j as int, r->0 as int),
        ),
        r is Some ==> j < r->0 <= s.len(),
{
    if j < s.len() && !is_space(s[j]) {
        let e = find_run_end(s, j);
        proof {
            lemma_run_end(s@, j as int);
            assert(run_end(s@, j as int) == run_end(s@, j + 1));
            lemma_run_end(s@, j + 1);
        }
        Some(e)
    } else {
        None
    }
}

/// A range of character indices.
struct Span {
    start: usize,
    end: usize,
}

/// The range of the toolchain named by an invocation at `i`, if one starts there.
fn invocation_range_at(
    s: &Vec<char>,
    i: usize,
    command: &Vec<char>,
    flag: &Vec<char>,
) -> (r: Option<Span>)
    requires
        i <= s.len(),
        command@ == run_command(),
        flag@ == install_flag(),
    ensures
        r is Some <==> invocation_at(s@, i as int) is Some,
        r is Some ==> r->0.start <= r->0.end <= s.len() && invocation_at(s@, i as int) == Some(
            s@.subrange(r->0.start as int, r->0.end as int),
        ),
{
    proof {
        reveal_strlit("rustup run");
        reveal_strlit(" --install ");
    }
    assert(s@.skip(i as int) =~= s@.subrange(i as int, s.len() as int));
    if !begins_with(s, i, s.len(), command) {
        return None;
    }
    let k = i + command.len();
    assert(s@.skip(k as int) =~= s@.subrange(k as int, s.len() as int));
    if begins_with(s, k, s.len(), flag) {
        let j = k + flag.len();
        if let Some(e) = token_range_at(s, j) {
            return Some(Span { start: j, end: e });
        }
    }
    if k < s.len() && s[k] == ' ' {
        match token_range_at(s, k + 1) {
            Some(e) => Some(Span { start: k + 1, end: e }),
            None => None,
        }
    } else {
        None
    }
}

/// The toolchain that the pre-commit configuration `text` pins: the name
/// that follows the first `rustup run` (and its `--install` flag, if any).
pub fn toolchain_from_config(text: &str) -> (r: Option<String>)
    ensures
        string_view(r) == config_toolchain(text@),
{
    let s = chars_of(text);
    let command = chars_of("rustup run");
    let flag = chars_of(" --install ");
    let mut i: usize = 0;
    while i < s.len()
        invariant
            i <= s.len(),
            s@ == text@,
            command@ == run_command(),
            flag@ == install_flag(),
            first_invocation_from(s@, 0) == first_invocation_from(s@, i as int),
        decreases s.len() - i,
    {
        if let Some(span) = invocation_range_at(&s, i, &command, &flag) {
            return Some(string_of(&slice_chars(&s, span.start, span.end)));
        }
        i = i + 1;
    }
    match invocation_range_at(&s, i, &command, &flag) {
        Some(span) => Some(string_of(&slice_chars(&s, span.start, span.end))),
        None => {
            assert(first_invocation_from(s@, i + 1) is None);
            None
        },
    }
}

/// Relies on `std::str::from_utf8`: it accepts exactly the valid UTF-8 byte
/// sequences and then holds the characters they encode.
#[verifier::external_body]
fn utf8_str(b: &[u8]) -> (r: Option<&str>)
    ensures
        r is Some <==> valid_utf8(b@),
        r is Some ==> r->0@ == decode_utf8(b@),
{
    std::str::from_utf8(b).ok()
}

/// The toolchain that a `rustup show active-toolchain` query reports: the
/// first whitespace-delimited word of its output, where it exited
/// successfully and its output is UTF-8 holding a word.
pub fn toolchain_from_active(q: &ActiveToolchainQuery) -> (r: Option<String>)
    ensures
        string_view(r) == active_toolchain(*q),
{
    if !q.success {
        return None;
    }
    match utf8_str(q.stdout.as_slice()) {
        Some(text) => {
            let s = chars_of(text);
            let mut j: usize = 0;
            while j < s.len() && is_space(s[j])
                invariant
                    j <= s.len(),
                    skip_space(s@, 0) == skip_space(s@, j as int),
                decreases s.len() - j,
            {
                j = j + 1;
            }
            match token_range_at(&s, j) {
                Some(e) => Some(string_of(&slice_chars(&s, j, e))),
                None => None,
            }
        },
        None => None,
    }
}

/// Whether the active toolchain has to be asked for: the configuration
/// (where it could be read) pins none.
pub fn needs_active_query(config: Option<&str>) -> (r: bool)
    ensures
        r == (pinned_toolchain(str_view(config)) is None),
{
    match config {
        Some(text) => toolchain_from_config(text).is_none(),
        None => true,
    }
}

/// Chooses the toolchain from the text of the pre-commit configuration, where
/// it could be read, and the answer of the active-toolchain query, where one
/// was made: the configuration's pin first, then the active toolchain, then
/// `stable`. It never fails.
pub fn choose_toolchain(config: Option<&str>, active: Option<&ActiveToolchainQuery>) -> (r: String)
    ensures
        r@ == chosen_toolchain(
            str_view(config),
            match active {
                Some(q) => Some(*q),
                None => None,
            },
        ),
{
    if let Some(text) = config {
        if let Some(t) = toolchain_from_config(text) {
            return t;
        }
    }
    if let Some(q) = active {
        if let Some(t) = toolchain_from_active(q) {
            return t;
        }
    }
    String::from_str("stable")
}


proof fn lemma_run_end_at(s: Seq<char>, j: int, e: int)
    requires
        0 <= j <= e <= s.len(),
        forall|m: int| j <= m < e ==> !is_space_spec(s[m]),
        e == s.len() || is_space_spec(s[e]),
    ensures
        run_end(s, j) == e,
    decreases e - j,
{
    if j < e {
        lemma_run_end_at(s, j + 1, e);
    }
}

proof fn lemma_first_invocation_skips(s: Seq<char>, i: int, n: int)
    requires
        0 <= i <= n <= s.len(),
        forall|m: int| i <= m < n ==> invocation_at(s, m) is None,
    ensures
        first_invocation_from(s, i) == first_invocation_from(s, n),
    decreases n - i,
{
    if i < n {
        lemma_first_invocation_skips(s, i + 1, n);
    }
}

/// The literal text of an invocation that installs the toolchain it names.
pub open spec fn install_invocation() -> Seq<char> {
    "rustup run --install "@
}

/// A configuration whose first invocation is `rustup run --install <t>`,
/// with `t` a word followed by whitespace or the end of the text, pins `t`,
/// whatever the active toolchain is.
pub proof fn lemma_install_invocation_pins(
    before: Seq<char>,
    t: Seq<char>,
    after: Seq<char>,
    active: Option<ActiveToolchainQuery>,
)
    requires
        t.len() > 0,
        forall|m: int| 0 <= m < t.len() ==> !is_space_spec(#[trigger] t[m]),
        after.len() == 0 || is_space_spec(after[0]),
        forall|i: int|
            0 <= i < before.len() ==> invocation_at(
                before + install_invocation() + t + after,
                i,
            ) is None,
    ensures
        chosen_toolchain(Some(before + install_invocation() + t + after), active) == t,
{
    reveal_strlit("rustup run --install ");
    reveal_strlit("rustup run");
    reveal_strlit(" --install ");
    let head = install_invocation();
    let s = before + head + t + after;
    let n = before.len() as int;
    let k = n + run_command().len();
    let j = k + install_flag().len();
    let e = j + t.len();
    assert(forall|m: int| 0 <= m < head.len() ==> s[n + m] == head[m]);
    assert(forall|m: int| 0 <= m < t.len() ==> s[j + m] == t[m]);
    assert(s.skip(n).take(run_command().len() as int) =~= run_command());
    assert(s.skip(k).take(install_flag().len() as int) =~= install_flag());
    assert forall|m: int| j <= m < e implies !is_space_spec(s[m]) by {
        assert(s[m] == t[m - j]);
    }
    if e < s.len() {
        assert(s[e] == after[0]);
    }
    lemma_run_end_at(s, j, e);
    assert(s[j] == t[0]);
    assert(s.subrange(j, e) =~= t);
    assert(invocation_at(s, n) == Some(t));
    lemma_first_invocation_skips(s, 0, n);
}

/// Where the configuration pins nothing (or could not be read) and the
/// active-toolchain query failed (or was not made), the choice is `stable`.
pub proof fn lemma_fallback_is_stable(
    config: Option<Seq<char>>,
    active: Option<ActiveToolchainQuery>,
)
    requires
        pinned_toolchain(config) is None,
        active is None || !active->0.success,
    ensures
        chosen_toolchain(config, active) == default_toolchain(),
{
}

} // verus!
