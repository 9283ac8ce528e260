//! Turning arbitrary text into text that is safe inside an image name.

use vstd::prelude::*;

verus! {

/// The characters that may stand in a repository name or a tag.
pub open spec fn is_safe_char(c: char) -> bool {
    ('a' <= c && c <= 'z') || ('0' <= c && c <= '9') || c == '-' || c == '_'
}

/// The upper-case ASCII letters, which are folded rather than replaced.
pub open spec fn is_upper_char(c: char) -> bool {
    'A' <= c && c <= 'Z'
}

/// The characters that are replaced: neither safe nor an upper-case letter.
pub open spec fn is_replaced_char(c: char) -> bool {
    !is_safe_char(c) && !is_upper_char(c)
}

/// The lower-case letter for an upper-case ASCII letter.
pub open spec fn folded(c: char) -> char
    recommends
        is_upper_char(c),
{
    ((c as u8) + 32) as char
}

/// Every character of `s` is safe.
pub open spec fn is_safe(s: Seq<char>) -> bool {
    forall|i: int| 0 <= i < s.len() ==> is_safe_char(#[trigger] s[i])
}

/// What the character at position `i` of `s` becomes: a safe character stays,
/// an upper-case letter is folded, and of each maximal run of other
/// characters only the first leaves a hyphen behind.
pub open spec fn contribution(s: Seq<char>, i: int) -> Seq<char>
    recommends
        0 <= i < s.len(),
{
    let c = s[i];
    if is_safe_char(c) {
        seq![c]
    } else if is_upper_char(c) {
        seq![folded(c)]
    } else if i > 0 && is_replaced_char(s[i - 1]) {
        Seq::empty()
    } else {
        seq!['-']
    }
}

/// The safe form of the first `n` characters of `s`.
pub open spec fn sanitized_prefix(s: Seq<char>, n: nat) -> Seq<char>
    recommends
        n <= s.len(),
    decreases n,
{
    if n == 0 {
        Seq::empty()
    } else {
        sanitized_prefix(s, (n - 1) as nat) + contribution(s, n - 1)
    }
}

/// The safe form of `s`.
pub open spec fn sanitized(s: Seq<char>) -> Seq<char> {
    sanitized_prefix(s, s.len())
}

/// The safe form of a prefix holds safe characters only.
proof fn lemma_sanitized_prefix_is_safe(s: Seq<char>, n: nat)
    requires
        n <= s.len(),
    ensures
        is_safe(sanitized_prefix(s, n)),
    decreases n,
{
    if n > 0 {
        lemma_sanitized_prefix_is_safe(s, (n - 1) as nat);
    }
}

/// A prefix of safe text is its own safe form.
proof fn lemma_safe_prefix_is_kept(s: Seq<char>, n: nat)
    requires
        n <= s.len(),
        is_safe(s),
    ensures
        sanitized_prefix(s, n) == s.take(n as int),
    decreases n,
{
    if n > 0 {
        lemma_safe_prefix_is_kept(s, (n - 1) as nat);
    }
}

/// The safe form of any text holds only lower-case letters, digits, hyphens
/// and underscores.
pub proof fn lemma_sanitized_is_safe(s: Seq<char>)
    ensures
        is_safe(sanitized(s)),
{
    lemma_sanitized_prefix_is_safe(s, s.len());
}

/// Text that is safe already is its own safe form; text made of lower-case
/// letters and digits alone is such text.
pub proof fn lemma_safe_is_kept(s: Seq<char>)
    requires
        is_safe(s),
    ensures
        sanitized(s) == s,
{
    lemma_safe_prefix_is_kept(s, s.len());
}

/// Sanitising is idempotent: the safe form of a safe form is that safe form.
pub proof fn lemma_sanitized_is_idempotent(s: Seq<char>)
    ensures
        sanitized(sanitized(s)) == sanitized(s),
{
    lemma_sanitized_is_safe(s);
    lemma_safe_is_kept(sanitized(s));
}

/// Converts a string into its safe form: upper-case letters become lower-case,
/// and every run of other unsafe characters becomes a single hyphen.
pub fn docker_safe_string(input: &str) -> (safe: String)
    ensures
        safe@ == sanitized(input@),
        is_safe(safe@),
        is_safe(input@) ==> safe@ == input@,
{
    proof {
        lemma_sanitized_is_safe(input@);
        if is_safe(input@) {
            lemma_safe_is_kept(input@);
        }
    }
    let mut safe = String::new();
    let mut in_run = false;
    for c in it: input.chars()
        invariant
            it.seq() == input@,
            safe@ == sanitized_prefix(input@, it.index() as nat),
            in_run == (it.index() > 0 && is_replaced_char(input@[it.index() - 1])),
    {
        if (c >= 'a' && c <= 'z') || (c >= '0' && c <= '9') || c == '-' || c == '_' {
            safe.push(c);
            in_run = false;
        } else if c >= 'A' && c <= 'Z' {
            safe.push(((c as u8) + 32) as char);
            in_run = false;
        } else {
            if !in_run {
                safe.push('-');
            }
            in_run = true;
        }
    }
    safe
}

} // verus!
