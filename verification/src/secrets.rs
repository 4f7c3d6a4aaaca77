//! The message with which a write is refused when bead content matches
//! secret patterns.

use vstd::prelude::*;
use vstd::utf8::{decode_utf8, encode_utf8, is_char_boundary};
use crate::text::{push_str_chars, string_from_chars};

verus! {

broadcast use vstd::string::group_string_axioms;

/// A piece of bead content that matched a secret pattern.
#[derive(Debug, Clone)]
pub struct SecretMatch {
    pub pattern_name: String,
    pub matched_text: String,
}

/// Error for secret detection failures.
#[derive(Debug)]
pub struct SecretError(pub String);

/// How a matched text is shown: in full when its UTF-8 encoding is at most
/// 60 bytes, else its first 57 bytes followed by "...".
pub open spec fn shown_text(text: Seq<char>) -> Seq<char> {
    let bytes = encode_utf8(text);
    if bytes.len() > 60 {
        decode_utf8(bytes.subrange(0, 57)) + "..."@
    } else {
        text
    }
}

/// Whether a text can be shown: a long one must have a character boundary
/// after its 57th byte.
pub open spec fn can_be_shown(text: Seq<char>) -> bool {
    encode_utf8(text).len() > 60 ==> is_char_boundary(encode_utf8(text), 57)
}

/// The distinct pattern names of the matches, in order of first appearance.
pub open spec fn pattern_names(ms: Seq<SecretMatch>) -> Seq<Seq<char>>
    decreases ms.len(),
{
    if ms.len() == 0 {
        Seq::empty()
    } else {
        let p = pattern_names(ms.drop_last());
        if p.contains(ms.last().pattern_name@) {
            p
        } else {
            p.push(ms.last().pattern_name@)
        }
    }
}

/// The lines listing the matches of one pattern, in the order of the matches.
pub open spec fn match_lines(ms: Seq<SecretMatch>, pattern: Seq<char>) -> Seq<char>
    decreases ms.len(),
{
    if ms.len() == 0 {
        Seq::empty()
    } else {
        match_lines(ms.drop_last(), pattern) + if ms.last().pattern_name@ == pattern {
            "    - "@ + shown_text(ms.last().matched_text@) + "\n"@
        } else {
            Seq::empty()
        }
    }
}

/// The section of each pattern in `patterns`, one after the other.
pub open spec fn pattern_sections(ms: Seq<SecretMatch>, patterns: Seq<Seq<char>>) -> Seq<char>
    decreases patterns.len(),
{
    if patterns.len() == 0 {
        Seq::empty()
    } else {
        pattern_sections(ms, patterns.drop_last()) + "\n  ["@ + patterns.last() + "]\n"@
            + match_lines(ms, patterns.last())
    }
}

/// The opening lines of the refusal.
pub open spec fn secret_message_head() -> Seq<char> {
    "secret detected in bead content. Refusing write.\n\n"@ + "The following patterns matched:\n"@
}

/// The closing lines of the refusal: how to allowlist a false positive.
pub open spec fn secret_message_tail() -> Seq<char> {
    "\nIf this is a false positive, add an allowlist pattern to .beads/config.yaml:\n"@
        + "  secret_protection:\n"@ + "    allowlist:\n"@
        + "      - \"<regex pattern to exclude>\"\n"@
}

/// The refusal message for the given matches: grouped by pattern (patterns
/// in order of first appearance), each match on a line of its own.
pub open spec fn secret_message_spec(ms: Seq<SecretMatch>) -> Seq<char> {
    secret_message_head() + pattern_sections(ms, pattern_names(ms)) + secret_message_tail()
}

fn push_shown_text(v: &mut Vec<char>, text: &str)
    requires
        can_be_shown(text@),
    ensures
        final(v)@ == old(v)@ + shown_text(text@),
{
    if text.as_bytes().len() > 60 {
        let (pre, _post) = text.split_at(57);
        proof {
            vstd::utf8::encode_utf8_decode_utf8(pre@);
            assert(encode_utf8(pre@) == encode_utf8(text@).subrange(0, 57));
            assert(pre@ == decode_utf8(encode_utf8(text@).subrange(0, 57)));
        }
        let ghost before = v@;
        push_str_chars(v, pre);
        push_str_chars(v, "...");
        assert(v@ =~= before + (pre@ + "..."@));
    } else {
        push_str_chars(v, text);
    }
}

fn contains_name(names: &Vec<String>, name: &String) -> (b: bool)
    ensures
        b == names@.map_values(|s: String| s@).contains(name@),
{
    let mut i: usize = 0;
    while i < names.len()
        invariant
            0 <= i <= names@.len(),
            forall|j: int| 0 <= j < i ==> names@[j]@ != name@,
        decreases names@.len() - i,
    {
        if names[i] == *name {
            assert(names@.map_values(|s: String| s@)[i as int] == name@);
            return true;
        }
        i = i + 1;
    }
    proof {
        let m = names@.map_values(|s: String| s@);
        assert forall|j: int| 0 <= j < m.len() implies m[j] != name@ by {
            assert(m[j] == names@[j]@);
        }
    }
    false
}

/// Format secret matches into a user-friendly error message (see
/// [`secret_message_spec`]).
pub fn format_secret_matches(matches: &Vec<SecretMatch>) -> (s: String)
    requires
        forall|i: int| 0 <= i < matches@.len() ==> can_be_shown(#[trigger] matches@[i].matched_text@),
    ensures
        s@ == secret_message_spec(matches@),
{
    let mut names: Vec<String> = Vec::new();
    let mut i: usize = 0;
    while i < matches.len()
        invariant
            0 <= i <= matches@.len(),
            names@.map_values(|s: String| s@) == pattern_names(matches@.take(i as int)),
        decreases matches@.len() - i,
    {
        let name = &matches[i].pattern_name;
        proof {
            assert(matches@.take(i + 1).drop_last() =~= matches@.take(i as int));
        }
        if !contains_name(&names, name) {
            let ghost before = names@;
            names.push(name.clone());
            assert(names@.map_values(|s: String| s@) =~= before.map_values(|s: String| s@).push(name@));
        }
        i = i + 1;
    }
    assert(matches@.take(matches@.len() as int) =~= matches@);
    let mut v: Vec<char> = Vec::new();
    push_str_chars(&mut v, "secret detected in bead content. Refusing write.\n\n");
    push_str_chars(&mut v, "The following patterns matched:\n");
    let ghost pats = names@.map_values(|s: String| s@);
    let mut k: usize = 0;
    while k < names.len()
        invariant
            0 <= k <= names@.len(),
            pats == names@.map_values(|s: String| s@),
            pats == pattern_names(matches@),
            forall|i: int| 0 <= i < matches@.len() ==> can_be_shown(#[trigger] matches@[i].matched_text@),
            v@ == secret_message_head() + pattern_sections(matches@, pats.take(k as int)),
        decreases names@.len() - k,
    {
        let pattern: &String = &names[k];
        push_str_chars(&mut v, "\n  [");
        push_str_chars(&mut v, pattern.as_str());
        push_str_chars(&mut v, "]\n");
        let mut j: usize = 0;
        let ghost before = v@;
        while j < matches.len()
            invariant
                0 <= j <= matches@.len(),
                forall|i: int| 0 <= i < matches@.len() ==> can_be_shown(#[trigger] matches@[i].matched_text@),
                v@ == before + match_lines(matches@.take(j as int), pattern@),
            decreases matches@.len() - j,
        {
            proof {
                assert(matches@.take(j + 1).drop_last() =~= matches@.take(j as int));
            }
            if matches[j].pattern_name == *pattern {
                push_str_chars(&mut v, "    - ");
                push_shown_text(&mut v, matches[j].matched_text.as_str());
                push_str_chars(&mut v, "\n");
            }
            j = j + 1;
            assert(v@ =~= before + match_lines(matches@.take(j as int), pattern@));
        }
        proof {
            assert(matches@.take(matches@.len() as int) =~= matches@);
            assert(pats.take(k + 1).drop_last() =~= pats.take(k as int));
            assert(pats[k as int] == pattern@);
        }
        k = k + 1;
        assert(v@ =~= secret_message_head() + pattern_sections(matches@, pats.take(k as int)));
    }
    push_str_chars(
        &mut v,
        "\nIf this is a false positive, add an allowlist pattern to .beads/config.yaml:\n",
    );
    push_str_chars(&mut v, "  secret_protection:\n");
    push_str_chars(&mut v, "    allowlist:\n");
    push_str_chars(&mut v, "      - \"<regex pattern to exclude>\"\n");
    assert(pats.take(names@.len() as int) =~= pats);
    assert(v@ =~= secret_message_spec(matches@));
    string_from_chars(v.as_slice())
}

} // verus!
