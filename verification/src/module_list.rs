//! Test module lists: files with one module per line, optionally numbered
//! as `<number>\t<module_name>`.

use vstd::prelude::*;
use crate::text::{
    char_pos, chars_of, find_char, line_bounds, lines_spec, string_from_chars, trim_spec,
    trim_vec,
};

verus! {

/// Result of parsing a test module list file
#[derive(Debug)]
pub struct ParseResult {
    pub modules: Vec<String>,
    pub source_path: String,
}

/// The module named on a (non-blank) line: the trimmed line, or when it
/// holds a tab, the trimmed text after the first tab.
pub open spec fn module_name_of(line: Seq<char>) -> Seq<char> {
    let t = trim_spec(line);
    let k = char_pos(t, '\t');
    if k < t.len() {
        trim_spec(t.skip(k as int + 1))
    } else {
        t
    }
}

/// Whether a line holds anything but whitespace.
pub open spec fn is_nonblank(line: Seq<char>) -> bool {
    trim_spec(line).len() > 0
}

/// The module names of a module list: one per non-blank line.
pub open spec fn module_names(content: Seq<char>) -> Seq<Seq<char>> {
    lines_spec(content).filter(|l: Seq<char>| is_nonblank(l)).map_values(|l: Seq<char>| module_name_of(l))
}

/// The characters of each string.
pub open spec fn names_view(s: Seq<String>) -> Seq<Seq<char>> {
    s.map_values(|x: String| x@)
}

/// Parse the text of a test module list into module names: blank lines are
/// skipped, each other line is trimmed, and a `<number>\t` prefix dropped.
pub fn parse_module_lines(content: &str) -> (r: Vec<String>)
    ensures
        names_view(r@) == module_names(content@),
{
    let cs = chars_of(content);
    let b = line_bounds(&cs);
    let ghost nonblank = |l: Seq<char>| is_nonblank(l);
    let ghost name_of = |l: Seq<char>| module_name_of(l);
    let mut r: Vec<String> = Vec::new();
    let mut i: usize = 0;
    while i < b.len()
        invariant
            cs@ == content@,
            nonblank == (|l: Seq<char>| is_nonblank(l)),
            name_of == (|l: Seq<char>| module_name_of(l)),
            b@.len() == lines_spec(cs@).len(),
            forall|j: int|
                0 <= j < b@.len() ==> {
                    &&& (#[trigger] b@[j]).0 <= b@[j].1 <= cs@.len()
                    &&& cs@.subrange(b@[j].0 as int, b@[j].1 as int) == lines_spec(cs@)[j]
                },
            0 <= i <= b@.len(),
            names_view(r@) == lines_spec(cs@).take(i as int).filter(nonblank).map_values(name_of),
        decreases b@.len() - i,
    {
        let (lo, hi) = b[i];
        let mut line: Vec<char> = Vec::new();
        let mut j = lo;
        while j < hi
            invariant
                lo <= j <= hi <= cs@.len(),
                line@ == cs@.subrange(lo as int, j as int),
            decreases hi - j,
        {
            line.push(cs[j]);
            j = j + 1;
            assert(line@ =~= cs@.subrange(lo as int, j as int));
        }
        let ghost l = lines_spec(cs@)[i as int];
        assert(line@ == l);
        let t = trim_vec(&line);
        proof {
            let all = lines_spec(cs@);
            assert(all.take(i + 1) =~= all.take(i as int).push(l));
            all.take(i as int).lemma_filter_push(l, nonblank);
        }
        if t.len() > 0 {
            let k = find_char(&t, '\t');
            let name: Vec<char> = if k < t.len() {
                let mut rest: Vec<char> = Vec::new();
                let mut m = k + 1;
                while m < t.len()
                    invariant
                        k + 1 <= m <= t@.len(),
                        rest@ == t@.subrange(k + 1, m as int),
                    decreases t@.len() - m,
                {
                    rest.push(t[m]);
                    m = m + 1;
                    assert(rest@ =~= t@.subrange(k + 1, m as int));
                }
                assert(rest@ =~= t@.skip(k + 1));
                trim_vec(&rest)
            } else {
                t
            };
            let ghost old_r = r@;
            r.push(string_from_chars(name.as_slice()));
            proof {
                let prev = lines_spec(cs@).take(i as int).filter(nonblank);
                assert(prev.push(l).map_values(name_of) =~= prev.map_values(name_of).push(
                    module_name_of(l),
                ));
                assert(names_view(r@) =~= names_view(old_r).push(module_name_of(l)));
            }
        }
        i = i + 1;
    }
    assert(lines_spec(cs@).take(b@.len() as int) =~= lines_spec(cs@));
    r
}

impl ParseResult {
    /// The parse result of a module list read from `source_path`.
    pub fn from_content(source_path: &str, content: &str) -> (r: Self)
        ensures
            names_view(r.modules@) == module_names(content@),
            r.source_path@ == source_path@,
    {
        ParseResult {
            modules: parse_module_lines(content),
            source_path: crate::text::to_owned_string(source_path),
        }
    }

    /// The parse result of a module list that does not exist: no modules.
    pub fn missing(source_path: &str) -> (r: Self)
        ensures
            r.modules@.len() == 0,
            r.source_path@ == source_path@,
    {
        ParseResult { modules: Vec::new(), source_path: crate::text::to_owned_string(source_path) }
    }
}

} // verus!
