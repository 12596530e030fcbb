use crate::text::{
    first_match, has_prefix, lemma_chars_deep_view, lemma_first_match_is, lines_of, split_lines,
    strip_prefix, to_chars, to_string, trim, trim_start, trimmed, trimmed_start,
};
use vstd::prelude::*;

verus! {

/// What stands before the value on the line of a build setting: the key, a
/// space, an equals sign and a space.
pub open spec fn setting_prefix(key: Seq<char>) -> Seq<char> {
    key + seq![' ', '=', ' ']
}

/// Whether a line holds the setting: after its leading white space it
/// begins with the key and ` = `.
pub open spec fn holds_setting(line: Seq<char>, key: Seq<char>) -> bool {
    has_prefix(trimmed_start(line), setting_prefix(key))
}

/// The value on a line that holds the setting: what follows the prefix,
/// without the white space around it.
pub open spec fn setting_of_line(line: Seq<char>, key: Seq<char>) -> Seq<char> {
    trimmed(trimmed_start(line).skip(setting_prefix(key).len() as int))
}

/// The value of the setting `key` in the build tool's output: that of the
/// first line that holds the setting. There is none where no line holds it,
/// and none where the first that does holds an empty value, whatever later
/// lines hold.
pub open spec fn setting_value(output: Seq<char>, key: Seq<char>) -> Option<Seq<char>> {
    let lines = lines_of(output);
    let i = first_match(lines, |l: Seq<char>| holds_setting(l, key));
    if 0 <= i < lines.len() && setting_of_line(lines[i], key).len() > 0 {
        Some(setting_of_line(lines[i], key))
    } else {
        None
    }
}

/// Reads the value of the setting `key` out of the text that the build tool
/// prints for a request to show a scheme's settings.
pub fn extract_build_setting(output: &str, key: &str) -> (r: Option<String>)
    ensures
        r.deep_view() == setting_value(output@, key@),
        r is Some ==> r->0@.len() > 0,
{
    let mut prefix = to_chars(key);
    prefix.push(' ');
    prefix.push('=');
    prefix.push(' ');
    assert(prefix@ =~= setting_prefix(key@));
    let text = to_chars(output);
    let lines = split_lines(&text);
    let ghost ls = lines.deep_view();
    let ghost holds = |l: Seq<char>| holds_setting(l, key@);
    let mut i: usize = 0;
    while i < lines.len()
        invariant
            i <= lines.len(),
            ls == lines.deep_view(),
            ls == lines_of(output@),
            prefix@ == setting_prefix(key@),
            holds == (|l: Seq<char>| holds_setting(l, key@)),
            forall|j: int| 0 <= j < i ==> !holds(#[trigger] ls[j]),
        decreases lines.len() - i,
    {
        let line = trim_start(&lines[i]);
        proof {
            lemma_chars_deep_view(lines@[i as int]);
        }
        match strip_prefix(&line, &prefix) {
            Some(value) => {
                let parsed = trim(&value);
                proof {
                    assert(holds(ls[i as int]));
                    lemma_first_match_is(ls, holds, i as int);
                }
                if parsed.len() == 0 {
                    return None;
                }
                return Some(to_string(&parsed));
            },
            None => {
                assert(!holds(ls[i as int]));
            },
        }
        i += 1;
    }
    proof {
        lemma_first_match_is(ls, holds, ls.len() as int);
    }
    None
}

} // verus!
