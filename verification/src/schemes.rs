use crate::text::{
    contains, eq_ignore_ascii_case, first_match, has_substring, lemma_chars_deep_view,
    lemma_first_match, lemma_first_match_is, lines_of, same_ignoring_ascii_case, split_lines,
    to_chars, to_string, trim, trimmed,
};
use crate::tool::ToolOutput;
use vstd::prelude::*;
use vstd::string::StringExecFns;

verus! {

/// Whether a line is the heading of the list of schemes: `Schemes:` in any
/// case of its letters, with white space around it or none.
pub open spec fn is_marker(line: Seq<char>) -> bool {
    same_ignoring_ascii_case(trimmed(line), "Schemes:"@)
}

/// Whether a line begins with a space or a tab.
pub open spec fn is_indented(line: Seq<char>) -> bool {
    line.len() > 0 && (line[0] == ' ' || line[0] == '\t')
}

/// The index of the first heading among `lines`, or their number.
pub open spec fn marker_index(lines: Seq<Seq<char>>) -> int {
    first_match(lines, |l: Seq<char>| is_marker(l))
}

/// The names that the lines after a heading list. `started` says whether a
/// name was listed before `lines`. A repeated heading is passed over. Blank
/// lines before the first name are passed over; a blank line after a name
/// ends the list. So does a line with text that is not indented. Any other
/// line gives a name: its text without the white space around it.
pub open spec fn section_names(lines: Seq<Seq<char>>, started: bool) -> Seq<Seq<char>>
    decreases lines.len(),
{
    if lines.len() == 0 {
        Seq::empty()
    } else {
        let line = lines[0];
        let rest = lines.drop_first();
        if is_marker(line) {
            section_names(rest, started)
        } else if trimmed(line).len() == 0 {
            if started {
                Seq::empty()
            } else {
                section_names(rest, false)
            }
        } else if !is_indented(line) {
            Seq::empty()
        } else {
            seq![trimmed(line)] + section_names(rest, true)
        }
    }
}

/// The scheme names that a listing holds, in its order: those of the section
/// after its first heading, and none where it has no heading.
pub open spec fn scheme_names(listing: Seq<char>) -> Seq<Seq<char>> {
    let lines = lines_of(listing);
    let m = marker_index(lines);
    if 0 <= m < lines.len() {
        section_names(lines.skip(m + 1), false)
    } else {
        Seq::empty()
    }
}

/// Whether a line gives a name: it is no heading, holds text and is
/// indented.
pub open spec fn is_entry(line: Seq<char>) -> bool {
    !is_marker(line) && trimmed(line).len() > 0 && is_indented(line)
}

/// Whether a line ends the list: a blank line after a name, or a line with
/// text that is not indented and is no heading.
pub open spec fn closes_section(line: Seq<char>, started: bool) -> bool {
    !is_marker(line) && if trimmed(line).len() == 0 {
        started
    } else {
        !is_indented(line)
    }
}

/// The names that the entries among `lines` give, in the order of the
/// lines.
pub open spec fn entries(lines: Seq<Seq<char>>) -> Seq<Seq<char>> {
    lines.filter(|l: Seq<char>| is_entry(l)).map_values(|l: Seq<char>| trimmed(l))
}

/// The number of lines before the one that ends the list.
pub open spec fn section_end(lines: Seq<Seq<char>>, started: bool) -> int
    decreases lines.len(),
{
    if lines.len() == 0 || closes_section(lines[0], started) {
        0
    } else {
        1 + section_end(lines.drop_first(), started || is_entry(lines[0]))
    }
}

/// The entries of a line followed by other lines are those of the line and
/// then those of the others.
pub proof fn lemma_entries_prepend(line: Seq<char>, rest: Seq<Seq<char>>)
    ensures
        entries(seq![line] + rest) == (if is_entry(line) {
            seq![trimmed(line)]
        } else {
            Seq::empty()
        }) + entries(rest),
{
    let keep = |l: Seq<char>| is_entry(l);
    rest.lemma_filter_prepend(line, keep);
    let head = if is_entry(line) {
        seq![line]
    } else {
        Seq::<Seq<char>>::empty()
    };
    assert((head + rest.filter(keep)).map_values(|l: Seq<char>| trimmed(l)) =~= (if is_entry(
        line,
    ) {
        seq![trimmed(line)]
    } else {
        Seq::empty()
    }) + entries(rest));
}

/// No lines have no entries.
pub proof fn lemma_entries_empty()
    ensures
        entries(Seq::empty()).len() == 0,
{
    reveal(Seq::filter);
}

/// The names of a section are the names of its entries, in the order of the
/// lines, up to the first line that ends the list.
pub proof fn lemma_section_names_in_order(lines: Seq<Seq<char>>, started: bool)
    ensures
        0 <= section_end(lines, started) <= lines.len(),
        section_names(lines, started) == entries(lines.take(section_end(lines, started))),
        section_end(lines, started) < lines.len() ==> closes_section(
            lines[section_end(lines, started)],
            started || entries(lines.take(section_end(lines, started))).len() > 0,
        ),
        forall|j: int|
            0 <= j < section_end(lines, started) ==> !closes_section(
                #[trigger] lines[j],
                started || entries(lines.take(j)).len() > 0,
            ),
    decreases lines.len(),
{
    let end = section_end(lines, started);
    lemma_entries_empty();
    if lines.len() == 0 || closes_section(lines[0], started) {
        assert(lines.take(0) =~= Seq::<Seq<char>>::empty());
    } else {
        let line = lines[0];
        let rest = lines.drop_first();
        let next = started || is_entry(line);
        lemma_section_names_in_order(rest, next);
        let rest_end = section_end(rest, next);
        assert(lines.take(end) =~= seq![line] + rest.take(rest_end));
        lemma_entries_prepend(line, rest.take(rest_end));
        assert(section_names(lines, started) =~= entries(lines.take(end)));
        if end < lines.len() {
            assert(lines[end] == rest[rest_end]);
        }
        assert forall|j: int| 0 <= j < end implies !closes_section(
            #[trigger] lines[j],
            started || entries(lines.take(j)).len() > 0,
        ) by {
            if j == 0 {
                assert(lines.take(0) =~= Seq::<Seq<char>>::empty());
            } else {
                assert(lines[j] == rest[j - 1]);
                assert(lines.take(j) =~= seq![line] + rest.take(j - 1));
                lemma_entries_prepend(line, rest.take(j - 1));
            }
        }
    }
}

/// The scheme names of a listing are the names of the entries after its
/// first heading, in the order of the lines, up to the first line that ends
/// the list; a listing without a heading has none.
pub proof fn lemma_scheme_names_in_order(listing: Seq<char>)
    ensures
        ({
            let lines = lines_of(listing);
            let m = marker_index(lines);
            let body = lines.skip(m + 1);
            if 0 <= m < lines.len() {
                scheme_names(listing) == entries(body.take(section_end(body, false)))
            } else {
                scheme_names(listing).len() == 0
            }
        }),
{
    let lines = lines_of(listing);
    let m = marker_index(lines);
    if 0 <= m < lines.len() {
        lemma_section_names_in_order(lines.skip(m + 1), false);
    }
}

/// Reads the scheme names out of the text that the build tool prints for a
/// request to list them.
pub fn extract_schemes(xcodebuild_output: &str) -> (schemes: Vec<String>)
    ensures
        schemes.deep_view() == scheme_names(xcodebuild_output@),
{
    let text = to_chars(xcodebuild_output);
    let lines = split_lines(&text);
    let marker = to_chars("Schemes:");
    let ghost ls = lines.deep_view();
    let ghost is_mark = |l: Seq<char>| is_marker(l);
    let mut schemes: Vec<String> = Vec::new();
    let mut in_schemes = false;
    let mut done = false;
    let mut i: usize = 0;
    while i < lines.len() && !done
        invariant
            i <= lines.len(),
            ls == lines.deep_view(),
            ls == lines_of(xcodebuild_output@),
            marker@ == "Schemes:"@,
            is_mark == (|l: Seq<char>| is_marker(l)),
            !in_schemes ==> schemes@.len() == 0 && !done,
            !in_schemes ==> forall|j: int| 0 <= j < i ==> !is_mark(#[trigger] ls[j]),
            in_schemes ==> 0 <= marker_index(ls) < i,
            in_schemes && done ==> section_names(ls.skip(marker_index(ls) + 1), false)
                == schemes.deep_view(),
            in_schemes && !done ==> section_names(ls.skip(marker_index(ls) + 1), false)
                == schemes.deep_view() + section_names(ls.skip(i as int), schemes@.len() > 0),
        decreases lines.len() - i,
    {
        let line = &lines[i];
        let trimmed_line = trim(line);
        let ghost before = schemes.deep_view();
        proof {
            lemma_chars_deep_view(lines@[i as int]);
            assert(ls[i as int] == line@);
            assert(ls.skip(i as int)[0] == line@);
            assert(ls.skip(i as int).drop_first() =~= ls.skip(i + 1));
        }
        if eq_ignore_ascii_case(&trimmed_line, &marker) {
            if !in_schemes {
                proof {
                    assert(is_mark(ls[i as int]));
                    lemma_first_match_is(ls, is_mark, i as int);
                    assert(before + section_names(ls.skip(i + 1), false) =~= section_names(
                        ls.skip(i + 1),
                        false,
                    ));
                }
                in_schemes = true;
            }
        } else if in_schemes {
            if trimmed_line.len() == 0 {
                if schemes.len() > 0 {
                    done = true;
                    assert(before + Seq::<Seq<char>>::empty() =~= before);
                }
            } else if !(line.len() > 0 && (line[0] == ' ' || line[0] == '\t')) {
                done = true;
                assert(before + Seq::<Seq<char>>::empty() =~= before);
            } else {
                schemes.push(to_string(&trimmed_line));
                proof {
                    assert(schemes.deep_view() =~= before.push(trimmed_line@));
                    assert(before + (seq![trimmed_line@] + section_names(ls.skip(i + 1), true))
                        =~= before.push(trimmed_line@) + section_names(ls.skip(i + 1), true));
                }
            }
        } else {
            assert(!is_mark(ls[i as int]));
        }
        i += 1;
    }
    proof {
        if !in_schemes {
            lemma_first_match_is(ls, is_mark, ls.len() as int);
            assert(schemes.deep_view() =~= Seq::<Seq<char>>::empty());
        } else if !done {
            assert(ls.skip(i as int).len() == 0);
            assert(schemes.deep_view() + Seq::<Seq<char>>::empty() =~= schemes.deep_view());
        }
    }
    schemes
}

/// The text that a run of the build tool leaves to read: its standard
/// output, a line feed and its standard error.
pub open spec fn combined_text(output: ToolOutput) -> Seq<char> {
    output.stdout@ + seq!['\n'] + output.stderr@
}

/// The scheme names that a run of the build tool lists: those of its text
/// where the run succeeded, and none where it failed, whatever it wrote, or
/// is absent.
pub open spec fn listing_of_run(run: Option<ToolOutput>) -> Seq<Seq<char>> {
    match run {
        Some(output) => if output.success {
            scheme_names(combined_text(output))
        } else {
            Seq::empty()
        },
        None => Seq::empty(),
    }
}

/// A run that is absent or failed lists no scheme, whatever it wrote.
pub proof fn lemma_failed_run_lists_nothing(run: Option<ToolOutput>)
    requires
        run is None || !run->0.success,
    ensures
        listing_of_run(run).len() == 0,
{
}

/// Reads the scheme names out of a run of the build tool that was asked to
/// list them.
pub fn parse_schemes_from_xcodebuild(run: &Option<ToolOutput>) -> (schemes: Vec<String>)
    ensures
        schemes.deep_view() == listing_of_run(*run),
{
    match run {
        Some(output) => {
            if output.success {
                let mut text = String::new();
                text.append(output.stdout.as_str());
                text.push('\n');
                text.append(output.stderr.as_str());
                assert(text@ =~= combined_text(*output));
                extract_schemes(text.as_str())
            } else {
                no_schemes()
            }
        },
        None => no_schemes(),
    }
}

/// An empty list of schemes.
fn no_schemes() -> (schemes: Vec<String>)
    ensures
        schemes.deep_view() == Seq::<Seq<char>>::empty(),
{
    let schemes: Vec<String> = Vec::new();
    assert(schemes.deep_view() =~= Seq::<Seq<char>>::empty());
    schemes
}

/// The lower-case form of a text, as `str::to_lowercase` gives it.
pub uninterp spec fn lowercase(s: Seq<char>) -> Seq<char>;

/// Calls `str::to_lowercase`, which maps each character as Unicode's
/// `Lowercase` property says. The result is the one that `lowercase` names.
#[verifier::external_body]
fn to_lowercase(s: &str) -> (r: String)
    ensures
        r@ == lowercase(s@),
{
    s.to_lowercase()
}

/// The words that mark a scheme as one for development.
pub open spec fn development_words() -> Seq<Seq<char>> {
    seq!["dev"@, "debug"@, "staging"@]
}

/// The words that mark a scheme as one for distribution.
pub open spec fn distribution_words() -> Seq<Seq<char>> {
    seq!["prod"@, "release"@, "appstore"@]
}

/// Whether one of `words` stands somewhere in `lower`.
pub open spec fn mentions_any(lower: Seq<char>, words: Seq<Seq<char>>) -> bool {
    exists|k: int| 0 <= k < words.len() && has_substring(lower, #[trigger] words[k])
}

/// The index of the first of `lowered` in which one of `words` stands, or
/// their number.
pub open spec fn first_mention(lowered: Seq<Seq<char>>, words: Seq<Seq<char>>) -> int {
    first_match(lowered, |l: Seq<char>| mentions_any(l, words))
}

/// The name at the first index whose lower-case form holds one of `words`.
/// A name without a lower-case form holds none.
pub open spec fn keyword_choice(
    names: Seq<Seq<char>>,
    lowered: Seq<Seq<char>>,
    words: Seq<Seq<char>>,
) -> Option<Seq<char>> {
    let i = first_mention(lowered, words);
    if 0 <= i < lowered.len() && i < names.len() {
        Some(names[i])
    } else {
        None
    }
}

/// The scheme for development: the first whose lower-case form holds
/// `dev`, `debug` or `staging`; without one, the first scheme; of no schemes,
/// none.
pub open spec fn development_choice(names: Seq<Seq<char>>, lowered: Seq<Seq<char>>) -> Option<
    Seq<char>,
> {
    if names.len() == 0 {
        None
    } else {
        match keyword_choice(names, lowered, development_words()) {
            Some(n) => Some(n),
            None => Some(names[0]),
        }
    }
}

/// The test for a name other than `chosen`.
pub open spec fn differs_from(chosen: Seq<char>) -> spec_fn(Seq<char>) -> bool {
    |n: Seq<char>| n != chosen
}

/// The scheme for distribution: the first whose lower-case form holds
/// `prod`, `release` or `appstore`; without one, the first scheme that
/// differs from the one for development; without one, the first scheme; of no
/// schemes, none.
pub open spec fn distribution_choice(names: Seq<Seq<char>>, lowered: Seq<Seq<char>>) -> Option<
    Seq<char>,
> {
    if names.len() == 0 {
        None
    } else {
        match keyword_choice(names, lowered, distribution_words()) {
            Some(n) => Some(n),
            None => {
                let dev = development_choice(names, lowered)->0;
                let j = first_match(names, differs_from(dev));
                if 0 <= j < names.len() {
                    Some(names[j])
                } else {
                    Some(names[0])
                }
            },
        }
    }
}

/// Of no schemes none is picked, for development or for distribution.
pub proof fn lemma_selection_of_none(names: Seq<Seq<char>>, lowered: Seq<Seq<char>>)
    requires
        names.len() == 0,
    ensures
        development_choice(names, lowered) is None,
        distribution_choice(names, lowered) is None,
{
}

/// Where there is a scheme, one is picked for development and one for
/// distribution, and both are schemes of the list.
pub proof fn lemma_selection_populated(names: Seq<Seq<char>>, lowered: Seq<Seq<char>>)
    requires
        names.len() > 0,
    ensures
        development_choice(names, lowered) is Some,
        distribution_choice(names, lowered) is Some,
        names.contains(development_choice(names, lowered)->0),
        names.contains(distribution_choice(names, lowered)->0),
{
    let dev = development_choice(names, lowered)->0;
    let i = first_mention(lowered, development_words());
    if 0 <= i < lowered.len() && i < names.len() {
        assert(names[i] == dev);
    } else {
        assert(names[0] == dev);
    }
    let dis = distribution_choice(names, lowered)->0;
    let k = first_mention(lowered, distribution_words());
    let j = first_match(names, differs_from(dev));
    if 0 <= k < lowered.len() && k < names.len() {
        assert(names[k] == dis);
    } else if 0 <= j < names.len() {
        assert(names[j] == dis);
    } else {
        assert(names[0] == dis);
    }
}

/// The only scheme of a list is picked for both, whatever it is called.
pub proof fn lemma_selection_of_one(names: Seq<Seq<char>>, lowered: Seq<Seq<char>>)
    requires
        names.len() == 1,
    ensures
        development_choice(names, lowered) == Some(names[0]),
        distribution_choice(names, lowered) == Some(names[0]),
{
    lemma_first_match(lowered, |l: Seq<char>| mentions_any(l, development_words()));
    lemma_first_match(lowered, |l: Seq<char>| mentions_any(l, distribution_words()));
    lemma_first_match(names, differs_from(names[0]));
}

/// Where no name holds a word for development, the first scheme is picked
/// for it. Where none holds a word for distribution either, the first scheme
/// that differs from that one is picked for distribution, and the first
/// scheme where all are the same.
pub proof fn lemma_selection_without_keywords(names: Seq<Seq<char>>, lowered: Seq<Seq<char>>)
    requires
        names.len() > 0,
        forall|i: int|
            0 <= i < lowered.len() ==> !mentions_any(#[trigger] lowered[i], development_words()),
        forall|i: int|
            0 <= i < lowered.len() ==> !mentions_any(#[trigger] lowered[i], distribution_words()),
    ensures
        development_choice(names, lowered) == Some(names[0]),
        (exists|j: int| 0 <= j < names.len() && #[trigger] names[j] != names[0]) ==> {
            let j = first_match(names, differs_from(names[0]));
            &&& 0 < j < names.len()
            &&& distribution_choice(names, lowered) == Some(names[j])
            &&& names[j] != names[0]
            &&& forall|k: int| 0 <= k < j ==> #[trigger] names[k] == names[0]
        },
        (forall|j: int| 0 <= j < names.len() ==> #[trigger] names[j] == names[0]) ==> distribution_choice(
            names,
            lowered,
        ) == Some(names[0]),
{
    lemma_first_match(lowered, |l: Seq<char>| mentions_any(l, development_words()));
    lemma_first_match(lowered, |l: Seq<char>| mentions_any(l, distribution_words()));
    lemma_first_match(names, differs_from(names[0]));
}

/// The scheme for distribution differs from the one for development
/// wherever no name holds a word for distribution and the list holds two
/// different schemes.
pub proof fn lemma_distribution_differs(names: Seq<Seq<char>>, lowered: Seq<Seq<char>>)
    requires
        names.len() > 0,
        forall|i: int|
            0 <= i < lowered.len() ==> !mentions_any(#[trigger] lowered[i], distribution_words()),
        exists|i: int, j: int|
            0 <= i < names.len() && 0 <= j < names.len() && #[trigger] names[i] != #[trigger] names[j],
    ensures
        distribution_choice(names, lowered) != development_choice(names, lowered),
{
    let dev = development_choice(names, lowered)->0;
    lemma_first_match(lowered, |l: Seq<char>| mentions_any(l, distribution_words()));
    lemma_first_match(names, differs_from(dev));
    let (i, j) = choose|i: int, j: int|
        0 <= i < names.len() && 0 <= j < names.len() && #[trigger] names[i] != #[trigger] names[j];
    assert(differs_from(dev)(names[i]) || differs_from(dev)(names[j]));
}

/// The lower-case form of each of `names`.
pub open spec fn lowercase_each(names: Seq<Seq<char>>) -> Seq<Seq<char>> {
    names.map_values(|n: Seq<char>| lowercase(n))
}

/// The words that mark a scheme as one for development.
fn development_keywords() -> (words: Vec<Vec<char>>)
    ensures
        words.deep_view() == development_words(),
{
    let mut words: Vec<Vec<char>> = Vec::new();
    words.push(to_chars("dev"));
    words.push(to_chars("debug"));
    words.push(to_chars("staging"));
    proof {
        lemma_chars_deep_view(words@[0]);
        lemma_chars_deep_view(words@[1]);
        lemma_chars_deep_view(words@[2]);
        assert(words.deep_view() =~= development_words());
    }
    words
}

/// The words that mark a scheme as one for distribution.
fn distribution_keywords() -> (words: Vec<Vec<char>>)
    ensures
        words.deep_view() == distribution_words(),
{
    let mut words: Vec<Vec<char>> = Vec::new();
    words.push(to_chars("prod"));
    words.push(to_chars("release"));
    words.push(to_chars("appstore"));
    proof {
        lemma_chars_deep_view(words@[0]);
        lemma_chars_deep_view(words@[1]);
        lemma_chars_deep_view(words@[2]);
        assert(words.deep_view() =~= distribution_words());
    }
    words
}

/// Tests whether one of `words` stands somewhere in `lower`.
fn mentions(lower: &Vec<char>, words: &Vec<Vec<char>>) -> (b: bool)
    ensures
        b == mentions_any(lower@, words.deep_view()),
{
    let mut k: usize = 0;
    while k < words.len()
        invariant
            k <= words.len(),
            forall|j: int| 0 <= j < k ==> !has_substring(lower@, #[trigger] words.deep_view()[j]),
        decreases words.len() - k,
    {
        proof {
            lemma_chars_deep_view(words@[k as int]);
        }
        if contains(lower, &words[k]) {
            assert(has_substring(lower@, words.deep_view()[k as int]));
            return true;
        }
        k += 1;
    }
    false
}

/// Finds the first name whose lower-case form holds one of `words`.
fn choose_by_keyword(schemes: &[String], lowered: &[String], words: &Vec<Vec<char>>) -> (r:
    Option<String>)
    ensures
        r.deep_view() == keyword_choice(
            schemes.deep_view(),
            lowered.deep_view(),
            words.deep_view(),
        ),
{
    let ghost low = lowered.deep_view();
    let ghost pred = |l: Seq<char>| mentions_any(l, words.deep_view());
    let mut i: usize = 0;
    while i < lowered.len()
        invariant
            i <= lowered.len(),
            low == lowered.deep_view(),
            pred == (|l: Seq<char>| mentions_any(l, words.deep_view())),
            forall|j: int| 0 <= j < i ==> !pred(#[trigger] low[j]),
        decreases lowered.len() - i,
    {
        let lower = to_chars(lowered[i].as_str());
        if mentions(&lower, words) {
            proof {
                assert(pred(low[i as int]));
                lemma_first_match_is(low, pred, i as int);
            }
            if i < schemes.len() {
                return Some(schemes[i].clone());
            } else {
                return None;
            }
        }
        assert(!pred(low[i as int]));
        i += 1;
    }
    proof {
        lemma_first_match_is(low, pred, low.len() as int);
    }
    None
}

/// Picks the schemes for development and for distribution among `schemes`,
/// given the lower-case form of each.
pub fn select_schemes(schemes: &[String], lowered: &[String]) -> (r: (
    Option<String>,
    Option<String>,
))
    ensures
        r.0.deep_view() == development_choice(schemes.deep_view(), lowered.deep_view()),
        r.1.deep_view() == distribution_choice(schemes.deep_view(), lowered.deep_view()),
{
    if schemes.len() == 0 {
        return (None, None);
    }
    let ghost names = schemes.deep_view();
    let dev_words = development_keywords();
    let dis_words = distribution_keywords();
    let dev: String = match choose_by_keyword(schemes, lowered, &dev_words) {
        Some(name) => name,
        None => schemes[0].clone(),
    };
    let dis: String = match choose_by_keyword(schemes, lowered, &dis_words) {
        Some(name) => name,
        None => {
            let ghost differs = differs_from(dev@);
            let mut j: usize = 0;
            let mut found: Option<String> = None;
            while j < schemes.len() && found.is_none()
                invariant
                    j <= schemes.len(),
                    names == schemes.deep_view(),
                    differs == differs_from(dev@),
                    found is None ==> forall|k: int| 0 <= k < j ==> !differs(#[trigger] names[k]),
                    found is Some ==> 0 <= first_match(names, differs) < names.len()
                        && found->0@ == names[first_match(names, differs)],
                decreases schemes.len() - j,
            {
                if !(schemes[j] == dev) {
                    proof {
                        assert(differs(names[j as int]));
                        lemma_first_match_is(names, differs, j as int);
                    }
                    found = Some(schemes[j].clone());
                } else {
                    assert(!differs(names[j as int]));
                }
                j += 1;
            }
            match found {
                Some(name) => name,
                None => {
                    proof {
                        lemma_first_match_is(names, differs, names.len() as int);
                    }
                    schemes[0].clone()
                },
            }
        },
    };
    (Some(dev), Some(dis))
}

/// Picks the schemes for development and for distribution among `schemes`.
pub fn pick_dev_dis_schemes(schemes: &[String]) -> (r: (Option<String>, Option<String>))
    ensures
        r.0.deep_view() == development_choice(
            schemes.deep_view(),
            lowercase_each(schemes.deep_view()),
        ),
        r.1.deep_view() == distribution_choice(
            schemes.deep_view(),
            lowercase_each(schemes.deep_view()),
        ),
{
    let mut lowered: Vec<String> = Vec::new();
    let mut i: usize = 0;
    while i < schemes.len()
        invariant
            i <= schemes.len(),
            lowered.deep_view() =~= lowercase_each(schemes.deep_view().take(i as int)),
        decreases schemes.len() - i,
    {
        let ghost before = lowered.deep_view();
        lowered.push(to_lowercase(schemes[i].as_str()));
        i += 1;
        proof {
            assert(lowered.deep_view() =~= before.push(lowercase(schemes.deep_view()[i - 1])));
            assert(schemes.deep_view().take(i as int) =~= schemes.deep_view().take(i - 1).push(
                schemes.deep_view()[i - 1],
            ));
        }
    }
    assert(schemes.deep_view().take(i as int) =~= schemes.deep_view());
    select_schemes(schemes, lowered.as_slice())
}

} // verus!
