//! Route templates with `{name}` placeholders, compiled to anchored regular
//! expressions and matched through the `regex` crate.
use vstd::prelude::*;
use vstd::string::*;

use crate::str_map::StrMap;
use crate::text::join3;

verus! {

/// What the `regex` crate finds for `pattern` in `text`: `None` when the pattern does not
/// compile or does not match; otherwise the text of each capture group after the whole
/// match, in the order of their opening parentheses.
pub uninterp spec fn regex_groups(pattern: Seq<char>, text: Seq<char>) -> Option<Seq<Seq<char>>>;

/// Relies on `regex::Regex::new` (compiles the pattern, or fails), `Regex::captures` (the
/// leftmost-first match in the text, if any) and `Captures::iter` (every group, whole match
/// first; a group that took no part is listed as empty text).
#[verifier::external_body]
pub(crate) fn captured_groups(pattern: &str, text: &str) -> (r: Option<Vec<String>>)
    ensures
        match r {
            Some(g) => regex_groups(pattern@, text@) == Some(g@.map_values(|s: String| s@)),
            None => regex_groups(pattern@, text@) is None,
        },
{
    let caps = regex::Regex::new(pattern).ok()?.captures(text)?;
    Some(caps.iter().skip(1).map(|m| m.map_or(String::new(), |m| m.as_str().to_string())).collect())
}

/// ASCII letters, digits and `_`.
pub open spec fn is_word_char(c: char) -> bool {
    ('a' <= c && c <= 'z') || ('A' <= c && c <= 'Z') || ('0' <= c && c <= '9') || c == '_'
}

/// Characters with a meaning of their own in the `regex` syntax.
pub open spec fn is_meta_char(c: char) -> bool {
    c == '\\' || c == '.' || c == '+' || c == '*' || c == '?' || c == '(' || c == ')' || c == '|'
        || c == '[' || c == ']' || c == '{' || c == '}' || c == '^' || c == '$' || c == '#' || c
        == '&' || c == '-' || c == '~'
}

/// The pattern text that matches the character `c` literally.
pub open spec fn literal_pattern(c: char) -> Seq<char> {
    if is_meta_char(c) {
        seq!['\\', c]
    } else {
        seq![c]
    }
}

/// The pattern text of a placeholder: one or more word characters, captured.
pub open spec fn placeholder_pattern() -> Seq<char> {
    "([0-9A-Za-z_]+)"@
}

/// The number of word characters in a row from position `i`.
pub open spec fn word_run(t: Seq<char>, i: int) -> nat
    decreases t.len() - i,
{
    if 0 <= i < t.len() && is_word_char(t[i]) {
        1 + word_run(t, i + 1)
    } else {
        0
    }
}

/// The length of the placeholder `{name}` that starts at position `i`, or 0 if none does.
pub open spec fn placeholder_len(t: Seq<char>, i: int) -> nat {
    let w = word_run(t, i + 1);
    if 0 <= i < t.len() && t[i] == '{' && w > 0 && i + 1 + w < t.len() && t[i + 1 + w] == '}' {
        w + 2
    } else {
        0
    }
}

/// The pattern text for the template from position `i` on.
pub open spec fn pattern_from(t: Seq<char>, i: int) -> Seq<char>
    decreases t.len() - i,
{
    if i < 0 || i >= t.len() {
        Seq::empty()
    } else if placeholder_len(t, i) > 0 {
        placeholder_pattern() + pattern_from(t, i + placeholder_len(t, i))
    } else {
        literal_pattern(t[i]) + pattern_from(t, i + 1)
    }
}

/// The placeholder names of the template from position `i` on, in order.
pub open spec fn names_from(t: Seq<char>, i: int) -> Seq<Seq<char>>
    decreases t.len() - i,
{
    if i < 0 || i >= t.len() {
        Seq::empty()
    } else if placeholder_len(t, i) > 0 {
        seq![t.subrange(i + 1, i + placeholder_len(t, i) - 1)] + names_from(
            t,
            i + placeholder_len(t, i),
        )
    } else {
        names_from(t, i + 1)
    }
}

/// The regular expression a template compiles to: it must match the whole text.
pub open spec fn template_pattern(t: Seq<char>) -> Seq<char> {
    "^"@ + pattern_from(t, 0) + "$"@
}

/// The placeholder names of a template, in order.
pub open spec fn template_names(t: Seq<char>) -> Seq<Seq<char>> {
    names_from(t, 0)
}

/// The variables bound by the first `n` names to the first `n` captured texts; a name
/// that occurs twice takes its later text.
pub open spec fn bind_prefix(names: Seq<Seq<char>>, groups: Seq<Seq<char>>, n: int) -> Map<
    Seq<char>,
    Seq<char>,
>
    decreases n,
{
    if n <= 0 {
        Map::empty()
    } else {
        bind_prefix(names, groups, n - 1).insert(names[n - 1], groups[n - 1])
    }
}

/// The variables bound by names to captured texts, pairing them in order.
pub open spec fn bind_vars(names: Seq<Seq<char>>, groups: Seq<Seq<char>>) -> Map<Seq<char>, Seq<char>> {
    bind_prefix(
        names,
        groups,
        if names.len() <= groups.len() {
            names.len() as int
        } else {
            groups.len() as int
        },
    )
}

/// The variables a URL binds in a template, or `None` when the URL does not match.
pub open spec fn template_match(template: Seq<char>, url: Seq<char>) -> Option<Map<Seq<char>, Seq<char>>> {
    match regex_groups(template_pattern(template), url) {
        Some(groups) => Some(bind_vars(template_names(template), groups)),
        None => None,
    }
}

/// Whether `c` is an ASCII letter, digit or `_`.
fn is_word(c: char) -> (r: bool)
    ensures
        r == is_word_char(c),
{
    ('a' <= c && c <= 'z') || ('A' <= c && c <= 'Z') || ('0' <= c && c <= '9') || c == '_'
}

/// The number of word characters in a row from position `i`.
fn word_run_at(t: &str, i: usize) -> (r: usize)
    requires
        i <= t@.len(),
    ensures
        r == word_run(t@, i as int),
        i + r <= t@.len(),
{
    let n = t.unicode_len();
    let mut k: usize = i;
    while k < n && is_word(t.get_char(k))
        invariant
            n == t@.len(),
            i <= k <= n,
            word_run(t@, i as int) == (k - i) + word_run(t@, k as int),
        decreases n - k,
    {
        k = k + 1;
    }
    k - i
}

/// A template compiled once: its pattern and its placeholder names.
pub struct CompiledTemplate {
    pub pattern: String,
    pub names: Vec<String>,
}

impl CompiledTemplate {
    /// The names as character sequences.
    pub open spec fn names_view(&self) -> Seq<Seq<char>> {
        self.names@.map_values(|s: String| s@)
    }
}

/// Compiles a template: each `{name}` (a name of ASCII word characters) becomes a capture
/// of one or more word characters; every other character is matched literally; the
/// pattern must match the whole URL.
pub fn compile_template(template: &str) -> (r: CompiledTemplate)
    ensures
        r.pattern@ == template_pattern(template@),
        r.names_view() == template_names(template@),
{
    let ghost t = template@;
    let n = template.unicode_len();
    let mut body = String::new();
    let mut names: Vec<String> = Vec::new();
    let mut i: usize = 0;
    proof {
        reveal_strlit("([0-9A-Za-z_]+)");
        reveal_strlit("\\");
    }
    while i < n
        invariant
            n == t.len(),
            t == template@,
            i <= n,
            body@ + pattern_from(t, i as int) == pattern_from(t, 0),
            names@.map_values(|s: String| s@) + names_from(t, i as int) == names_from(t, 0),
        decreases n - i,
    {
        let c = template.get_char(i);
        let mut p: usize = 0;
        if c == '{' {
            let w = word_run_at(template, i + 1);
            if w > 0 && i + 1 + w < n && template.get_char(i + 1 + w) == '}' {
                p = w + 2;
            }
        }
        assert(p == placeholder_len(t, i as int));
        let ghost old_names = names@.map_values(|s: String| s@);
        let ghost old_body = body@;
        proof {
            reveal_strlit("([0-9A-Za-z_]+)");
            reveal_strlit("\\");
        }
        if p > 0 {
            body = body.concat("([0-9A-Za-z_]+)");
            let name = template.substring_char(i + 1, i + p - 1).to_owned();
            names.push(name);
            assert(names@.map_values(|s: String| s@) =~= old_names.push(
                t.subrange(i + 1, i + p - 1),
            ));
            assert(pattern_from(t, i as int) == placeholder_pattern() + pattern_from(
                t,
                i + p,
            ));
            assert(body@ + pattern_from(t, i + p) =~= old_body + pattern_from(t, i as int));
            assert(names@.map_values(|s: String| s@) + names_from(t, i + p) =~= old_names
                + names_from(t, i as int));
            i = i + p;
        } else {
            let one = template.substring_char(i, i + 1);
            assert(one@ =~= seq![c]);
            if c == '\\' || c == '.' || c == '+' || c == '*' || c == '?' || c == '(' || c == ')'
                || c == '|' || c == '[' || c == ']' || c == '{' || c == '}' || c == '^' || c == '$'
                || c == '#' || c == '&' || c == '-' || c == '~' {
                body = body.concat("\\");
            }
            body = body.concat(one);
            assert(names@.map_values(|s: String| s@) =~= old_names);
            assert(pattern_from(t, i as int) == literal_pattern(c) + pattern_from(t, i + 1));
            assert(body@ =~= old_body + literal_pattern(c));
            assert(body@ + pattern_from(t, i + 1) =~= old_body + pattern_from(t, i as int));
            i = i + 1;
        }
    }
    assert(names@.map_values(|s: String| s@) =~= names_from(t, 0));
    assert(body@ =~= pattern_from(t, 0));
    let pattern = join3("^", body.as_str(), "$");
    CompiledTemplate { pattern, names }
}

/// Pairs names with captured texts in order (as many pairs as the shorter list has
/// entries); a name that occurs twice keeps its later text.
pub fn bind_groups(names: &Vec<String>, groups: &Vec<String>) -> (r: StrMap)
    ensures
        r@ == bind_vars(names@.map_values(|s: String| s@), groups@.map_values(|s: String| s@)),
{
    let ghost ns = names@.map_values(|s: String| s@);
    let ghost gs = groups@.map_values(|s: String| s@);
    let n = if names.len() <= groups.len() {
        names.len()
    } else {
        groups.len()
    };
    let mut vars = StrMap::new();
    let mut i: usize = 0;
    while i < n
        invariant
            i <= n,
            n <= names@.len(),
            n <= groups@.len(),
            ns == names@.map_values(|s: String| s@),
            gs == groups@.map_values(|s: String| s@),
            vars@ == bind_prefix(ns, gs, i as int),
        decreases n - i,
    {
        vars.insert(names[i].as_str(), groups[i].as_str());
        i = i + 1;
    }
    vars
}

/// Matches a URL against a compiled template: the bound variables, or `None` when the
/// URL does not match the pattern.
pub fn match_compiled(compiled: &CompiledTemplate, url: &str) -> (r: Option<StrMap>)
    ensures
        match r {
            Some(vars) => regex_groups(compiled.pattern@, url@) is Some && vars@ == bind_vars(
                compiled.names_view(),
                regex_groups(compiled.pattern@, url@)->0,
            ),
            None => regex_groups(compiled.pattern@, url@) is None,
        },
{
    match captured_groups(compiled.pattern.as_str(), url) {
        Some(groups) => Some(bind_groups(&compiled.names, &groups)),
        None => None,
    }
}

/// Matches a URL against a template: the variables its placeholders bind, or `None`.
pub fn match_template(template: &str, url: &str) -> (r: Option<StrMap>)
    ensures
        match r {
            Some(vars) => template_match(template@, url@) == Some(vars@),
            None => template_match(template@, url@) is None,
        },
{
    let compiled = compile_template(template);
    match_compiled(&compiled, url)
}

} // verus!
