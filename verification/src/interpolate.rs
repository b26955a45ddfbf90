//! Rewriting of `${name}` markers into positional placeholders.
use vstd::prelude::*;
use vstd::std_specs::iter::IteratorSpec;
use vstd::string::*;

verus! {

broadcast use vstd::string::group_string_axioms;

/// A marker starts at position `i`: a dollar sign directly followed by an
/// opening brace.
pub open spec fn marker_at(s: Seq<char>, i: int) -> bool {
    0 <= i && i + 1 < s.len() && s[i] == '$' && s[i + 1] == '{'
}

/// The text holds no marker at all.
pub open spec fn marker_free(s: Seq<char>) -> bool {
    forall|i: int| !marker_at(s, i)
}

/// Position of the first closing brace at or after `j`, or the length of the
/// text where there is none.
pub open spec fn name_end(s: Seq<char>, j: int) -> int
    decreases s.len() - j,
{
    if j >= s.len() {
        s.len() as int
    } else if j >= 0 && s[j] == '}' {
        j
    } else {
        name_end(s, j + 1)
    }
}

/// Position at which scanning goes on after the marker that starts at `i`:
/// just behind the closing brace, or the end of the text for a marker that is
/// never closed.
pub open spec fn marker_resume(s: Seq<char>, i: int) -> int {
    let e = name_end(s, i + 2);
    if e < s.len() {
        e + 1
    } else {
        s.len() as int
    }
}

/// The name held by the marker that starts at `i`.
pub open spec fn marker_name(s: Seq<char>, i: int) -> Seq<char> {
    s.subrange(i + 2, name_end(s, i + 2))
}

/// Where `name_end` lies, and that it is the first closing brace.
pub proof fn lemma_name_end_bounds(s: Seq<char>, j: int)
    requires
        0 <= j <= s.len(),
    ensures
        j <= name_end(s, j) <= s.len(),
        name_end(s, j) < s.len() ==> s[name_end(s, j)] == '}',
        forall|k: int| j <= k < name_end(s, j) ==> s[k] != '}',
    decreases s.len() - j,
{
    if j < s.len() && s[j] != '}' {
        lemma_name_end_bounds(s, j + 1);
    }
}

/// The template of the text from position `i` on: each marker replaced by
/// `{}`, every other character kept.
pub open spec fn template_from(s: Seq<char>, i: int) -> Seq<char>
    decreases s.len() - i,
    via template_from_decreases
{
    if i < 0 || i >= s.len() {
        Seq::empty()
    } else if marker_at(s, i) {
        "{}"@ + template_from(s, marker_resume(s, i))
    } else {
        seq![s[i]] + template_from(s, i + 1)
    }
}

#[via_fn]
proof fn template_from_decreases(s: Seq<char>, i: int) {
    if 0 <= i < s.len() && marker_at(s, i) {
        lemma_name_end_bounds(s, i + 2);
    }
}

/// The names of the markers of the text from position `i` on, in the order
/// in which they stand, repeated where a name is.
pub open spec fn names_from(s: Seq<char>, i: int) -> Seq<Seq<char>>
    decreases s.len() - i,
    via names_from_decreases
{
    if i < 0 || i >= s.len() {
        Seq::empty()
    } else if marker_at(s, i) {
        seq![marker_name(s, i)] + names_from(s, marker_resume(s, i))
    } else {
        names_from(s, i + 1)
    }
}

#[via_fn]
proof fn names_from_decreases(s: Seq<char>, i: int) {
    if 0 <= i < s.len() && marker_at(s, i) {
        lemma_name_end_bounds(s, i + 2);
    }
}

/// The positional template of a text.
pub open spec fn template(s: Seq<char>) -> Seq<char> {
    template_from(s, 0)
}

/// The marker names of a text, left to right.
pub open spec fn marker_names(s: Seq<char>) -> Seq<Seq<char>> {
    names_from(s, 0)
}

/// What a vector of strings holds, each string by its characters.
pub open spec fn texts_of(v: Seq<String>) -> Seq<Seq<char>> {
    Seq::new(v.len(), |i: int| v[i]@)
}

/// The first `n` names, each led by a comma and a space.
pub open spec fn trailing_args(names: Seq<Seq<char>>, n: nat) -> Seq<char>
    decreases n,
{
    if n == 0 || n > names.len() {
        Seq::empty()
    } else {
        trailing_args(names, (n - 1) as nat) + ", "@ + names[n - 1]
    }
}

/// A text as one argument list: its template, then each marker name as a
/// further argument.
pub open spec fn format_text(s: Seq<char>) -> Seq<char> {
    template(s) + trailing_args(marker_names(s), marker_names(s).len())
}

/// The characters of a string slice, one by one.
pub fn chars_of(s: &str) -> (r: Vec<char>)
    ensures
        r@ == s@,
{
    let mut r: Vec<char> = Vec::new();
    let mut it = s.chars();
    loop
        invariant
            it.decrease() is Some,
            r@ + it.remaining() == s@,
        ensures
            r@ == s@,
        decreases it.decrease()->0,
    {
        let ghost before = it.remaining();
        match it.next() {
            Some(c) => {
                assert(r@.push(c) + before.drop_first() =~= r@ + before);
                r.push(c);
            },
            None => {
                assert(r@ + before =~= r@);
                break;
            },
        }
    }
    r
}

/// A closing brace found by walking forward from `j` is where `name_end`
/// places it.
pub proof fn lemma_name_end_found(s: Seq<char>, j: int, e: int)
    requires
        0 <= j <= e <= s.len(),
        forall|k: int| j <= k < e ==> s[k] != '}',
        e < s.len() ==> s[e] == '}',
    ensures
        name_end(s, j) == e,
    decreases e - j,
{
    if j < e {
        lemma_name_end_found(s, j + 1, e);
    }
}

/// Splits a text into its positional template and the names of its markers.
///
/// A marker that is never closed takes the rest of the text as its name.
pub fn split_markers(input: &str) -> (r: (String, Vec<String>))
    ensures
        r.0@ == template(input@),
        texts_of(r.1@) == marker_names(input@),
{
    let chars = chars_of(input);
    let n = chars.len();
    let ghost s = input@;
    let mut out = String::new();
    let mut names: Vec<String> = Vec::new();
    let mut run: usize = 0;
    let mut i: usize = 0;
    assert(out@ + s.subrange(0, 0) + template_from(s, 0) =~= template(s));
    assert(texts_of(names@) + names_from(s, 0) =~= marker_names(s));
    while i < n
        invariant
            s == input@,
            chars@ == s,
            n == chars.len(),
            run <= i <= n,
            out@ + s.subrange(run as int, i as int) + template_from(s, i as int) == template(s),
            texts_of(names@) + names_from(s, i as int) == marker_names(s),
        decreases n - i,
    {
        if chars[i] == '$' && i + 1 < n && chars[i + 1] == '{' {
            let mut e: usize = i + 2;
            while e < n && chars[e] != '}'
                invariant
                    chars@ == s,
                    n == chars.len(),
                    i + 2 <= e <= n,
                    forall|k: int| i + 2 <= k < e ==> s[k] != '}',
                decreases n - e,
            {
                e += 1;
            }
            proof {
                lemma_name_end_found(s, i + 2, e as int);
                assert(marker_at(s, i as int));
            }
            let next: usize = if e < n { e + 1 } else { n };
            let ghost before = out@;
            let ghost names_before = texts_of(names@);
            out.append(input.substring_char(run, i));
            out.append("{}");
            names.push(String::from_str(input.substring_char(i + 2, e)));
            proof {
                assert(next == marker_resume(s, i as int));
                assert(out@ + s.subrange(next as int, next as int) + template_from(s, next as int)
                    =~= before + s.subrange(run as int, i as int) + template_from(s, i as int));
                assert(texts_of(names@) =~= names_before + seq![marker_name(s, i as int)]);
                assert(texts_of(names@) + names_from(s, next as int) =~= names_before + names_from(
                    s,
                    i as int,
                ));
            }
            i = next;
            run = next;
        } else {
            proof {
                assert(!marker_at(s, i as int));
                assert(s.subrange(run as int, i + 1) =~= s.subrange(run as int, i as int) + seq![
                    s[i as int],
                ]);
                assert(out@ + s.subrange(run as int, i + 1) + template_from(s, i + 1) =~= out@
                    + s.subrange(run as int, i as int) + template_from(s, i as int));
            }
            i += 1;
        }
    }
    proof {
        assert(out@ + s.subrange(run as int, n as int) =~= out@ + s.subrange(run as int, n as int)
            + template_from(s, n as int));
        assert(texts_of(names@) =~= texts_of(names@) + names_from(s, n as int));
    }
    out.append(input.substring_char(run, n));
    (out, names)
}

/// Rewrites a text into one argument list: the positional template first,
/// then the name of each marker, in order, as a further argument.
pub fn format_str(input: &str) -> (r: String)
    ensures
        r@ == format_text(input@),
{
    let (mut out, names) = split_markers(input);
    let ghost all = texts_of(names@);
    let mut k: usize = 0;
    assert(out@ + trailing_args(all, 0) =~= out@);
    while k < names.len()
        invariant
            k <= names.len(),
            all == texts_of(names@),
            all == marker_names(input@),
            out@ == template(input@) + trailing_args(all, k as nat),
        decreases names.len() - k,
    {
        let ghost before = out@;
        out.append(", ");
        out.append(names[k].as_str());
        proof {
            assert(all[k as int] == names@[k as int]@);
            assert(out@ =~= template(input@) + (trailing_args(all, k as nat) + ", "@ + all[k as int]));
        }
        k += 1;
    }
    out
}

} // verus!
