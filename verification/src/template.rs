//! Text templates with `$`-prefixed placeholders.
//!
//! A template is read from left to right. A character other than `$` goes to
//! the output as it is. At a `$`, the text that follows must begin with the
//! name of exactly one binding: the `$` and the name are replaced by that
//! binding's value, and reading goes on behind the name. A value is never
//! read again, so a `$` in a value stays. A `$` that no name follows, or that
//! more than one name follows, makes the whole substitution fail.

use vstd::prelude::*;
use vstd::string::*;

verus! {

/// A placeholder's name, without the `$`, and the text that replaces it.
#[derive(Clone, Copy, Debug)]
pub struct Binding<'a> {
    pub name: &'a str,
    pub value: &'a str,
}

/// Why a substitution failed; `position` is the index of the `$` in the
/// template, counted in characters.
#[derive(Clone, Copy, Debug, PartialEq, Eq, Structural)]
pub enum TemplateError {
    /// No binding's name follows the `$`.
    UnboundPlaceholder { position: usize },
    /// The names of two or more bindings follow the `$`.
    AmbiguousPlaceholder { position: usize },
}

/// The names of `bindings`, in order.
pub open spec fn names_of(bindings: Seq<Binding<'_>>) -> Seq<Seq<char>> {
    Seq::new(bindings.len(), |k: int| bindings[k].name@)
}

/// The values of `bindings`, in order.
pub open spec fn values_of(bindings: Seq<Binding<'_>>) -> Seq<Seq<char>> {
    Seq::new(bindings.len(), |k: int| bindings[k].value@)
}

/// Whether `name` stands in `text` at index `at`.
pub open spec fn matches_at(text: Seq<char>, at: int, name: Seq<char>) -> bool {
    &&& 0 <= at
    &&& at + name.len() <= text.len()
    &&& text.subrange(at, at + name.len()) == name
}

/// Whether `k` is the index of a name that stands in `text` at index `at`.
pub open spec fn matching(text: Seq<char>, at: int, names: Seq<Seq<char>>, k: int) -> bool {
    0 <= k < names.len() && matches_at(text, at, names[k])
}

/// `prefix` put before a result, where there is one.
pub open spec fn glue(prefix: Seq<char>, rest: Result<Seq<char>, TemplateError>) -> Result<
    Seq<char>,
    TemplateError,
> {
    match rest {
        Ok(tail) => Ok(prefix + tail),
        Err(e) => Err(e),
    }
}

/// What substitution makes of `text` from index `from` on: the text with
/// every placeholder replaced, or the error at the first `$` that has no
/// single name behind it.
pub open spec fn rendered(
    text: Seq<char>,
    names: Seq<Seq<char>>,
    values: Seq<Seq<char>>,
    from: int,
) -> Result<Seq<char>, TemplateError>
    decreases text.len() - from,
{
    let at = from + 1;
    if from < 0 || from >= text.len() {
        Ok(Seq::empty())
    } else if text[from] != '$' {
        glue(seq![text[from]], rendered(text, names, values, from + 1))
    } else if !(exists|k: int| matching(text, at, names, k)) {
        Err(TemplateError::UnboundPlaceholder { position: from as usize })
    } else {
        let k = choose|k: int| matching(text, at, names, k);
        if exists|m: int| m != k && matching(text, at, names, m) {
            Err(TemplateError::AmbiguousPlaceholder { position: from as usize })
        } else {
            glue(values[k], rendered(text, names, values, at + names[k].len()))
        }
    }
}

/// Whether every `$` of `text` has the name of exactly one binding behind
/// it.
pub open spec fn is_bound(text: Seq<char>, names: Seq<Seq<char>>) -> bool {
    forall|i: int|
        0 <= i < text.len() && #[trigger] text[i] == '$' ==> has_single_name(text, i + 1, names)
}

/// Whether the name of exactly one binding stands in `text` at index `at`.
pub open spec fn has_single_name(text: Seq<char>, at: int, names: Seq<Seq<char>>) -> bool {
    exists|k: int| is_single_name(text, at, names, k)
}

/// Whether `k` is the index of the one name that stands in `text` at index
/// `at`.
pub open spec fn is_single_name(text: Seq<char>, at: int, names: Seq<Seq<char>>, k: int) -> bool {
    &&& matching(text, at, names, k)
    &&& forall|m: int| matching(text, at, names, m) ==> m == k
}

/// Whether `text` holds no `$` from index `from` up to index `to`.
pub open spec fn is_plain(text: Seq<char>, from: int, to: int) -> bool
    decreases to - from,
{
    from >= to || (text[from] != '$' && is_plain(text, from + 1, to))
}

/// Whether the first `n` characters of `name` stand in `text` at index `at`.
pub open spec fn agrees(text: Seq<char>, at: int, name: Seq<char>, n: nat) -> bool
    decreases n,
{
    n == 0 || (text[at + n - 1] == name[n - 1] && agrees(text, at, name, (n - 1) as nat))
}

/// A stretch of text that is plain holds no `$`.
pub proof fn lemma_plain(text: Seq<char>, from: int, to: int, i: int)
    requires
        is_plain(text, from, to),
        from <= i < to,
    ensures
        text[i] != '$',
    decreases to - from,
{
    if from < i {
        lemma_plain(text, from + 1, to, i);
    }
}

/// A name whose characters all stand in the text at `at` stands there.
pub proof fn lemma_agrees(text: Seq<char>, at: int, name: Seq<char>, n: nat)
    requires
        0 <= at,
        n <= name.len(),
        at + name.len() <= text.len(),
        agrees(text, at, name, n),
    ensures
        forall|t: int| 0 <= t < n ==> text[at + t] == name[t],
        n == name.len() ==> matches_at(text, at, name),
    decreases n,
{
    if n > 0 {
        lemma_agrees(text, at, name, (n - 1) as nat);
    }
    if n == name.len() {
        assert(text.subrange(at, at + name.len()) =~= name);
    }
}

/// A name that differs from the text in one character does not stand
/// there.
pub proof fn lemma_differs(text: Seq<char>, at: int, name: Seq<char>, t: int)
    requires
        0 <= t < name.len(),
        0 <= at,
        at + t < text.len(),
        text[at + t] != name[t],
    ensures
        !matches_at(text, at, name),
{
    if matches_at(text, at, name) {
        assert(text.subrange(at, at + name.len())[t] == text[at + t]);
    }
}

/// Substitution goes through a stretch of text without `$` unchanged.
pub proof fn lemma_rendered_text(
    text: Seq<char>,
    names: Seq<Seq<char>>,
    values: Seq<Seq<char>>,
    from: int,
    to: int,
)
    requires
        0 <= from <= to <= text.len(),
        forall|i: int| from <= i < to ==> text[i] != '$',
    ensures
        rendered(text, names, values, from) == glue(
            text.subrange(from, to),
            rendered(text, names, values, to),
        ),
    decreases to - from,
{
    let rest = rendered(text, names, values, to);
    if from == to {
        assert(text.subrange(from, to) =~= Seq::<char>::empty());
        match rest {
            Ok(tail) => {
                assert(Seq::<char>::empty() + tail =~= tail);
            },
            Err(e) => {},
        }
    } else {
        lemma_rendered_text(text, names, values, from + 1, to);
        match rest {
            Ok(tail) => {
                assert(seq![text[from]] + (text.subrange(from + 1, to) + tail) =~= text.subrange(
                    from,
                    to,
                ) + tail);
            },
            Err(e) => {},
        }
    }
}

/// At a `$` with the name of exactly one binding behind it, substitution
/// puts that binding's value and goes on behind the name.
pub proof fn lemma_rendered_placeholder(
    text: Seq<char>,
    names: Seq<Seq<char>>,
    values: Seq<Seq<char>>,
    from: int,
    k: int,
)
    requires
        0 <= from < text.len(),
        text[from] == '$',
        is_single_name(text, from + 1, names, k),
    ensures
        rendered(text, names, values, from) == glue(
            values[k],
            rendered(text, names, values, from + 1 + names[k].len()),
        ),
{
}

/// Substitution succeeds on a template in which every `$` has the name of
/// exactly one binding behind it.
pub proof fn lemma_bound_renders(
    text: Seq<char>,
    names: Seq<Seq<char>>,
    values: Seq<Seq<char>>,
    from: int,
)
    requires
        is_bound(text, names),
    ensures
        rendered(text, names, values, from) is Ok,
    decreases text.len() - from,
{
    if 0 <= from < text.len() {
        if text[from] != '$' {
            lemma_bound_renders(text, names, values, from + 1);
        } else {
            let at = from + 1;
            assert(has_single_name(text, at, names));
            let k = choose|k: int| is_single_name(text, at, names, k);
            lemma_rendered_placeholder(text, names, values, from, k);
            lemma_bound_renders(text, names, values, from + 1 + names[k].len());
        }
    }
}

/// Where no value holds a `$`, the text that substitution gives holds none:
/// no placeholder is left in it.
pub proof fn lemma_rendered_has_no_placeholder(
    text: Seq<char>,
    names: Seq<Seq<char>>,
    values: Seq<Seq<char>>,
    from: int,
)
    requires
        names.len() == values.len(),
        forall|k: int| 0 <= k < values.len() ==> !(#[trigger] values[k]).contains('$'),
    ensures
        rendered(text, names, values, from) is Ok ==> !rendered(
            text,
            names,
            values,
            from,
        )->Ok_0.contains('$'),
    decreases text.len() - from,
{
    let whole = rendered(text, names, values, from);
    if 0 <= from < text.len() && whole is Ok {
        if text[from] != '$' {
            lemma_rendered_has_no_placeholder(text, names, values, from + 1);
            let tail = rendered(text, names, values, from + 1)->Ok_0;
            assert(whole->Ok_0 == seq![text[from]] + tail);
            assert forall|i: int| 0 <= i < whole->Ok_0.len() implies whole->Ok_0[i] != '$' by {
                if i > 0 {
                    assert(tail.contains(tail[i - 1]));
                }
            }
        } else {
            let at = from + 1;
            let k = choose|k: int| matching(text, at, names, k);
            let next = at + names[k].len();
            lemma_rendered_has_no_placeholder(text, names, values, next);
            let tail = rendered(text, names, values, next)->Ok_0;
            assert(whole->Ok_0 == values[k] + tail);
            assert forall|i: int| 0 <= i < whole->Ok_0.len() implies whole->Ok_0[i] != '$' by {
                if i < values[k].len() {
                    assert(values[k].contains(values[k][i]));
                } else {
                    assert(tail.contains(tail[i - values[k].len()]));
                }
            }
        }
    }
}

/// The contents of each of `names`.
spec fn views(names: Seq<Vec<char>>) -> Seq<Seq<char>> {
    Seq::new(names.len(), |k: int| names[k]@)
}

/// The characters of `s`.
fn chars_of(s: &str) -> (v: Vec<char>)
    ensures
        v@ == s@,
{
    let mut v: Vec<char> = Vec::new();
    for c in it: s.chars()
        invariant
            v@ == it.seq().take(it.index() as int),
            it.seq() == s@,
    {
        v.push(c);
        assert(v@ =~= it.seq().take(it.index() + 1));
    }
    assert(v@ =~= s@);
    v
}

/// Whether `name` stands in `text` at index `at`.
fn stands_at(text: &Vec<char>, at: usize, name: &Vec<char>) -> (b: bool)
    ensures
        b == matches_at(text@, at as int, name@),
{
    if at > text.len() || name.len() > text.len() - at {
        return false;
    }
    let mut t: usize = 0;
    while t < name.len()
        invariant
            t <= name@.len(),
            at + name@.len() <= text@.len() <= usize::MAX,
            forall|s: int| 0 <= s < t ==> text@[at + s] == name@[s],
        decreases name@.len() - t,
    {
        if text[at + t] != name[t] {
            proof {
                assert(text@.subrange(at as int, at + name@.len())[t as int] == text@[at + t]);
            }
            return false;
        }
        t = t + 1;
    }
    assert(text@.subrange(at as int, at + name@.len()) =~= name@);
    true
}

/// The bindings whose name stands in `text` at index `at`: the index of the
/// first of them, if there is any, and whether there is another.
fn find_bindings(text: &Vec<char>, at: usize, names: &Vec<Vec<char>>) -> (r: (Option<usize>, bool))
    ensures
        match r.0 {
            Some(k) => matching(text@, at as int, views(names@), k as int),
            None => forall|m: int| !matching(text@, at as int, views(names@), m),
        },
        r.1 <==> exists|k: int, m: int|
            k != m && matching(text@, at as int, views(names@), k) && matching(
                text@,
                at as int,
                views(names@),
                m,
            ),
{
    let ghost all = views(names@);
    let mut first: Option<usize> = None;
    let mut another: bool = false;
    let mut j: usize = 0;
    while j < names.len()
        invariant
            j <= names@.len(),
            all == views(names@),
            all.len() == names@.len(),
            match first {
                Some(k) => k < j && matching(text@, at as int, all, k as int),
                None => forall|m: int| 0 <= m < j ==> !matching(text@, at as int, all, m),
            },
            another <==> exists|k: int, m: int|
                0 <= k < j && 0 <= m < j && k != m && matching(text@, at as int, all, k)
                    && matching(text@, at as int, all, m),
        decreases names@.len() - j,
    {
        assert(all[j as int] == names@[j as int]@);
        if stands_at(text, at, &names[j]) {
            match first {
                Some(k) => {
                    another = true;
                    assert(k != j && matching(text@, at as int, all, k as int) && matching(
                        text@,
                        at as int,
                        all,
                        j as int,
                    ));
                },
                None => {
                    first = Some(j);
                },
            }
        }
        j = j + 1;
    }
    (first, another)
}

/// `template` with every placeholder replaced by the value of the binding
/// whose name stands behind the `$`, or the error at the first `$` that has
/// no single name behind it.
pub fn substitute(template: &str, bindings: &[Binding<'_>]) -> (r: Result<String, TemplateError>)
    ensures
        match r {
            Ok(text) => rendered(template@, names_of(bindings@), values_of(bindings@), 0) == Ok::<
                Seq<char>,
                TemplateError,
            >(text@),
            Err(e) => rendered(template@, names_of(bindings@), values_of(bindings@), 0) == Err::<
                Seq<char>,
                TemplateError,
            >(e),
        },
{
    let text = chars_of(template);
    let ghost all = names_of(bindings@);
    let ghost values = values_of(bindings@);
    let mut names: Vec<Vec<char>> = Vec::new();
    let mut k: usize = 0;
    while k < bindings.len()
        invariant
            k <= bindings@.len(),
            names@.len() == k,
            forall|m: int| 0 <= m < k ==> (#[trigger] names@[m])@ == bindings@[m].name@,
        decreases bindings@.len() - k,
    {
        names.push(chars_of(bindings[k].name));
        k = k + 1;
    }
    assert(views(names@) =~= all);
    let mut out = String::new();
    let mut run: usize = 0;
    let mut i: usize = 0;
    proof {
        assert(out@ + text@.subrange(0, 0) =~= Seq::<char>::empty());
        let whole = rendered(text@, all, values, 0);
        match whole {
            Ok(tail) => {
                assert(Seq::<char>::empty() + tail =~= tail);
            },
            Err(e) => {},
        }
    }
    while i < text.len()
        invariant
            run <= i <= text@.len(),
            text@ == template@,
            all == names_of(bindings@),
            values == values_of(bindings@),
            views(names@) == all,
            forall|s: int| run <= s < i ==> text@[s] != '$',
            rendered(text@, all, values, 0) == glue(out@, rendered(text@, all, values, run as int)),
        decreases text@.len() - i,
    {
        if text[i] == '$' {
            let found = find_bindings(&text, i + 1, &names);
            match found.0 {
                None => {
                    proof {
                        lemma_rendered_text(text@, all, values, run as int, i as int);
                    }
                    return Err(TemplateError::UnboundPlaceholder { position: i });
                },
                Some(k) => {
                    if found.1 {
                        proof {
                            lemma_rendered_text(text@, all, values, run as int, i as int);
                            let at = i + 1;
                            let chosen = choose|c: int| matching(text@, at, all, c);
                            let (a, b) = choose|a: int, b: int|
                                a != b && matching(text@, at, all, a) && matching(
                                    text@,
                                    at,
                                    all,
                                    b,
                                );
                            if a != chosen {
                                assert(a != chosen && matching(text@, at, all, a));
                            } else {
                                assert(b != chosen && matching(text@, at, all, b));
                            }
                        }
                        return Err(TemplateError::AmbiguousPlaceholder { position: i });
                    }
                    proof {
                        lemma_rendered_text(text@, all, values, run as int, i as int);
                        let at = i + 1;
                        assert forall|m: int| matching(text@, at, all, m) implies m == k by {
                            if m != k {
                                assert(m != k && matching(text@, at, all, k as int) && matching(
                                    text@,
                                    at,
                                    all,
                                    m,
                                ));
                            }
                        }
                        lemma_rendered_placeholder(text@, all, values, i as int, k as int);
                        let rest = rendered(text@, all, values, i + 1 + all[k as int].len());
                        let plain = text@.subrange(run as int, i as int);
                        let value = values[k as int];
                        match rest {
                            Ok(tail) => {
                                assert(out@ + (plain + (value + tail)) =~= (out@ + plain + value)
                                    + tail);
                            },
                            Err(e) => {},
                        }
                    }
                    out.append(template.substring_char(run, i));
                    out.append(bindings[k].value);
                    i = i + 1 + names[k].len();
                    run = i;
                },
            }
        } else {
            i = i + 1;
        }
    }
    proof {
        lemma_rendered_text(text@, all, values, run as int, i as int);
        assert(out@ + (text@.subrange(run as int, i as int) + Seq::<char>::empty()) =~= out@
            + text@.subrange(run as int, i as int));
    }
    out.append(template.substring_char(run, i));
    Ok(out)
}

} // verus!
