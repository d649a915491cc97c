//! The filter chain: optional, independently-applicable predicates over the
//! enumerated records. Each filter keeps the relative order of its input and
//! drops exactly the records its predicate rejects.

use vstd::prelude::*;

use crate::pattern::{regex_match, regex_valid, CompiledPattern};
use crate::record::MyFile;
use crate::warnings::Warning;

verus! {

/// The views of a list of pattern strings.
pub open spec fn pattern_views(patterns: Seq<String>) -> Seq<Seq<char>> {
    patterns.map_values(|p: String| p@)
}

/// Whether `name` matches at least one pattern of `patterns` that regex
/// syntax accepts (logical OR across the surviving patterns).
pub open spec fn name_matches_any(patterns: Seq<Seq<char>>, name: Seq<char>) -> bool {
    exists|i: int|
        0 <= i < patterns.len() && regex_valid(patterns[i]) && regex_match(patterns[i], name)
}

/// The name filter's predicate over records.
pub open spec fn name_pred<'a>(patterns: Seq<Seq<char>>) -> spec_fn(&'a MyFile) -> bool {
    |f: &MyFile| name_matches_any(patterns, f.name@)
}

/// The minimum-size filter's predicate: inclusive lower bound.
pub open spec fn min_size_pred<'a>(min_size: u64) -> spec_fn(&'a MyFile) -> bool {
    |f: &MyFile| f.size_bytes >= min_size
}

/// The maximum-size filter's predicate: inclusive upper bound.
pub open spec fn max_size_pred<'a>(max_size: u64) -> spec_fn(&'a MyFile) -> bool {
    |f: &MyFile| f.size_bytes <= max_size
}

/// Whether a record passes every configured filter: the chain is a logical
/// AND across the stages that are present; an absent stage passes everything.
pub open spec fn passes_filters(
    patterns: Option<Seq<Seq<char>>>,
    size_min: Option<u64>,
    size_max: Option<u64>,
    f: MyFile,
) -> bool {
    &&& match patterns {
        Some(ps) => name_matches_any(ps, f.name@),
        None => true,
    }
    &&& match size_min {
        Some(m) => f.size_bytes >= m,
        None => true,
    }
    &&& match size_max {
        Some(m) => f.size_bytes <= m,
        None => true,
    }
}

/// The whole chain's predicate over records.
pub open spec fn passes_pred<'a>(
    patterns: Option<Seq<Seq<char>>>,
    size_min: Option<u64>,
    size_max: Option<u64>,
) -> spec_fn(&'a MyFile) -> bool {
    |f: &MyFile| passes_filters(patterns, size_min, size_max, *f)
}

/// Filtering after appending one element filters the element by itself.
proof fn lemma_filter_push<A>(s: Seq<A>, pred: spec_fn(A) -> bool, x: A)
    ensures
        s.push(x).filter(pred) == if pred(x) {
            s.filter(pred).push(x)
        } else {
            s.filter(pred)
        },
{
    reveal(Seq::filter);
    assert(s.push(x).drop_last() =~= s);
    assert(s.push(x).last() == x);
}

/// An element stands in a filtered sequence iff it stands in the sequence
/// and satisfies the predicate.
pub proof fn lemma_filter_membership<A>(s: Seq<A>, pred: spec_fn(A) -> bool, x: A)
    ensures
        s.filter(pred).contains(x) <==> s.contains(x) && pred(x),
    decreases s.len(),
{
    reveal(Seq::filter);
    if s.len() == 0 {
    } else {
        let t = s.drop_last();
        let l = s.last();
        lemma_filter_membership(t, pred, x);
        assert(s.contains(x) <==> t.contains(x) || x == l) by {
            if s.contains(x) {
                let i = choose|i: int| 0 <= i < s.len() && s[i] == x;
                if i < s.len() - 1 {
                    assert(t[i] == x);
                }
            }
            if t.contains(x) {
                let i = choose|i: int| 0 <= i < t.len() && t[i] == x;
                assert(s[i] == x);
            }
            assert(s[s.len() - 1] == l);
        }
        if pred(l) {
            let ft = t.filter(pred);
            assert(s.filter(pred) == ft.push(l));
            assert(ft.push(l).contains(x) <==> ft.contains(x) || x == l) by {
                if ft.push(l).contains(x) {
                    let i = choose|i: int| 0 <= i < ft.push(l).len() && ft.push(l)[i] == x;
                    if i < ft.len() {
                        assert(ft[i] == x);
                    }
                }
                if ft.contains(x) {
                    let i = choose|i: int| 0 <= i < ft.len() && ft[i] == x;
                    assert(ft.push(l)[i] == x);
                }
                assert(ft.push(l)[ft.len() as int] == l);
            }
        }
    }
}

/// A predicate that holds of every element leaves the sequence unchanged.
pub proof fn lemma_filter_holds_all<A>(s: Seq<A>, pred: spec_fn(A) -> bool)
    requires
        forall|i: int| 0 <= i < s.len() ==> pred(#[trigger] s[i]),
    ensures
        s.filter(pred) == s,
    decreases s.len(),
{
    reveal(Seq::filter);
    if s.len() == 0 {
    } else {
        let t = s.drop_last();
        assert(forall|i: int| 0 <= i < t.len() ==> pred(#[trigger] t[i])) by {
            assert(forall|i: int| 0 <= i < t.len() ==> t[i] == s[i]);
        }
        lemma_filter_holds_all(t, pred);
        assert(pred(s.last()));
        assert(t.push(s.last()) =~= s);
    }
}

/// The closure form of pattern validity.
pub open spec fn valid_pat() -> spec_fn(Seq<char>) -> bool {
    |p: Seq<char>| regex_valid(p)
}

/// The closure form of pattern invalidity.
pub open spec fn invalid_pat() -> spec_fn(Seq<char>) -> bool {
    |p: Seq<char>| !regex_valid(p)
}

/// The pattern texts a list of compiled patterns was compiled from.
pub open spec fn srcs_of(regexes: Seq<CompiledPattern>) -> Seq<Seq<char>> {
    regexes.map_values(|cp: CompiledPattern| cp.src())
}

/// The pattern texts a list of invalid-pattern warnings reports.
pub open spec fn warn_sources(warnings: Seq<Warning>) -> Seq<Seq<char>> {
    warnings.map_values(|w: Warning| w.invalid_pattern_source())
}

/// Compiles every pattern. A pattern that regex syntax rejects becomes a
/// warning and is dropped from the active set; the others are kept, in
/// order. When every pattern is invalid the active set comes out empty.
#[verifier::loop_isolation(false)]
pub fn compile_patterns(patterns: &Vec<String>) -> (r: (Vec<CompiledPattern>, Vec<Warning>))
    ensures
        srcs_of(r.0@) == pattern_views(patterns@).filter(valid_pat()),
        warn_sources(r.1@) == pattern_views(patterns@).filter(invalid_pat()),
        forall|k: int| 0 <= k < r.1@.len() ==> r.1@[k] is InvalidPattern,
{
    let mut regexes: Vec<CompiledPattern> = Vec::new();
    let mut warnings: Vec<Warning> = Vec::new();
    let mut i: usize = 0;
    while i < patterns.len()
        invariant
            i <= patterns.len(),
            srcs_of(regexes@) == pattern_views(patterns@.take(i as int)).filter(valid_pat()),
            warn_sources(warnings@) == pattern_views(patterns@.take(i as int)).filter(
                invalid_pat(),
            ),
            forall|k: int| 0 <= k < warnings@.len() ==> warnings@[k] is InvalidPattern,
        decreases patterns.len() - i,
    {
        proof {
            let prefix = patterns@.take(i as int);
            assert(patterns@.take(i as int + 1) =~= prefix.push(patterns@[i as int]));
            assert(pattern_views(prefix.push(patterns@[i as int])) =~= pattern_views(prefix).push(
                patterns@[i as int]@,
            ));
            lemma_filter_push(pattern_views(prefix), valid_pat(), patterns@[i as int]@);
            lemma_filter_push(pattern_views(prefix), invalid_pat(), patterns@[i as int]@);
        }
        let p = &patterns[i];
        match CompiledPattern::compile(p) {
            Ok(cp) => {
                let ghost prev = regexes@;
                regexes.push(cp);
                proof {
                    assert(srcs_of(regexes@) =~= srcs_of(prev).push(cp.src()));
                }
            },
            Err(message) => {
                let ghost prev = warnings@;
                let w = Warning::InvalidPattern { pattern: p.clone(), message };
                warnings.push(w);
                proof {
                    assert(warn_sources(warnings@) =~= warn_sources(prev).push(
                        w.invalid_pattern_source(),
                    ));
                }
            },
        }
        i = i + 1;
    }
    proof {
        assert(patterns@.take(patterns@.len() as int) =~= patterns@);
    }
    (regexes, warnings)
}

/// Whether `name` matches at least one of the compiled patterns.
fn matches_any(regexes: &Vec<CompiledPattern>, name: &String) -> (r: bool)
    ensures
        r == exists|j: int| 0 <= j < regexes@.len() && regex_match(regexes@[j].src(), name@),
{
    let mut j: usize = 0;
    while j < regexes.len()
        invariant
            j <= regexes.len(),
            forall|k: int| 0 <= k < j ==> !regex_match(regexes@[k].src(), name@),
        decreases regexes.len() - j,
    {
        if regexes[j].is_match(name) {
            assert(regex_match(regexes@[j as int].src(), name@));
            return true;
        }
        j = j + 1;
    }
    false
}

/// The name filter's predicate phrased over compiled pattern texts.
spec fn compiled_pred<'a>(srcs: Seq<Seq<char>>) -> spec_fn(&'a MyFile) -> bool {
    |f: &MyFile| exists|j: int| 0 <= j < srcs.len() && regex_match(srcs[j], f.name@)
}

/// Matching against the compiled survivors of a pattern list is the OR over
/// the patterns of the list that regex syntax accepts.
proof fn lemma_matches_equiv(srcs: Seq<Seq<char>>, views: Seq<Seq<char>>, name: Seq<char>)
    requires
        srcs == views.filter(valid_pat()),
    ensures
        (exists|j: int| 0 <= j < srcs.len() && regex_match(srcs[j], name)) <==> name_matches_any(
            views,
            name,
        ),
{
    if exists|j: int| 0 <= j < srcs.len() && regex_match(srcs[j], name) {
        let j = choose|j: int| 0 <= j < srcs.len() && regex_match(srcs[j], name);
        assert(srcs.contains(srcs[j]));
        lemma_filter_membership(views, valid_pat(), srcs[j]);
        let i = choose|i: int| 0 <= i < views.len() && views[i] == srcs[j];
        assert(regex_valid(views[i]) && regex_match(views[i], name));
    }
    if name_matches_any(views, name) {
        let i = choose|i: int|
            0 <= i < views.len() && regex_valid(views[i]) && regex_match(views[i], name);
        lemma_filter_membership(views, valid_pat(), views[i]);
        assert(views.contains(views[i]));
        assert(valid_pat()(views[i]));
        assert(srcs.contains(views[i]));
        let j = choose|j: int| 0 <= j < srcs.len() && srcs[j] == views[i];
        assert(regex_match(srcs[j], name));
    }
}

/// Keeps the records whose name matches at least one compiled pattern.
#[verifier::loop_isolation(false)]
fn filter_by_compiled<'a>(files: &Vec<&'a MyFile>, regexes: &Vec<CompiledPattern>) -> (r: Vec<
    &'a MyFile,
>)
    ensures
        r@ == files@.filter(compiled_pred(srcs_of(regexes@))),
{
    let ghost srcs = srcs_of(regexes@);
    let mut out: Vec<&'a MyFile> = Vec::new();
    let mut i: usize = 0;
    while i < files.len()
        invariant
            i <= files.len(),
            out@ == files@.take(i as int).filter(compiled_pred(srcs)),
        decreases files.len() - i,
    {
        proof {
            lemma_filter_push(files@.take(i as int), compiled_pred(srcs), files@[i as int]);
            assert(files@.take(i as int + 1) =~= files@.take(i as int).push(files@[i as int]));
        }
        let f = files[i];
        let hit = matches_any(regexes, &f.name);
        proof {
            assert(hit == compiled_pred(srcs)(files@[i as int])) by {
                if exists|j: int|
                    0 <= j < regexes@.len() && regex_match(regexes@[j].src(), f.name@) {
                    let j = choose|j: int|
                        0 <= j < regexes@.len() && regex_match(regexes@[j].src(), f.name@);
                    assert(srcs[j] == regexes@[j].src());
                    assert(regex_match(srcs[j], f.name@));
                }
                if exists|j: int| 0 <= j < srcs.len() && regex_match(srcs[j], f.name@) {
                    let j = choose|j: int| 0 <= j < srcs.len() && regex_match(srcs[j], f.name@);
                    assert(regexes@[j].src() == srcs[j]);
                    assert(regex_match(regexes@[j].src(), f.name@));
                }
            }
        }
        if hit {
            out.push(f);
        }
        i = i + 1;
    }
    proof {
        assert(files@.take(files@.len() as int) =~= files@);
    }
    out
}

/// Keeps the records whose name matches at least one pattern that regex
/// syntax accepts (OR across patterns), in their original order. Patterns
/// that fail to compile are dropped from the active set; when every pattern
/// fails, no record survives.
pub fn filter_files_regex<'a>(files: &Vec<&'a MyFile>, patterns: &Vec<String>) -> (r: Vec<
    &'a MyFile,
>)
    ensures
        r@ == files@.filter(name_pred(pattern_views(patterns@))),
{
    let (regexes, _warnings) = compile_patterns(patterns);
    let out = filter_by_compiled(files, &regexes);
    proof {
        let views = pattern_views(patterns@);
        let srcs = srcs_of(regexes@);
        assert forall|f: &MyFile| #[trigger] compiled_pred(srcs)(f) == name_pred(views)(f) by {
            lemma_matches_equiv(srcs, views, f.name@);
        }
        assert(compiled_pred(srcs) =~= name_pred(views));
    }
    out
}

/// Keeps the records whose size on disk is at least `min_size` (inclusive),
/// in their original order.
pub fn filter_files_size_min<'a>(files: &Vec<&'a MyFile>, min_size: &u64) -> (r: Vec<&'a MyFile>)
    ensures
        r@ == files@.filter(min_size_pred(*min_size)),
{
    let mut out: Vec<&'a MyFile> = Vec::new();
    let mut i: usize = 0;
    while i < files.len()
        invariant
            i <= files.len(),
            out@ == files@.take(i as int).filter(min_size_pred(*min_size)),
        decreases files.len() - i,
    {
        proof {
            lemma_filter_push(files@.take(i as int), min_size_pred(*min_size), files@[i as int]);
            assert(files@.take(i as int + 1) =~= files@.take(i as int).push(files@[i as int]));
        }
        let f = files[i];
        if f.size_bytes >= *min_size {
            out.push(f);
        }
        i = i + 1;
    }
    proof {
        assert(files@.take(files@.len() as int) =~= files@);
    }
    out
}

/// Keeps the records whose size on disk is at most `max_size` (inclusive),
/// in their original order.
pub fn filter_files_size_max<'a>(files: &Vec<&'a MyFile>, max_size: &u64) -> (r: Vec<&'a MyFile>)
    ensures
        r@ == files@.filter(max_size_pred(*max_size)),
{
    let mut out: Vec<&'a MyFile> = Vec::new();
    let mut i: usize = 0;
    while i < files.len()
        invariant
            i <= files.len(),
            out@ == files@.take(i as int).filter(max_size_pred(*max_size)),
        decreases files.len() - i,
    {
        proof {
            lemma_filter_push(files@.take(i as int), max_size_pred(*max_size), files@[i as int]);
            assert(files@.take(i as int + 1) =~= files@.take(i as int).push(files@[i as int]));
        }
        let f = files[i];
        if f.size_bytes <= *max_size {
            out.push(f);
        }
        i = i + 1;
    }
    proof {
        assert(files@.take(files@.len() as int) =~= files@);
    }
    out
}

/// The pattern views of an optional pattern list.
pub open spec fn opt_pattern_views(patterns: Option<Vec<String>>) -> Option<Seq<Seq<char>>> {
    match patterns {
        Some(ps) => Some(pattern_views(ps@)),
        None => None,
    }
}

/// Applies the configured filters in one pass over the enumerated records:
/// a record survives iff it passes every filter that is present, and the
/// survivors keep their original order. Patterns that regex syntax rejects
/// become warnings, in pattern order, and are dropped from the active set.
#[verifier::loop_isolation(false)]
pub fn apply_filters<'a>(
    files: &Vec<&'a MyFile>,
    patterns: &Option<Vec<String>>,
    size_min: &Option<u64>,
    size_max: &Option<u64>,
) -> (r: (Vec<&'a MyFile>, Vec<Warning>))
    ensures
        r.0@ == files@.filter(passes_pred(opt_pattern_views(*patterns), *size_min, *size_max)),
        *patterns is None ==> r.1@ == Seq::<Warning>::empty(),
        *patterns matches Some(ps) ==> warn_sources(r.1@) == pattern_views(ps@).filter(
            invalid_pat(),
        ),
        forall|k: int| 0 <= k < r.1@.len() ==> r.1@[k] is InvalidPattern,
{
    let ghost gpred = passes_pred(opt_pattern_views(*patterns), *size_min, *size_max);
    let (regexes_opt, warnings): (Option<Vec<CompiledPattern>>, Vec<Warning>) = match patterns {
        None => (None, Vec::new()),
        Some(ps) => {
            let (regexes, warns) = compile_patterns(ps);
            (Some(regexes), warns)
        },
    };
    let mut out: Vec<&'a MyFile> = Vec::new();
    let mut i: usize = 0;
    while i < files.len()
        invariant
            i <= files.len(),
            out@ == files@.take(i as int).filter(gpred),
            regexes_opt is Some <==> *patterns is Some,
            regexes_opt matches Some(rs) ==> srcs_of(rs@) == pattern_views(
                (*patterns)->0@,
            ).filter(valid_pat()),
        decreases files.len() - i,
    {
        proof {
            lemma_filter_push(files@.take(i as int), gpred, files@[i as int]);
            assert(files@.take(i as int + 1) =~= files@.take(i as int).push(files@[i as int]));
        }
        let f = files[i];
        let name_ok = match &regexes_opt {
            None => true,
            Some(rs) => matches_any(rs, &f.name),
        };
        proof {
            if regexes_opt is Some {
                let rs = regexes_opt->0;
                let views = pattern_views((*patterns)->0@);
                let srcs = srcs_of(rs@);
                assert(name_ok == (exists|j: int|
                    0 <= j < rs@.len() && regex_match(rs@[j].src(), f.name@)));
                assert((exists|j: int| 0 <= j < rs@.len() && regex_match(rs@[j].src(), f.name@))
                    == (exists|j: int| 0 <= j < srcs.len() && regex_match(srcs[j], f.name@))) by {
                    if exists|j: int| 0 <= j < rs@.len() && regex_match(rs@[j].src(), f.name@) {
                        let j = choose|j: int|
                            0 <= j < rs@.len() && regex_match(rs@[j].src(), f.name@);
                        assert(regex_match(srcs[j], f.name@));
                    }
                    if exists|j: int| 0 <= j < srcs.len() && regex_match(srcs[j], f.name@) {
                        let j = choose|j: int| 0 <= j < srcs.len() && regex_match(srcs[j], f.name@);
                        assert(regex_match(rs@[j].src(), f.name@));
                    }
                }
                lemma_matches_equiv(srcs, views, f.name@);
                assert(name_ok == name_matches_any(views, f.name@));
            }
        }
        let min_ok = match size_min {
            None => true,
            Some(m) => f.size_bytes >= *m,
        };
        let max_ok = match size_max {
            None => true,
            Some(m) => f.size_bytes <= *m,
        };
        assert((name_ok && min_ok && max_ok) == gpred(files@[i as int]));
        if name_ok && min_ok && max_ok {
            out.push(f);
        }
        i = i + 1;
    }
    proof {
        assert(files@.take(files@.len() as int) =~= files@);
    }
    (out, warnings)
}

/// A record stands in the output of the filter chain iff it stands in the
/// input and passes every configured filter.
pub proof fn lemma_filter_chain_membership(
    files: Seq<&MyFile>,
    patterns: Option<Seq<Seq<char>>>,
    size_min: Option<u64>,
    size_max: Option<u64>,
    f: &MyFile,
)
    ensures
        files.filter(passes_pred(patterns, size_min, size_max)).contains(f) <==> files.contains(f)
            && passes_filters(patterns, size_min, size_max, *f),
{
    lemma_filter_membership(files, passes_pred(patterns, size_min, size_max), f);
}

/// The size bounds are inclusive: a record whose size lies strictly outside
/// the configured interval never stands in the chain's output, while one at
/// or within the bounds that is enumerated and passes the name filter
/// always does.
pub proof fn lemma_size_bounds_inclusive(
    files: Seq<&MyFile>,
    patterns: Option<Seq<Seq<char>>>,
    size_min: u64,
    size_max: u64,
    f: &MyFile,
)
    ensures
        f.size_bytes < size_min || f.size_bytes > size_max ==> !files.filter(
            passes_pred(patterns, Some(size_min), Some(size_max)),
        ).contains(f),
        files.contains(f) && passes_filters(patterns, None, None, *f) && size_min <= f.size_bytes
            <= size_max ==> files.filter(
            passes_pred(patterns, Some(size_min), Some(size_max)),
        ).contains(f),
{
    lemma_filter_chain_membership(files, patterns, Some(size_min), Some(size_max), f);
}

/// OR semantics of the name filter: a record stands in its output iff it is
/// enumerated and its name matches at least one pattern that regex syntax
/// accepts; a record matching no such pattern never does.
pub proof fn lemma_name_filter_or_semantics(files: Seq<&MyFile>, patterns: Seq<Seq<char>>, f: &MyFile)
    ensures
        files.filter(name_pred(patterns)).contains(f) <==> files.contains(f) && (exists|i: int|
            0 <= i < patterns.len() && regex_valid(patterns[i]) && regex_match(
                patterns[i],
                f.name@,
            )),
{
    lemma_filter_membership(files, name_pred(patterns), f);
}

/// When every pattern is invalid the name filter rejects every record.
pub proof fn lemma_all_patterns_invalid_rejects_all(files: Seq<&MyFile>, patterns: Seq<Seq<char>>)
    requires
        forall|i: int| 0 <= i < patterns.len() ==> !regex_valid(#[trigger] patterns[i]),
    ensures
        files.filter(name_pred(patterns)).len() == 0,
{
    let out = files.filter(name_pred(patterns));
    if out.len() > 0 {
        lemma_filter_membership(files, name_pred(patterns), out[0]);
        assert(out.contains(out[0]));
        assert(name_matches_any(patterns, out[0].name@));
    }
}

/// A chain with no configured filter at all returns exactly its input,
/// unchanged in order and count.
pub proof fn lemma_no_filters_is_identity(files: Seq<&MyFile>)
    ensures
        files.filter(passes_pred(None, None, None)) == files,
{
    assert(forall|i: int|
        0 <= i < files.len() ==> passes_pred(None, None, None)(#[trigger] files[i]));
    lemma_filter_holds_all(files, passes_pred(None, None, None));
}

} // verus!

