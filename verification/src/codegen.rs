//! The parts of code generation from lexicons that compute: which lexicons define
//! records and XRPC methods, where the code of a lexicon goes, and the text of a
//! generated file.

use heck::ToSnakeCase;
use itertools::Itertools;
use vstd::prelude::*;
use vstd::string::*;
use vstd::utf8::*;
use crate::oauth::pairs_view;
use crate::text::strings_view;

verus! {

/// The line that every generated file starts with.
pub const HEADER: &'static str = "// This file is generated by atrium-codegen. DO NOT EDIT.";

/// The kinds of definition that a lexicon holds.
pub enum LexUserTypeKind {
    Record,
    XrpcQuery,
    XrpcProcedure,
    XrpcSubscription,
    Blob,
    Array,
    Token,
    Object,
    Boolean,
    Integer,
    String,
    Bytes,
    CidLink,
    Unknown,
}

/// What code generation reads of a lexicon document: its ID, the kind of its `main`
/// definition, and its description.
pub struct LexiconDoc {
    pub id: String,
    pub main: Option<LexUserTypeKind>,
    pub description: Option<String>,
}

/// Whether `a` comes no later than `b` in the order of their bytes.
pub open spec fn bytes_le(a: Seq<u8>, b: Seq<u8>) -> bool
    decreases a.len(),
{
    if a.len() == 0 {
        true
    } else if b.len() == 0 {
        false
    } else if a[0] != b[0] {
        a[0] < b[0]
    } else {
        bytes_le(a.drop_first(), b.drop_first())
    }
}

/// Whether a list of texts is in the order of their bytes.
pub open spec fn is_sorted_text(s: Seq<Seq<char>>) -> bool {
    forall|i: int, j: int| 0 <= i < j < s.len() ==> bytes_le(encode_utf8(s[i]), encode_utf8(s[j]))
}

/// `Itertools::sorted` on strings: the same strings, in the order of `String`, which
/// orders strings by their bytes.
#[verifier::external_body]
fn sorted_strings(items: Vec<String>) -> (r: Vec<String>)
    ensures
        strings_view(r@).to_multiset() == strings_view(items@).to_multiset(),
        is_sorted_text(strings_view(r@)),
{
    items.into_iter().sorted().collect()
}

/// The snake-case form that `heck` gives `s`.
pub uninterp spec fn snake_case(s: Seq<char>) -> Seq<char>;

/// `heck::ToSnakeCase::to_snake_case`: the contract names its result, which depends on
/// `s` alone.
#[verifier::external_body]
fn to_snake_case(s: &str) -> (r: String)
    ensures
        r@ == snake_case(s@),
{
    s.to_snake_case()
}

/// The IDs of the lexicons whose `main` definition satisfies `pred`, in order.
pub open spec fn ids_where(schemas: Seq<LexiconDoc>, pred: spec_fn(Option<LexUserTypeKind>) -> bool) -> Seq<Seq<char>>
    decreases schemas.len(),
{
    if schemas.len() == 0 {
        Seq::empty()
    } else {
        let rest = ids_where(schemas.drop_last(), pred);
        if pred(schemas.last().main) {
            rest.push(schemas.last().id@)
        } else {
            rest
        }
    }
}

/// Whether a `main` definition is a record.
pub open spec fn is_record(main: Option<LexUserTypeKind>) -> bool {
    main matches Some(LexUserTypeKind::Record)
}

/// Whether a `main` definition is an XRPC query or procedure.
pub open spec fn is_xrpc_method(main: Option<LexUserTypeKind>) -> bool {
    main matches Some(LexUserTypeKind::XrpcQuery) || main matches Some(LexUserTypeKind::XrpcProcedure)
}

fn main_is_record(main: &Option<LexUserTypeKind>) -> (r: bool)
    ensures
        r == is_record(*main),
{
    match main {
        Some(LexUserTypeKind::Record) => true,
        _ => false,
    }
}

fn main_is_xrpc_method(main: &Option<LexUserTypeKind>) -> (r: bool)
    ensures
        r == is_xrpc_method(*main),
{
    match main {
        Some(LexUserTypeKind::XrpcQuery) => true,
        Some(LexUserTypeKind::XrpcProcedure) => true,
        _ => false,
    }
}

/// The IDs of the lexicons that define records, in the order of their bytes.
pub fn record_ids(schemas: &Vec<LexiconDoc>) -> (r: Vec<String>)
    ensures
        strings_view(r@).to_multiset() == ids_where(schemas@, |m| is_record(m)).to_multiset(),
        is_sorted_text(strings_view(r@)),
{
    let mut ids: Vec<String> = Vec::new();
    let mut i: usize = 0;
    while i < schemas.len()
        invariant
            i <= schemas@.len(),
            strings_view(ids@) == ids_where(schemas@.take(i as int), |m| is_record(m)),
        decreases schemas@.len() - i,
    {
        proof {
            assert(schemas@.take(i + 1).drop_last() =~= schemas@.take(i as int));
        }
        if main_is_record(&schemas[i].main) {
            ids.push(schemas[i].id.clone());
            assert(strings_view(ids@) =~= ids_where(schemas@.take(i as int), |m| is_record(m)).push(
                schemas@[i as int].id@,
            ));
        }
        i = i + 1;
    }
    assert(schemas@.take(schemas@.len() as int) =~= schemas@);
    sorted_strings(ids)
}

/// The IDs of the lexicons that define XRPC queries or procedures, in the order of
/// their bytes.
pub fn xrpc_ids(schemas: &Vec<LexiconDoc>) -> (r: Vec<String>)
    ensures
        strings_view(r@).to_multiset() == ids_where(schemas@, |m| is_xrpc_method(m)).to_multiset(),
        is_sorted_text(strings_view(r@)),
{
    let mut ids: Vec<String> = Vec::new();
    let mut i: usize = 0;
    while i < schemas.len()
        invariant
            i <= schemas@.len(),
            strings_view(ids@) == ids_where(schemas@.take(i as int), |m| is_xrpc_method(m)),
        decreases schemas@.len() - i,
    {
        proof {
            assert(schemas@.take(i + 1).drop_last() =~= schemas@.take(i as int));
        }
        if main_is_xrpc_method(&schemas[i].main) {
            ids.push(schemas[i].id.clone());
            assert(strings_view(ids@) =~= ids_where(
                schemas@.take(i as int),
                |m| is_xrpc_method(m),
            ).push(schemas@[i as int].id@));
        }
        i = i + 1;
    }
    assert(schemas@.take(schemas@.len() as int) =~= schemas@);
    sorted_strings(ids)
}

/// The names of the modules of a directory, from the stems of its files: the same names,
/// in the order of their bytes.
pub fn module_names(stems: Vec<String>) -> (r: Vec<String>)
    ensures
        strings_view(r@).to_multiset() == strings_view(stems@).to_multiset(),
        is_sorted_text(strings_view(r@)),
{
    sorted_strings(stems)
}

/// The name of the definition that a lexicon is named after.
pub open spec fn main_def() -> Seq<char> {
    "main"@
}

/// The order in which the definitions of a lexicon are generated: `main` first, then the
/// others in the order of their bytes.
pub fn def_order(names: Vec<String>) -> (r: Vec<String>)
    ensures
        strings_view(r@).to_multiset() == strings_view(names@).to_multiset(),
        ({
            let k = strings_view(names@).to_multiset().count(main_def());
            &&& forall|i: int| 0 <= i < k ==> #[trigger] r@[i]@ == main_def()
            &&& forall|i: int| k <= i < r@.len() ==> #[trigger] r@[i]@ != main_def()
            &&& is_sorted_text(strings_view(r@).skip(k as int))
        }),
{
    broadcast use vstd::seq_lib::group_to_multiset_ensures, vstd::multiset::group_multiset_axioms;
    let main = String::from_str("main");
    proof {
        reveal_strlit("main");
    }
    let mut mains: Vec<String> = Vec::new();
    let mut others: Vec<String> = Vec::new();
    let mut i: usize = 0;
    while i < names.len()
        invariant
            i <= names@.len(),
            main@ == main_def(),
            strings_view(mains@).to_multiset().add(strings_view(others@).to_multiset())
                == strings_view(names@.take(i as int)).to_multiset(),
            forall|j: int| 0 <= j < mains@.len() ==> #[trigger] mains@[j]@ == main_def(),
            forall|j: int| 0 <= j < others@.len() ==> #[trigger] others@[j]@ != main_def(),
            strings_view(mains@).to_multiset().count(main_def()) == mains@.len(),
            strings_view(others@).to_multiset().count(main_def()) == 0,
        decreases names@.len() - i,
    {
        proof {
            assert(strings_view(names@.take(i + 1)) =~= strings_view(names@.take(i as int)).push(
                names@[i as int]@,
            ));
        }
        let name = names[i].clone();
        let ghost nv = name@;
        let ghost before_mains = strings_view(mains@);
        let ghost before_others = strings_view(others@);
        if name == main {
            mains.push(name);
            proof {
                assert(strings_view(mains@) =~= before_mains.push(nv));
                before_mains.to_multiset_ensures();
            }
        } else {
            others.push(name);
            proof {
                assert(strings_view(others@) =~= before_others.push(nv));
                before_others.to_multiset_ensures();
            }
        }
        proof {
            strings_view(names@.take(i as int)).to_multiset_ensures();
        }
        i = i + 1;
    }
    proof {
        assert(names@.take(names@.len() as int) =~= names@);
    }
    let ghost mains_view = strings_view(mains@);
    let mut sorted = sorted_strings(others);
    let ghost sorted_view = strings_view(sorted@);
    let mut r = mains;
    r.append(&mut sorted);
    proof {
        assert(strings_view(r@) =~= mains_view + sorted_view);
        vstd::seq_lib::lemma_multiset_commutative(mains_view, sorted_view);
        assert(strings_view(r@).skip(mains_view.len() as int) =~= sorted_view);
        assert forall|j: int| 0 <= j < sorted_view.len() implies sorted_view[j] != main_def() by {
            if sorted_view[j] == main_def() {
                assert(sorted_view.contains(main_def()));
            }
        }
        assert forall|i: int| mains_view.len() <= i < r@.len() implies #[trigger] r@[i]@ != main_def() by {
            assert(r@[i]@ == strings_view(r@)[i]);
            assert(strings_view(r@)[i] == sorted_view[i - mains_view.len()]);
        }
        assert forall|i: int| 0 <= i < mains_view.len() implies #[trigger] r@[i]@ == main_def() by {
            assert(r@[i]@ == strings_view(r@)[i]);
            assert(strings_view(r@)[i] == mains_view[i]);
        }
    }
    r
}

/// Whether `pairs` are in the order of the bytes of their first parts.
pub open spec fn is_sorted_by_name(pairs: Seq<(Seq<char>, Seq<char>)>) -> bool {
    forall|i: int, j: int| 0 <= i < j < pairs.len() ==> bytes_le(encode_utf8(pairs[i].0), encode_utf8(pairs[j].0))
}

/// `Itertools::sorted` on pairs of strings: the same pairs, in the order of the tuples,
/// which orders them first by the bytes of their first parts.
#[verifier::external_body]
fn sorted_pairs(items: Vec<(String, String)>) -> (r: Vec<(String, String)>)
    ensures
        pairs_view(r@).to_multiset() == pairs_view(items@).to_multiset(),
        is_sorted_by_name(pairs_view(r@)),
{
    items.into_iter().sorted().collect()
}

/// The texts of `parts` one after another.
pub open spec fn concat(parts: Seq<Seq<char>>) -> Seq<char>
    decreases parts.len(),
{
    if parts.len() == 0 {
        Seq::empty()
    } else {
        concat(parts.drop_last()) + parts.last()
    }
}

/// The codes of named definitions, in order.
pub open spec fn codes(defs: Seq<(Seq<char>, Seq<char>)>) -> Seq<Seq<char>> {
    Seq::new(defs.len(), |i: int| defs[i].1)
}

/// Whether `ordered` is an order of generation of the named definitions: those named
/// `main` first, then the others in the order of their names.
pub open spec fn is_generation_order(ordered: Seq<(Seq<char>, Seq<char>)>) -> bool {
    exists|k: int|
        0 <= k <= ordered.len() && (forall|i: int| 0 <= i < k ==> #[trigger] ordered[i].0 == main_def())
            && (forall|i: int| k <= i < ordered.len() ==> #[trigger] ordered[i].0 != main_def())
            && is_sorted_by_name(ordered.skip(k))
}

/// The content of the code of a lexicon, from the code of each of its definitions by
/// name: the documentation, then the code of the `main` definition, then that of the
/// others in the order of their names, then the code of its ref unions.
#[verifier::loop_isolation(false)]
pub fn schema_content(documentation: &str, defs: Vec<(String, String)>, ref_unions: &str) -> (r: String)
    ensures
        exists|ordered: Seq<(Seq<char>, Seq<char>)>|
            #![trigger is_generation_order(ordered)]
            ordered.to_multiset() == pairs_view(defs@).to_multiset() && is_generation_order(ordered)
                && r@ == documentation@ + concat(codes(ordered)) + ref_unions@,
{
    broadcast use vstd::seq_lib::group_to_multiset_ensures, vstd::multiset::group_multiset_axioms;
    let main = String::from_str("main");
    proof {
        reveal_strlit("main");
    }
    let mut mains: Vec<(String, String)> = Vec::new();
    let mut others: Vec<(String, String)> = Vec::new();
    let mut i: usize = 0;
    while i < defs.len()
        invariant
            i <= defs@.len(),
            main@ == main_def(),
            pairs_view(mains@).to_multiset().add(pairs_view(others@).to_multiset())
                == pairs_view(defs@.take(i as int)).to_multiset(),
            forall|j: int| 0 <= j < mains@.len() ==> #[trigger] mains@[j].0@ == main_def(),
            forall|j: int| 0 <= j < others@.len() ==> #[trigger] others@[j].0@ != main_def(),
        decreases defs@.len() - i,
    {
        proof {
            assert(pairs_view(defs@.take(i + 1)) =~= pairs_view(defs@.take(i as int)).push(
                (defs@[i as int].0@, defs@[i as int].1@),
            ));
        }
        let name = defs[i].0.clone();
        let code = defs[i].1.clone();
        let ghost pv = (name@, code@);
        let ghost before_mains = pairs_view(mains@);
        let ghost before_others = pairs_view(others@);
        if name == main {
            mains.push((name, code));
            proof {
                assert(pairs_view(mains@) =~= before_mains.push(pv));
                before_mains.to_multiset_ensures();
            }
        } else {
            others.push((name, code));
            proof {
                assert(pairs_view(others@) =~= before_others.push(pv));
                before_others.to_multiset_ensures();
            }
        }
        proof {
            pairs_view(defs@.take(i as int)).to_multiset_ensures();
        }
        i = i + 1;
    }
    proof {
        assert(defs@.take(defs@.len() as int) =~= defs@);
    }
    let ghost mains_view = pairs_view(mains@);
    let ghost others_view = pairs_view(others@);
    let sorted = sorted_pairs(others);
    let ghost sorted_view = pairs_view(sorted@);
    let ghost ordered = mains_view + sorted_view;
    let mut text = String::from_str(documentation);
    let mut j: usize = 0;
    while j < mains.len()
        invariant
            j <= mains@.len(),
            text@ == documentation@ + concat(codes(ordered).take(j as int)),
            mains_view == pairs_view(mains@),
            ordered == mains_view + sorted_view,
        decreases mains@.len() - j,
    {
        proof {
            assert(codes(ordered).take(j + 1).drop_last() =~= codes(ordered).take(j as int));
            assert(codes(ordered)[j as int] == mains@[j as int].1@);
        }
        text.append(mains[j].1.as_str());
        j = j + 1;
    }
    let mut k: usize = 0;
    while k < sorted.len()
        invariant
            k <= sorted@.len(),
            text@ == documentation@ + concat(codes(ordered).take(mains_view.len() + k)),
            sorted_view == pairs_view(sorted@),
            mains_view.len() == mains@.len(),
            ordered == mains_view + sorted_view,
        decreases sorted@.len() - k,
    {
        proof {
            let n = mains_view.len() + k;
            assert(codes(ordered).take(n + 1).drop_last() =~= codes(ordered).take(n as int));
            assert(codes(ordered)[n as int] == sorted@[k as int].1@);
        }
        text.append(sorted[k].1.as_str());
        k = k + 1;
    }
    text.append(ref_unions);
    proof {
        assert(codes(ordered).take(ordered.len() as int) =~= codes(ordered));
        vstd::seq_lib::lemma_multiset_commutative(mains_view, sorted_view);
        assert(ordered.skip(mains_view.len() as int) =~= sorted_view);
        assert forall|t: int| 0 <= t < sorted_view.len() implies sorted_view[t].0 != main_def() by {
            if sorted_view[t].0 == main_def() {
                assert(sorted_view.contains(sorted_view[t]));
                assert(others_view.to_multiset().count(sorted_view[t]) > 0);
                assert(others_view.contains(sorted_view[t]));
                let u = choose|u: int| 0 <= u < others_view.len() && others_view[u] == sorted_view[t];
                assert(others@[u].0@ != main_def());
            }
        }
        assert(forall|t: int| 0 <= t < mains_view.len() ==> #[trigger] ordered[t].0 == main_def());
        assert(forall|t: int| mains_view.len() <= t < ordered.len() ==> #[trigger] ordered[t].0 != main_def()
            ) by {
            assert forall|t: int| mains_view.len() <= t < ordered.len() implies #[trigger] ordered[t].0 != main_def() by {
                assert(ordered[t] == sorted_view[t - mains_view.len()]);
            }
        }
        assert(is_generation_order(ordered));
    }
    text
}

/// The position of the last `.` in `s`, or -1 where there is none.
pub open spec fn last_dot(s: Seq<char>) -> int
    decreases s.len(),
{
    if s.len() == 0 {
        -1
    } else if s.last() == '.' {
        s.len() - 1
    } else {
        last_dot(s.drop_last())
    }
}

/// `s` with each `.` made a `/`.
pub open spec fn dots_to_slashes(s: Seq<char>) -> Seq<char> {
    Seq::new(s.len(), |i: int| if s[i] == '.' { '/' } else { s[i] })
}

/// The directory of the code of lexicon `id`, relative to the output directory: the
/// segments of the ID before the last, joined by `/`.
pub open spec fn schema_dir(id: Seq<char>) -> Seq<char> {
    dots_to_slashes(id.take(if last_dot(id) < 0 { 0 } else { last_dot(id) }))
}

/// The last segment of the ID of lexicon `id`.
pub open spec fn schema_basename(id: Seq<char>) -> Seq<char> {
    id.skip(last_dot(id) + 1)
}

/// The name of the file of the code of lexicon `id`: its last segment in snake case, with
/// extension `rs`, unless that is empty.
pub open spec fn schema_filename(id: Seq<char>) -> Seq<char> {
    let snake = snake_case(schema_basename(id));
    if snake.len() == 0 {
        snake
    } else {
        snake + ".rs"@
    }
}

proof fn lemma_last_dot(s: Seq<char>)
    ensures
        -1 <= last_dot(s) < s.len(),
        last_dot(s) >= 0 ==> s[last_dot(s)] == '.',
        forall|i: int| last_dot(s) < i < s.len() ==> s[i] != '.',
    decreases s.len(),
{
    if s.len() > 0 && s.last() != '.' {
        lemma_last_dot(s.drop_last());
        assert forall|i: int| last_dot(s) < i < s.len() implies s[i] != '.' by {
            if i < s.len() - 1 {
                assert(s.drop_last()[i] == s[i]);
            }
        }
    }
}

/// Where the code of lexicon `id` goes: its directory relative to the output directory,
/// and its file name.
pub fn schema_location(id: &str) -> (r: (String, String))
    ensures
        r.0@ == schema_dir(id@),
        r.1@ == schema_filename(id@),
{
    let cs = crate::text::chars_of(id);
    let n = cs.len();
    let mut k: usize = n;
    while k > 0 && cs[k - 1] != '.'
        invariant
            k <= n,
            n == cs@.len(),
            forall|i: int| k <= i < n ==> cs@[i] != '.',
        decreases k,
    {
        k = k - 1;
    }
    proof {
        lemma_last_dot(cs@);
        if k == 0 {
            assert(last_dot(cs@) < 0);
        } else {
            assert(last_dot(cs@) == k - 1);
        }
    }
    let dir_end: usize = if k == 0 { 0 } else { k - 1 };
    let mut dir = String::new();
    let mut i: usize = 0;
    while i < dir_end
        invariant
            dir_end <= n,
            n == cs@.len(),
            i <= dir_end,
            dir@ == dots_to_slashes(cs@.take(dir_end as int)).take(i as int),
        decreases dir_end - i,
    {
        let c = cs[i];
        proof { reveal_strlit("/"); }
        if c == '.' {
            dir.append("/");
        } else {
            dir.push(c);
        }
        assert(dots_to_slashes(cs@.take(dir_end as int)).take(i + 1) =~= dots_to_slashes(
            cs@.take(dir_end as int),
        ).take(i as int).push(if c == '.' { '/' } else { c }));
        i = i + 1;
    }
    assert(dots_to_slashes(cs@.take(dir_end as int)).take(dir_end as int) =~= dots_to_slashes(
        cs@.take(dir_end as int),
    ));
    let base = id.substring_char(k, n);
    assert(base@ =~= schema_basename(id@));
    let snake = to_snake_case(base);
    let filename = if snake.as_str().unicode_len() == 0 {
        snake
    } else {
        let mut f = snake;
        f.append(".rs");
        f
    };
    (dir, filename)
}

/// The doc line of the code of lexicon `id`.
pub fn schema_documentation(id: &str) -> (r: String)
    ensures
        r@ == "Definitions for the `"@ + id@ + "` namespace."@,
{
    let mut doc = String::from_str("Definitions for the `");
    doc.append(id);
    doc.append("` namespace.");
    doc
}

/// The text of a generated file with `content`: the header line, then the content, each
/// ended by a newline.
pub fn generated_file_text(content: &str) -> (r: String)
    ensures
        r@ == HEADER@ + "\n"@ + content@ + "\n"@,
{
    let mut text = String::from_str(HEADER);
    text.append("\n");
    text.append(content);
    text.append("\n");
    text
}

} // verus!
