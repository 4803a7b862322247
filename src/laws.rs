use vstd::prelude::*;
use crate::grammar::{
    descriptors_from, escape, field_end, is_local, local_marker, placeholder, split_field,
    symbol_of, unescape,
};
use crate::symbol::{PackageModel, SymbolModel};

verus! {

/// How a package field is written: `.` when absent, else with each space doubled.
pub open spec fn field_text(f: Option<Seq<char>>) -> Seq<char> {
    match f {
        Some(v) => escape(v),
        None => seq!['.'],
    }
}

/// A global symbol's text: its four header fields, each followed by one space,
/// then its descriptor chain.
pub open spec fn global_text(
    scheme: Seq<char>,
    package: PackageModel,
    chain: Seq<char>,
) -> Seq<char> {
    escape(scheme) + seq![' '] + field_text(package.manager) + seq![' '] + field_text(
        package.name,
    ) + seq![' '] + field_text(package.version) + seq![' '] + chain
}

/// A package field that can be written unambiguously after a delimiter: not
/// the placeholder itself, not empty, and not starting with a space.
pub open spec fn writable_field(f: Option<Seq<char>>) -> bool {
    match f {
        Some(v) => v != seq!['.'] && v.len() > 0 && v[0] != ' ',
        None => true,
    }
}

proof fn lemma_unescape_escape(f: Seq<char>)
    ensures
        unescape(escape(f)) == f,
    decreases f.len(),
{
    if f.len() > 0 {
        lemma_unescape_escape(f.skip(1));
        let e = escape(f);
        if f[0] == ' ' {
            assert(e.skip(2) =~= escape(f.skip(1)));
        } else {
            assert(e.skip(1) =~= escape(f.skip(1)));
        }
        assert(f =~= seq![f[0]] + f.skip(1));
    }
}

proof fn lemma_field_end_escape(f: Seq<char>, t: Seq<char>)
    requires
        t.len() == 0 || t[0] != ' ',
    ensures
        field_end(escape(f) + seq![' '] + t) == escape(f).len(),
    decreases f.len(),
{
    let u = escape(f) + seq![' '] + t;
    if f.len() > 0 {
        lemma_field_end_escape(f.skip(1), t);
        if f[0] == ' ' {
            assert(u.skip(2) =~= escape(f.skip(1)) + seq![' '] + t);
        } else {
            assert(u.skip(1) =~= escape(f.skip(1)) + seq![' '] + t);
        }
    } else {
        assert(u =~= seq![' '] + t);
    }
}

proof fn lemma_escape_first(f: Seq<char>)
    requires
        f.len() > 0,
    ensures
        escape(f).len() > 0,
        escape(f)[0] == f[0],
{
}

/// A field written with its spaces doubled and followed by one space splits
/// back into the field and what follows, if that does not start with a space.
proof fn lemma_split_escaped(f: Seq<char>, t: Seq<char>)
    requires
        t.len() == 0 || t[0] != ' ',
    ensures
        split_field(escape(f) + seq![' '] + t) == (f, t),
{
    let u = escape(f) + seq![' '] + t;
    lemma_field_end_escape(f, t);
    lemma_unescape_escape(f);
    assert(u.take(escape(f).len() as int) =~= escape(f));
    assert(u.skip((escape(f).len() + 1) as int) =~= t);
}

proof fn lemma_split_field_text(f: Option<Seq<char>>, t: Seq<char>)
    requires
        t.len() == 0 || t[0] != ' ',
    ensures
        split_field(field_text(f) + seq![' '] + t).1 == t,
        split_field(field_text(f) + seq![' '] + t).0 == match f {
            Some(v) => v,
            None => seq!['.'],
        },
{
    match f {
        Some(v) => lemma_split_escaped(v, t),
        None => {
            let dot = seq!['.'];
            assert(escape(dot.skip(1)) == Seq::<char>::empty());
            assert(escape(dot) =~= dot);
            lemma_split_escaped(dot, t);
        },
    }
}

/// A text that starts with `local` and one space is a local symbol whose
/// identifier is the rest of the text, unchanged.
pub proof fn lemma_local_symbol(s: Seq<char>)
    requires
        s.len() >= 6,
        s.take(6) == local_marker(),
    ensures
        symbol_of(s) == (SymbolModel::Local { id: s.skip(6) }),
{
}

/// Writing a global symbol's header (each field with its spaces doubled, an
/// absent package field as `.`) and parsing the text gives back the scheme and
/// the package; the descriptors are those of the chain written after it.
#[verifier::rlimit(60)]
pub proof fn lemma_header_round_trip(scheme: Seq<char>, package: PackageModel, chain: Seq<char>)
    requires
        writable_field(package.manager),
        writable_field(package.name),
        writable_field(package.version),
        chain.len() == 0 || chain[0] != ' ',
        !is_local(global_text(scheme, package, chain)),
    ensures
        symbol_of(global_text(scheme, package, chain)) == (SymbolModel::Global {
            scheme,
            package,
            descriptors: descriptors_from(chain, 0),
        }),
{
    let text = global_text(scheme, package, chain);
    let t3 = field_text(package.version) + seq![' '] + chain;
    let t2 = field_text(package.name) + seq![' '] + t3;
    let t1 = field_text(package.manager) + seq![' '] + t2;
    assert(text =~= escape(scheme) + seq![' '] + t1);
    lemma_field_text_first(package.version, chain);
    lemma_field_text_first(package.name, t3);
    lemma_field_text_first(package.manager, t2);
    lemma_split_escaped(scheme, t1);
    lemma_split_field_text(package.manager, t2);
    lemma_split_field_text(package.name, t3);
    lemma_split_field_text(package.version, chain);
    assert(split_field(text) == (scheme, t1));
    let ghost manager = split_field(t1).0;
    let ghost name = split_field(t2).0;
    let ghost version = split_field(t3).0;
    assert(placeholder(manager) == package.manager);
    assert(placeholder(name) == package.name);
    assert(placeholder(version) == package.version);
}

proof fn lemma_field_text_first(f: Option<Seq<char>>, t: Seq<char>)
    requires
        writable_field(f),
    ensures
        (field_text(f) + seq![' '] + t)[0] != ' ',
{
    if let Some(v) = f {
        lemma_escape_first(v);
    }
}

proof fn lemma_field_end_no_space(s: Seq<char>)
    requires
        forall|i: int| 0 <= i < s.len() ==> s[i] != ' ',
    ensures
        field_end(s) == s.len(),
    decreases s.len(),
{
    if s.len() > 0 {
        lemma_field_end_no_space(s.skip(1));
    }
}

/// A text without any space, such as a mangled name, is a global symbol whose
/// scheme is the whole text, with empty package fields and no descriptor.
pub proof fn lemma_no_space_symbol(s: Seq<char>)
    requires
        forall|i: int| 0 <= i < s.len() ==> s[i] != ' ',
    ensures
        symbol_of(s) == (SymbolModel::Global {
            scheme: s,
            package: PackageModel {
                manager: Some(Seq::empty()),
                name: Some(Seq::empty()),
                version: Some(Seq::empty()),
            },
            descriptors: Seq::empty(),
        }),
{
    lemma_field_end_no_space(s);
    if s.len() >= 6 {
        assert(s.take(6)[5] == s[5]);
    }
    let e = Seq::<char>::empty();
    assert(field_end(e) == 0);
    assert(split_field(e) == (e, e));
    assert(e != seq!['.']) by {
        assert(seq!['.'].len() == 1);
    }
}

} // verus!
