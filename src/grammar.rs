use vstd::prelude::*;
use crate::symbol::{DescriptorKindModel, DescriptorModel, PackageModel, SymbolModel};

verus! {

/// The marker that opens a local symbol: `local` and one space.
pub open spec fn local_marker() -> Seq<char> {
    seq!['l', 'o', 'c', 'a', 'l', ' ']
}

/// Whether `s` names a local binding: it starts with the word `local` and one space.
pub open spec fn is_local(s: Seq<char>) -> bool {
    s.len() >= 6 && s.take(6) == local_marker()
}

/// Length of the raw span of the header field at the start of `s`: it ends at
/// the first space that is not part of a doubled space, or at the end of `s`.
pub open spec fn field_end(s: Seq<char>) -> nat
    decreases s.len(),
{
    if s.len() == 0 {
        0
    } else if s[0] == ' ' {
        if s.len() > 1 && s[1] == ' ' {
            2 + field_end(s.skip(2))
        } else {
            0
        }
    } else {
        1 + field_end(s.skip(1))
    }
}

/// `s` with each doubled space, read left to right, replaced by one space.
pub open spec fn unescape(s: Seq<char>) -> Seq<char>
    decreases s.len(),
{
    if s.len() == 0 {
        seq![]
    } else if s.len() > 1 && s[0] == ' ' && s[1] == ' ' {
        seq![' '] + unescape(s.skip(2))
    } else {
        seq![s[0]] + unescape(s.skip(1))
    }
}

/// `s` with each space doubled: how a header field is written.
pub open spec fn escape(s: Seq<char>) -> Seq<char>
    decreases s.len(),
{
    if s.len() == 0 {
        seq![]
    } else if s[0] == ' ' {
        seq![' ', ' '] + escape(s.skip(1))
    } else {
        seq![s[0]] + escape(s.skip(1))
    }
}

/// The header field at the start of `s` and what follows its delimiter. Without
/// a delimiter the whole of `s` is the field, taken as it is, and nothing follows.
pub open spec fn split_field(s: Seq<char>) -> (Seq<char>, Seq<char>) {
    let e = field_end(s);
    if e < s.len() {
        (unescape(s.take(e as int)), s.skip((e + 1) as int))
    } else {
        (s, seq![])
    }
}

/// A package field: `.` stands for absence.
pub open spec fn placeholder(f: Seq<char>) -> Option<Seq<char>> {
    if f == seq!['.'] {
        None
    } else {
        Some(f)
    }
}

/// The characters a simple identifier is made of.
pub open spec fn is_simple_ident_char(c: char) -> bool {
    c == '_' || c == '+' || c == '-' || c == '$' || ('a' <= c && c <= 'z') || ('A' <= c && c
        <= 'Z') || ('0' <= c && c <= '9')
}

/// The first position from `i` on that holds `c`, or `i` itself once past the end.
pub open spec fn scan_to(s: Seq<char>, i: nat, c: char) -> nat
    decreases s.len() - i,
{
    if i < s.len() && s[i as int] != c {
        scan_to(s, i + 1, c)
    } else {
        i
    }
}

/// End of the simple identifier that starts at `i`.
pub open spec fn simple_end(s: Seq<char>, i: nat) -> nat
    decreases s.len() - i,
{
    if i < s.len() && is_simple_ident_char(s[i as int]) {
        simple_end(s, i + 1)
    } else {
        i
    }
}

/// The rest of an escaped identifier whose opening backtick lies before `i`:
/// its text and the position after its closing backtick (the end of `s` when
/// it has none).
pub open spec fn escaped_ident(s: Seq<char>, i: nat) -> (Seq<char>, nat)
    decreases s.len() - i,
{
    if i >= s.len() {
        (seq![], i)
    } else if s[i as int] == '`' {
        if i + 1 < s.len() && s[(i + 1) as int] == '`' {
            let r = escaped_ident(s, i + 2);
            (seq!['`'] + r.0, r.1)
        } else {
            (seq![], i + 1)
        }
    } else {
        let r = escaped_ident(s, i + 1);
        (seq![s[i as int]] + r.0, r.1)
    }
}

/// The identifier that starts at `i`, and the position after it.
pub open spec fn ident(s: Seq<char>, i: nat) -> (Seq<char>, nat) {
    if i < s.len() && s[i as int] == '`' {
        escaped_ident(s, i + 1)
    } else {
        (s.subrange(i as int, simple_end(s, i) as int), simple_end(s, i))
    }
}

/// The position after a closing delimiter found at `k`; when none was found,
/// the end of `s`.
pub open spec fn past(s: Seq<char>, k: nat) -> nat {
    if k < s.len() {
        k + 1
    } else {
        s.len()
    }
}

/// `[name]` at `i`: the descriptor and the position after the `]`.
pub open spec fn type_parameter_at(s: Seq<char>, i: nat) -> (DescriptorModel, nat) {
    let (name, e) = ident(s, i + 1);
    (DescriptorModel { name, kind: DescriptorKindModel::TypeParameter }, past(s, scan_to(s, e, ']')))
}

/// `(name)` at `i`: the descriptor and the position after the `)`.
pub open spec fn parameter_at(s: Seq<char>, i: nat) -> (DescriptorModel, nat) {
    let (name, e) = ident(s, i + 1);
    (DescriptorModel { name, kind: DescriptorKindModel::Parameter }, past(s, scan_to(s, e, ')')))
}

/// `(<disambiguator>?).` at `i`, after a method's name: the descriptor and the
/// position after the `)` and the optional `.`.
pub open spec fn method_at(s: Seq<char>, name: Seq<char>, i: nat) -> (DescriptorModel, nat) {
    let close = scan_to(s, i + 1, ')');
    let disambiguator = if close == i + 1 {
        None
    } else {
        Some(s.subrange((i + 1) as int, close as int))
    };
    let after = past(s, close);
    let next = if after < s.len() && s[after as int] == '.' {
        after + 1
    } else {
        after
    };
    (DescriptorModel { name, kind: DescriptorKindModel::Method(disambiguator) }, next)
}

/// The kind that a one-character suffix gives, if any.
pub open spec fn suffix_kind(c: char) -> Option<DescriptorKindModel> {
    if c == '/' {
        Some(DescriptorKindModel::Namespace)
    } else if c == '#' {
        Some(DescriptorKindModel::Type)
    } else if c == '.' {
        Some(DescriptorKindModel::Term)
    } else if c == ':' {
        Some(DescriptorKindModel::Meta)
    } else if c == '!' {
        Some(DescriptorKindModel::Macro)
    } else {
        None
    }
}

/// A name with a one-character suffix of kind `kind`; a macro keeps its `!`.
pub open spec fn simple_descriptor(name: Seq<char>, kind: DescriptorKindModel) -> DescriptorModel {
    DescriptorModel {
        name: if kind is Macro {
            name.push('!')
        } else {
            name
        },
        kind,
    }
}

/// One step of the descriptor chain at `i < s.len()`: the descriptor read, if
/// any, and the position where the next step starts.
pub open spec fn step(s: Seq<char>, i: nat) -> (Option<DescriptorModel>, nat) {
    if s[i as int] == '[' {
        let (d, j) = type_parameter_at(s, i);
        (Some(d), j)
    } else if s[i as int] == '(' {
        let (d, j) = parameter_at(s, i);
        (Some(d), j)
    } else {
        let (name, e) = ident(s, i);
        if e >= s.len() {
            (None, e)
        } else if s[e as int] == '(' {
            let (d, j) = method_at(s, name, e);
            (Some(d), j)
        } else {
            match suffix_kind(s[e as int]) {
                Some(k) => (Some(simple_descriptor(name, k)), e + 1),
                None => (None, e + 1),
            }
        }
    }
}

pub proof fn lemma_scan_to_from(s: Seq<char>, i: nat, c: char)
    ensures
        scan_to(s, i, c) >= i,
        i <= s.len() ==> scan_to(s, i, c) <= s.len(),
    decreases s.len() - i,
{
    if i < s.len() && s[i as int] != c {
        lemma_scan_to_from(s, i + 1, c);
    }
}

pub proof fn lemma_simple_end(s: Seq<char>, i: nat)
    ensures
        simple_end(s, i) >= i,
        i <= s.len() ==> simple_end(s, i) <= s.len(),
    decreases s.len() - i,
{
    if i < s.len() && is_simple_ident_char(s[i as int]) {
        lemma_simple_end(s, i + 1);
    }
}

pub proof fn lemma_escaped_ident_end(s: Seq<char>, i: nat)
    ensures
        escaped_ident(s, i).1 >= i,
        i <= s.len() ==> escaped_ident(s, i).1 <= s.len(),
    decreases s.len() - i,
{
    if i < s.len() {
        if s[i as int] == '`' {
            if i + 1 < s.len() && s[(i + 1) as int] == '`' {
                lemma_escaped_ident_end(s, i + 2);
            }
        } else {
            lemma_escaped_ident_end(s, i + 1);
        }
    }
}

pub proof fn lemma_ident_end(s: Seq<char>, i: nat)
    ensures
        ident(s, i).1 >= i,
        i <= s.len() ==> ident(s, i).1 <= s.len(),
{
    lemma_simple_end(s, i);
    if i < s.len() {
        lemma_escaped_ident_end(s, i + 1);
    }
}

/// Each step moves forward.
pub proof fn lemma_step_advances(s: Seq<char>, i: nat)
    requires
        i < s.len(),
    ensures
        step(s, i).1 > i,
        step(s, i).1 <= s.len(),
{
    lemma_ident_end(s, i);
    lemma_ident_end(s, i + 1);
    let e1 = ident(s, i + 1).1;
    lemma_scan_to_from(s, e1, ']');
    lemma_scan_to_from(s, e1, ')');
    let e = ident(s, i).1;
    lemma_scan_to_from(s, e + 1, ')');
}

/// The descriptors that the chain `s` yields from position `i` on.
pub open spec fn descriptors_from(s: Seq<char>, i: nat) -> Seq<DescriptorModel>
    decreases s.len() + 1 - i,
{
    if i >= s.len() {
        seq![]
    } else {
        let (d, j) = step(s, i);
        proof {
            lemma_step_advances(s, i);
        }
        let rest = descriptors_from(s, j);
        match d {
            Some(x) => seq![x] + rest,
            None => rest,
        }
    }
}

/// The symbol that the text `s` denotes.
pub open spec fn symbol_of(s: Seq<char>) -> SymbolModel {
    if is_local(s) {
        SymbolModel::Local { id: s.skip(6) }
    } else {
        let (scheme, r1) = split_field(s);
        let (manager, r2) = split_field(r1);
        let (name, r3) = split_field(r2);
        let (version, chain) = split_field(r3);
        SymbolModel::Global {
            scheme,
            package: PackageModel {
                manager: placeholder(manager),
                name: placeholder(name),
                version: placeholder(version),
            },
            descriptors: descriptors_from(chain, 0),
        }
    }
}

} // verus!
