use vstd::prelude::*;
use crate::grammar::{
    descriptors_from, escaped_ident, field_end, ident, is_local, is_simple_ident_char,
    lemma_escaped_ident_end, lemma_step_advances, local_marker, method_at, parameter_at,
    placeholder, scan_to, simple_descriptor, simple_end, split_field, step, suffix_kind,
    symbol_of, type_parameter_at, unescape,
};
use crate::symbol::{
    descriptors_view, opt_string_view, Descriptor, DescriptorKind, Package, ScipSymbol,
};
use crate::text::{chars_from, chars_of, string_of};

verus! {

fn simple_ident_char(c: char) -> (r: bool)
    ensures
        r == is_simple_ident_char(c),
{
    c == '_' || c == '+' || c == '-' || c == '$' || ('a' <= c && c <= 'z') || ('A' <= c && c
        <= 'Z') || ('0' <= c && c <= '9')
}

/// The characters from `from` to `to`, with each doubled space made one.
fn unescape_spaces(s: &Vec<char>, from: usize, to: usize) -> (r: String)
    requires
        from <= to <= s@.len(),
    ensures
        r@ == unescape(s@.subrange(from as int, to as int)),
{
    let mut r = String::new();
    let mut j: usize = from;
    while j < to
        invariant
            from <= j <= to <= s@.len(),
            r@ + unescape(s@.subrange(j as int, to as int)) == unescape(
                s@.subrange(from as int, to as int),
            ),
        decreases to - j,
    {
        let ghost rest = s@.subrange(j as int, to as int);
        let ghost r0 = r@;
        if j + 1 < to && s[j] == ' ' && s[j + 1] == ' ' {
            assert(rest.skip(2) =~= s@.subrange(j + 2, to as int));
            r.push(' ');
            assert(r@ + unescape(rest.skip(2)) =~= r0 + unescape(rest));
            j = j + 2;
        } else {
            assert(rest.skip(1) =~= s@.subrange(j + 1, to as int));
            r.push(s[j]);
            assert(r@ + unescape(rest.skip(1)) =~= r0 + unescape(rest));
            j = j + 1;
        }
    }
    assert(s@.subrange(to as int, to as int) =~= Seq::<char>::empty());
    r
}

/// Reads the header field that starts at `start`: returns its value and the
/// position after its delimiting space (the end of `s` when it has none).
fn parse_space_escaped_field(s: &Vec<char>, start: usize) -> (r: (String, usize))
    requires
        start <= s@.len(),
    ensures
        r.1 <= s@.len(),
        r.0@ == split_field(s@.skip(start as int)).0,
        s@.skip(r.1 as int) == split_field(s@.skip(start as int)).1,
{
    let ghost t = s@.skip(start as int);
    let mut i: usize = start;
    while i < s.len()
        invariant
            start <= i <= s@.len(),
            t == s@.skip(start as int),
            field_end(t) == (i - start) + field_end(s@.skip(i as int)),
        decreases s@.len() - i,
    {
        let ghost u = s@.skip(i as int);
        if s[i] == ' ' {
            if i + 1 < s.len() && s[i + 1] == ' ' {
                assert(u.skip(2) =~= s@.skip(i + 2));
                i = i + 2;
            } else {
                assert(field_end(u) == 0);
                assert(t.take(i - start) =~= s@.subrange(start as int, i as int));
                assert(t.skip(i - start + 1) =~= s@.skip(i + 1));
                return (unescape_spaces(s, start, i), i + 1);
            }
        } else {
            assert(u.skip(1) =~= s@.skip(i + 1));
            i = i + 1;
        }
    }
    assert(s@.skip(i as int) =~= Seq::<char>::empty());
    assert(t =~= s@.subrange(start as int, s@.len() as int));
    (string_of(s, start, s.len()), s.len())
}

/// Reads the identifier that starts at `start`, escaped or simple: returns its
/// text and the number of characters it takes.
fn parse_identifier(s: &Vec<char>, start: usize) -> (r: (String, usize))
    requires
        start <= s@.len(),
    ensures
        r.0@ == ident(s@, start as nat).0,
        start + r.1 == ident(s@, start as nat).1,
        start + r.1 <= s@.len(),
{
    if start < s.len() && s[start] == '`' {
        let ghost first = (start + 1) as nat;
        proof {
            lemma_escaped_ident_end(s@, first);
        }
        let mut i: usize = start + 1;
        let mut result = String::new();
        while i < s.len()
            invariant
                start < i <= s@.len(),
                s@[start as int] == '`',
                first == start + 1,
                result@ + escaped_ident(s@, i as nat).0 == escaped_ident(s@, first).0,
                escaped_ident(s@, i as nat).1 == escaped_ident(s@, first).1,
            decreases s@.len() - i,
        {
            let ghost r0 = result@;
            if s[i] == '`' {
                if i + 1 < s.len() && s[i + 1] == '`' {
                    result.push('`');
                    assert(result@ + escaped_ident(s@, (i + 2) as nat).0 =~= r0
                        + escaped_ident(s@, i as nat).0);
                    i = i + 2;
                } else {
                    assert(escaped_ident(s@, i as nat) == (Seq::<char>::empty(), (i + 1) as nat));
                    assert(result@ =~= r0 + escaped_ident(s@, i as nat).0);
                    assert(ident(s@, start as nat) == escaped_ident(s@, first));
                    return (result, i + 1 - start);
                }
            } else {
                result.push(s[i]);
                assert(result@ + escaped_ident(s@, (i + 1) as nat).0 =~= r0 + escaped_ident(
                    s@,
                    i as nat,
                ).0);
                i = i + 1;
            }
        }
        assert(result@ =~= result@ + escaped_ident(s@, i as nat).0);
        (result, i - start)
    } else {
        let mut i: usize = start;
        while i < s.len() && simple_ident_char(s[i])
            invariant
                start <= i <= s@.len(),
                simple_end(s@, i as nat) == simple_end(s@, start as nat),
            decreases s@.len() - i,
        {
            i = i + 1;
        }
        (string_of(s, start, i), i - start)
    }
}

/// The first position from `start` on that holds `c`, or the end of `s`.
fn scan_to_char(s: &Vec<char>, start: usize, c: char) -> (r: usize)
    requires
        start <= s@.len(),
    ensures
        r == scan_to(s@, start as nat, c),
        start <= r <= s@.len(),
{
    let mut i: usize = start;
    while i < s.len() && s[i] != c
        invariant
            start <= i <= s@.len(),
            scan_to(s@, i as nat, c) == scan_to(s@, start as nat, c),
        decreases s@.len() - i,
    {
        i = i + 1;
    }
    i
}

/// Reads a type parameter `[name]` whose `[` stands at `start`: returns the
/// descriptor and the position after the `]`.
fn parse_type_parameter(s: &Vec<char>, start: usize) -> (r: (Descriptor, usize))
    requires
        start < s@.len(),
    ensures
        r.0@ == type_parameter_at(s@, start as nat).0,
        r.1 == type_parameter_at(s@, start as nat).1,
{
    let len = s.len();
    let (name, consumed) = parse_identifier(s, start + 1);
    let close = scan_to_char(s, start + 1 + consumed, ']');
    let next = if close < len {
        close + 1
    } else {
        len
    };
    (Descriptor { name, kind: DescriptorKind::TypeParameter }, next)
}

/// Reads a parameter `(name)` whose `(` stands at `start`: returns the
/// descriptor and the position after the `)`.
fn parse_parameter(s: &Vec<char>, start: usize) -> (r: (Descriptor, usize))
    requires
        start < s@.len(),
    ensures
        r.0@ == parameter_at(s@, start as nat).0,
        r.1 == parameter_at(s@, start as nat).1,
{
    let len = s.len();
    let (name, consumed) = parse_identifier(s, start + 1);
    let close = scan_to_char(s, start + 1 + consumed, ')');
    let next = if close < len {
        close + 1
    } else {
        len
    };
    (Descriptor { name, kind: DescriptorKind::Parameter }, next)
}

/// Reads the rest of a method, `(<disambiguator>?).`, whose `(` stands at
/// `start`: returns the descriptor and the position after the `)` and the
/// optional `.`.
fn parse_method(s: &Vec<char>, name: String, start: usize) -> (r: (Descriptor, usize))
    requires
        start < s@.len(),
    ensures
        r.0@ == method_at(s@, name@, start as nat).0,
        r.1 == method_at(s@, name@, start as nat).1,
{
    let len = s.len();
    let close = scan_to_char(s, start + 1, ')');
    let disambiguator = if close == start + 1 {
        None
    } else {
        Some(string_of(s, start + 1, close))
    };
    let mut next = if close < len {
        close + 1
    } else {
        len
    };
    if next < len && s[next] == '.' {
        next = next + 1;
    }
    (Descriptor { name, kind: DescriptorKind::Method(disambiguator) }, next)
}

/// Makes the descriptor for `name` followed by the suffix `suffix_char`, which
/// stands at `pos`: returns it and the position after the suffix.
fn parse_simple_descriptor(name: String, suffix_char: char, pos: usize) -> (r: (
    Descriptor,
    usize,
))
    requires
        suffix_kind(suffix_char) is Some,
        pos < usize::MAX,
    ensures
        r.0@ == simple_descriptor(name@, suffix_kind(suffix_char)->Some_0),
        r.1 == pos + 1,
{
    let kind = if suffix_char == '/' {
        DescriptorKind::Namespace
    } else if suffix_char == '#' {
        DescriptorKind::Type
    } else if suffix_char == '.' {
        DescriptorKind::Term
    } else if suffix_char == ':' {
        DescriptorKind::Meta
    } else {
        DescriptorKind::Macro
    };
    let mut name = name;
    if suffix_char == '!' {
        name.push('!');
    }
    (Descriptor { name, kind }, pos + 1)
}

/// Reads the chain of descriptors `s`, in order.
fn parse_descriptors(s: &Vec<char>) -> (r: Vec<Descriptor>)
    ensures
        descriptors_view(r@) == descriptors_from(s@, 0),
{
    let mut result: Vec<Descriptor> = Vec::new();
    let mut i: usize = 0;
    while i < s.len()
        invariant
            i <= s@.len(),
            descriptors_view(result@) + descriptors_from(s@, i as nat) == descriptors_from(s@, 0),
        decreases s@.len() - i,
    {
        proof {
            lemma_step_advances(s@, i as nat);
        }
        let ghost r0 = result@;
        let ghost st = step(s@, i as nat);
        let found: Option<Descriptor>;
        let next: usize;
        if s[i] == '[' {
            let (d, j) = parse_type_parameter(s, i);
            found = Some(d);
            next = j;
        } else if s[i] == '(' {
            let (d, j) = parse_parameter(s, i);
            found = Some(d);
            next = j;
        } else {
            let (name, consumed) = parse_identifier(s, i);
            let e = i + consumed;
            if e < s.len() {
                let c = s[e];
                if c == '/' || c == '#' || c == '.' || c == ':' || c == '!' {
                    let (d, j) = parse_simple_descriptor(name, c, e);
                    found = Some(d);
                    next = j;
                } else if c == '(' {
                    let (d, j) = parse_method(s, name, e);
                    found = Some(d);
                    next = j;
                } else {
                    found = None;
                    next = e + 1;
                }
            } else {
                found = None;
                next = e;
            }
        }
        assert(next == st.1);
        match found {
            Some(d) => {
                assert(d@ == st.0->Some_0);
                result.push(d);
                assert(descriptors_view(result@) =~= descriptors_view(r0).push(d@));
            },
            None => {
                assert(st.0 is None);
            },
        }
        i = next;
    }
    assert(descriptors_view(result@) =~= descriptors_view(result@) + descriptors_from(s@, i as nat));
    result
}

/// A package field: `None` where it is the placeholder `.`.
fn package_field(f: String) -> (r: Option<String>)
    ensures
        opt_string_view(r) == placeholder(f@),
{
    let is_dot = f.as_str().unicode_len() == 1 && f.as_str().get_char(0) == '.';
    assert(is_dot <==> f@ =~= seq!['.']);
    if is_dot {
        None
    } else {
        Some(f)
    }
}

/// Parses a symbol: `local <id>`, or `<scheme> <manager> <name> <version>`
/// followed by a chain of descriptors. Every text parses; what does not match
/// the grammar is skipped or kept as it stands.
pub fn parse_scip_symbol(symbol: &str) -> (r: ScipSymbol)
    ensures
        r@ == symbol_of(symbol@),
{
    let s = chars_of(symbol);
    let len = s.len();
    if len >= 6 && s[0] == 'l' && s[1] == 'o' && s[2] == 'c' && s[3] == 'a' && s[4] == 'l'
        && s[5] == ' ' {
        assert(s@.take(6) =~= local_marker());
        return ScipSymbol::Local { id: string_of(&s, 6, len) };
    }
    assert(!is_local(s@)) by {
        if s@.len() >= 6 && s@.take(6) == local_marker() {
            assert(s@[0] == s@.take(6)[0]);
            assert(s@[1] == s@.take(6)[1]);
            assert(s@[2] == s@.take(6)[2]);
            assert(s@[3] == s@.take(6)[3]);
            assert(s@[4] == s@.take(6)[4]);
            assert(s@[5] == s@.take(6)[5]);
        }
    }
    assert(s@.skip(0) =~= s@);
    let (scheme, p1) = parse_space_escaped_field(&s, 0);
    let (manager, p2) = parse_space_escaped_field(&s, p1);
    let (name, p3) = parse_space_escaped_field(&s, p2);
    let (version, p4) = parse_space_escaped_field(&s, p3);
    let package = Package {
        manager: package_field(manager),
        name: package_field(name),
        version: package_field(version),
    };
    let chain = chars_from(&s, p4);
    let descriptors = parse_descriptors(&chain);
    ScipSymbol::Global { scheme, package, descriptors }
}

} // verus!
