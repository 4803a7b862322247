use scip_symbol::{decode_scip_range, parse_scip_symbol, BadRange, Descriptor, DescriptorKind, GleanRange, Package, ScipSymbol};

fn global(symbol: &str) -> (String, Package, Vec<Descriptor>) {
    match parse_scip_symbol(symbol) {
        ScipSymbol::Global { scheme, package, descriptors } => (scheme, package, descriptors),
        ScipSymbol::Local { .. } => panic!("expected global symbol"),
    }
}

fn chain(descriptors: &str) -> Vec<Descriptor> {
    global(&format!("scip . . . {}", descriptors)).2
}

fn d(name: &str, kind: DescriptorKind) -> Descriptor {
    Descriptor { name: name.to_string(), kind }
}

#[test]
fn local_id_is_rest_unchanged() {
    let ScipSymbol::Local { id } = parse_scip_symbol("local  a  `b`/") else {
        panic!("expected local symbol");
    };
    assert_eq!(id, " a  `b`/");
}

#[test]
fn local_with_empty_id() {
    let ScipSymbol::Local { id } = parse_scip_symbol("local ") else {
        panic!("expected local symbol");
    };
    assert_eq!(id, "");
}

#[test]
fn local_needs_exact_word() {
    let (scheme, package, _) = global("locals x . . X#");
    assert_eq!(scheme, "locals");
    assert_eq!(package.manager, Some("x".to_string()));
    let (scheme, _, _) = global("local");
    assert_eq!(scheme, "local");
}

#[test]
fn doubled_spaces_collapse() {
    let (scheme, _, descriptors) = global("my  scheme cargo pkg v1.0 X#");
    assert_eq!(scheme, "my scheme");
    assert_eq!(descriptors, vec![d("X", DescriptorKind::Type)]);
}

#[test]
fn quadrupled_spaces_collapse_to_doubled() {
    let (scheme, _, _) = global("my    scheme cargo pkg v1.0 X#");
    assert_eq!(scheme, "my  scheme");
}

#[test]
fn header_round_trip() {
    let (scheme, package, descriptors) = global("a  b . n  m .. x#");
    assert_eq!(scheme, "a b");
    assert_eq!(package.manager, None);
    assert_eq!(package.name, Some("n m".to_string()));
    assert_eq!(package.version, Some("..".to_string()));
    assert_eq!(descriptors, vec![d("x", DescriptorKind::Type)]);
}

#[test]
fn last_field_without_delimiter_is_kept_raw() {
    let (scheme, package, descriptors) = global("a  b");
    assert_eq!(scheme, "a  b");
    assert_eq!(package.manager, Some(String::new()));
    assert!(descriptors.is_empty());
}

#[test]
fn empty_input() {
    let (scheme, package, descriptors) = global("");
    assert_eq!(scheme, "");
    assert_eq!(package.manager, Some(String::new()));
    assert_eq!(package.name, Some(String::new()));
    assert_eq!(package.version, Some(String::new()));
    assert!(descriptors.is_empty());
}

#[test]
fn text_without_space_is_scheme() {
    let text = "_ZN3foo3barE";
    let (scheme, package, descriptors) = global(text);
    assert_eq!(scheme, text);
    assert_eq!(package.manager, Some(String::new()));
    assert_eq!(package.name, Some(String::new()));
    assert_eq!(package.version, Some(String::new()));
    assert!(descriptors.is_empty());
}

#[test]
fn namespace_chain() {
    assert_eq!(
        chain("io/stdio/IsTerminal#"),
        vec![
            d("io", DescriptorKind::Namespace),
            d("stdio", DescriptorKind::Namespace),
            d("IsTerminal", DescriptorKind::Type),
        ]
    );
}

#[test]
fn method_without_disambiguator() {
    assert_eq!(
        chain("MyClass#myMethod()."),
        vec![d("MyClass", DescriptorKind::Type), d("myMethod", DescriptorKind::Method(None))]
    );
}

#[test]
fn method_with_disambiguator_text() {
    assert_eq!(
        chain("MyClass#myMethod(disambig)."),
        vec![
            d("MyClass", DescriptorKind::Type),
            d("myMethod", DescriptorKind::Method(Some("disambig".to_string()))),
        ]
    );
}

#[test]
fn macro_keeps_its_suffix() {
    assert_eq!(
        chain("macros/println!"),
        vec![d("macros", DescriptorKind::Namespace), d("println!", DescriptorKind::Macro)]
    );
}

#[test]
fn escaped_identifiers() {
    assert_eq!(chain("`has space`/"), vec![d("has space", DescriptorKind::Namespace)]);
    assert_eq!(
        chain("`name``with``backticks`#"),
        vec![d("name`with`backticks", DescriptorKind::Type)]
    );
}

#[test]
fn escaped_identifier_keeps_non_ascii() {
    assert_eq!(chain("`héllo wörld`."), vec![d("héllo wörld", DescriptorKind::Term)]);
}

#[test]
fn unterminated_escape_gives_nothing() {
    assert!(chain("`abc").is_empty());
    assert!(chain("`abc`").is_empty());
}

#[test]
fn meta_and_term() {
    assert_eq!(
        chain("a:b.c"),
        vec![d("a", DescriptorKind::Meta), d("b", DescriptorKind::Term)]
    );
}

#[test]
fn type_parameter_and_parameter_without_close() {
    assert_eq!(chain("[T"), vec![d("T", DescriptorKind::TypeParameter)]);
    assert_eq!(chain("(p"), vec![d("p", DescriptorKind::Parameter)]);
    assert_eq!(chain("[T junk]x#"), vec![d("T", DescriptorKind::TypeParameter), d("x", DescriptorKind::Type)]);
}

#[test]
fn method_dot_is_optional() {
    assert_eq!(
        chain("f(x)g#"),
        vec![d("f", DescriptorKind::Method(Some("x".to_string()))), d("g", DescriptorKind::Type)]
    );
    assert_eq!(chain("f("), vec![d("f", DescriptorKind::Method(None))]);
    assert_eq!(chain("f(ab"), vec![d("f", DescriptorKind::Method(Some("ab".to_string())))]);
}

#[test]
fn unrecognized_suffix_skips_name() {
    assert_eq!(chain("a b/"), vec![d("b", DescriptorKind::Namespace)]);
    assert_eq!(chain("a%%c#"), vec![d("c", DescriptorKind::Type)]);
    assert_eq!(chain("_+-$9x/"), vec![d("_+-$9x", DescriptorKind::Namespace)]);
}

#[test]
fn range_of_three() {
    assert_eq!(
        decode_scip_range(&[0, 0, 5]),
        Ok(GleanRange { column_begin: 1, column_end: 5, line_begin: 1, line_end: 1 })
    );
}

#[test]
fn range_of_four() {
    assert_eq!(
        decode_scip_range(&[1, 2, 3, 4]),
        Ok(GleanRange { column_begin: 3, column_end: 4, line_begin: 2, line_end: 4 })
    );
}

#[test]
fn range_end_column_raised_to_start() {
    assert_eq!(
        decode_scip_range(&[0, 5, 2]),
        Ok(GleanRange { column_begin: 6, column_end: 6, line_begin: 1, line_end: 1 })
    );
}

#[test]
fn range_of_wrong_length() {
    assert_eq!(decode_scip_range(&[1, 2]), Err(BadRange { len: 2 }));
    assert_eq!(decode_scip_range(&[]), Err(BadRange { len: 0 }));
    assert_eq!(decode_scip_range(&[1, 2, 3, 4, 5]), Err(BadRange { len: 5 }));
}
