use clap_dispatch::{
    clap_dispatch, emit_named, generate, validity_checks, GenerateError, GenericsSite, Param,
    PayloadShape, Receiver, ReceiverError, SelfParam, ShapeError, Signature, SumType, Variant,
};

fn variant(name: &str, shape: PayloadShape) -> Variant {
    Variant { name: name.to_string(), shape }
}

fn cli() -> SumType {
    SumType {
        name: "Cli".to_string(),
        has_generics: false,
        variants: vec![
            variant("Quick", PayloadShape::Unnamed(1)),
            variant("Merge", PayloadShape::Unnamed(1)),
        ],
    }
}

fn signature(name: &str, receiver: Option<Receiver>, params: &[(&str, &str)], ret: Option<&str>) -> Signature {
    Signature {
        qualifiers: String::new(),
        method_name: name.to_string(),
        has_generics: false,
        receiver: receiver.map(|form| SelfParam {
            form,
            text: match form {
                Receiver::ByValue => "self",
                Receiver::ByReference => "&self",
                Receiver::ByMutableReference => "&mut self",
            }
            .to_string(),
        }),
        params: params
            .iter()
            .map(|(n, t)| Param { name: n.to_string(), ty: t.to_string() })
            .collect(),
        variadic: false,
        return_type: ret.map(|t| t.to_string()),
        where_clause: None,
    }
}

fn sort_sig() -> Signature {
    signature("sort", Some(Receiver::ByValue), &[("nums", "Vec<Int>")], Some("Vec<Int>"))
}

#[test]
fn scenario_sort_dispatch() {
    let a = generate(&cli(), &sort_sig()).unwrap();
    assert_eq!(a.interface_name, "Sort");
    assert_eq!(a.interface_declaration, "trait Sort { fn sort(self, nums: Vec<Int>) -> Vec<Int>; }");
    assert_eq!(a.clauses.len(), 2);
    assert_eq!(a.clauses[0].variant, "Quick");
    assert_eq!(a.clauses[0].text, "Self::Quick(args) => self::Sort::sort(args, nums),");
    assert_eq!(a.clauses[1].variant, "Merge");
    assert_eq!(a.clauses[1].text, "Self::Merge(args) => self::Sort::sort(args, nums),");
    assert_eq!(
        a.dispatch_implementation,
        "impl Sort for Cli { fn sort(self, nums: Vec<Int>) -> Vec<Int> { match self { \
         Self::Quick(args) => self::Sort::sort(args, nums), \
         Self::Merge(args) => self::Sort::sort(args, nums), } } }"
    );
}

#[test]
fn scenario_named_fields_rejected() {
    let mut sum = cli();
    sum.variants.push(variant("Bad", PayloadShape::Named(2)));
    let e = validity_checks(&sum, &sort_sig()).unwrap_err();
    assert_eq!(e, GenerateError::InvalidPayloadShape { index: 2, kind: ShapeError::NamedFields });
    assert_eq!(sum.variants[2].name, "Bad");
    assert_eq!(e.message(), "must have unnamed field, not named");
}

#[test]
fn scenario_missing_receiver() {
    let sig = signature("run", None, &[], None);
    let e = generate(&cli(), &sig).unwrap_err();
    assert_eq!(e, GenerateError::MissingReceiver(ReceiverError::NoArguments));
    assert_eq!(e.message(), "function needs at least a `self` argument (or `&self` or `&mut self`)");
}

#[test]
fn scenario_generic_sum_type() {
    let sum = SumType {
        name: "Foo".to_string(),
        has_generics: true,
        variants: vec![variant("A", PayloadShape::Unnamed(1))],
    };
    let e = generate(&sum, &signature("run", Some(Receiver::ByValue), &[], None)).unwrap_err();
    assert_eq!(e, GenerateError::GenericsUnsupported(GenericsSite::SumType));
    assert_eq!(e.message(), "generics are not yet supported by clap-dispatch");
}

#[test]
fn scenario_variadic() {
    let mut sig = signature("act", Some(Receiver::ByValue), &[], None);
    sig.variadic = true;
    let e = generate(&cli(), &sig).unwrap_err();
    assert_eq!(e, GenerateError::VariadicUnsupported);
    assert_eq!(e.message(), "variadics are not yet supported by clap-dispatch");
}

#[test]
fn generics_reported_before_bad_payload() {
    let sum = SumType {
        name: "Foo".to_string(),
        has_generics: true,
        variants: vec![variant("A", PayloadShape::Named(1)), variant("B", PayloadShape::Unit)],
    };
    let e = validity_checks(&sum, &sort_sig()).unwrap_err();
    assert_eq!(e, GenerateError::GenericsUnsupported(GenericsSite::SumType));
}

#[test]
fn signature_generics_rejected() {
    let mut sig = sort_sig();
    sig.has_generics = true;
    sig.variadic = true;
    let e = validity_checks(&cli(), &sig).unwrap_err();
    assert_eq!(e, GenerateError::GenericsUnsupported(GenericsSite::Signature));
}

#[test]
fn variadic_reported_before_missing_receiver() {
    let mut sig = signature("act", None, &[], None);
    sig.variadic = true;
    assert_eq!(validity_checks(&cli(), &sig).unwrap_err(), GenerateError::VariadicUnsupported);
}

#[test]
fn wrong_arity_and_unit_variants() {
    let mut sum = cli();
    sum.variants.insert(1, variant("Two", PayloadShape::Unnamed(2)));
    let e = validity_checks(&sum, &sort_sig()).unwrap_err();
    assert_eq!(e, GenerateError::InvalidPayloadShape { index: 1, kind: ShapeError::WrongArity { unit: false } });
    assert_eq!(e.message(), "number of unnamed fields must be exactly one");

    let mut sum = cli();
    sum.variants.push(variant("Empty", PayloadShape::Unit));
    sum.variants.push(variant("Named", PayloadShape::Named(0)));
    let e = validity_checks(&sum, &sort_sig()).unwrap_err();
    assert_eq!(e, GenerateError::InvalidPayloadShape { index: 2, kind: ShapeError::WrongArity { unit: true } });
    assert_eq!(e.message(), "variant must have an unnamed field");

    let mut sum = cli();
    sum.variants.push(variant("None", PayloadShape::Unnamed(0)));
    let e = validity_checks(&sum, &sort_sig()).unwrap_err();
    assert_eq!(e, GenerateError::InvalidPayloadShape { index: 2, kind: ShapeError::WrongArity { unit: false } });
    assert_eq!(e.message(), "number of unnamed fields must be exactly one");
}

#[test]
fn first_argument_not_a_receiver() {
    let sig = signature("run", None, &[("x", "i32")], None);
    let e = validity_checks(&cli(), &sig).unwrap_err();
    assert_eq!(e, GenerateError::MissingReceiver(ReceiverError::NotReceiver));
    assert_eq!(e.message(), "first argument of function must be `self` or `&self` or `&mut self`");
}

#[test]
fn qualifiers_receiver_text_and_where_clause_are_kept() {
    let mut sig = signature("run", Some(Receiver::ByReference), &[("n", "u8")], Some("bool"));
    sig.qualifiers = "async unsafe".to_string();
    sig.receiver = Some(SelfParam { form: Receiver::ByReference, text: "&'a self".to_string() });
    sig.where_clause = Some("where Self: Sized".to_string());
    let a = generate(&cli(), &sig).unwrap();
    assert_eq!(
        a.interface_declaration,
        "trait Run { async unsafe fn run(&'a self, n: u8) -> bool where Self: Sized; }"
    );
}

#[test]
fn emit_with_given_interface_name() {
    let a = emit_named(&cli(), &sort_sig(), &"Sorter".to_string()).unwrap();
    assert_eq!(a.interface_name, "Sorter");
    assert_eq!(a.interface_declaration, "trait Sorter { fn sort(self, nums: Vec<Int>) -> Vec<Int>; }");
    assert_eq!(a.clauses[1].text, "Self::Merge(args) => self::Sorter::sort(args, nums),");
    let mut sig = sort_sig();
    sig.receiver = None;
    assert_eq!(
        emit_named(&cli(), &sig, &"Sorter".to_string()).unwrap_err(),
        GenerateError::MissingReceiver(ReceiverError::NotReceiver)
    );
}

#[test]
fn valid_inputs_pass_checks() {
    assert_eq!(validity_checks(&cli(), &sort_sig()), Ok(()));
    let empty = SumType { name: "E".to_string(), has_generics: false, variants: vec![] };
    assert_eq!(validity_checks(&empty, &sort_sig()), Ok(()));
}

#[test]
fn empty_enum_has_no_arms() {
    let empty = SumType { name: "E".to_string(), has_generics: false, variants: vec![] };
    let a = generate(&empty, &sort_sig()).unwrap();
    assert!(a.clauses.is_empty());
    assert_eq!(
        a.dispatch_implementation,
        "impl Sort for E { fn sort(self, nums: Vec<Int>) -> Vec<Int> { match self { } } }"
    );
}

#[test]
fn receivers_and_no_return() {
    let sig = signature("run", Some(Receiver::ByReference), &[], None);
    let a = generate(&cli(), &sig).unwrap();
    assert_eq!(a.interface_declaration, "trait Run { fn run(&self); }");
    assert_eq!(a.clauses[0].text, "Self::Quick(args) => self::Run::run(args),");
    assert!(a.clauses[0].args.is_empty());

    let sig = signature("bump", Some(Receiver::ByMutableReference), &[("by", "u8")], None);
    let a = generate(&cli(), &sig).unwrap();
    assert_eq!(a.interface_declaration, "trait Bump { fn bump(&mut self, by: u8); }");
}

#[test]
fn forwarding_keeps_order_and_names() {
    let sig = signature("merge", Some(Receiver::ByValue), &[("b", "T2"), ("a", "T1")], Some("u32"));
    let a = generate(&cli(), &sig).unwrap();
    for c in &a.clauses {
        assert_eq!(c.args, vec!["b".to_string(), "a".to_string()]);
        assert!(c.text.ends_with("self::Merge::merge(args, b, a),"));
    }
    assert_eq!(a.interface_declaration, "trait Merge { fn merge(self, b: T2, a: T1) -> u32; }");
}

#[test]
fn same_inputs_same_output() {
    let first = clap_dispatch(&cli(), &sort_sig()).unwrap();
    let second = clap_dispatch(&cli(), &sort_sig()).unwrap();
    assert_eq!(first, second);
    let a = generate(&cli(), &sort_sig()).unwrap();
    assert_eq!(first, format!("{}\n{}", a.interface_declaration, a.dispatch_implementation));
    assert_eq!(first, a.source());
}

#[test]
fn interface_name_is_pascal_case() {
    let cases = [
        ("sort", "Sort"),
        ("run_all", "RunAll"),
        ("doThing", "DoThing"),
        ("Sort", "Sort"),
        ("x", "X"),
    ];
    for (method, iface) in cases {
        let sig = signature(method, Some(Receiver::ByValue), &[], None);
        assert_eq!(generate(&cli(), &sig).unwrap().interface_name, iface);
    }
}

// Re-casing is stable for these names; it is not for every name (see the
// next test).
#[test]
fn pascal_case_stable_on_chosen_names() {
    for method in ["sort", "run_all", "doThing", "HTTPServer", "run_all_now", "Already"] {
        let once = generate(&cli(), &signature(method, Some(Receiver::ByValue), &[], None))
            .unwrap()
            .interface_name;
        let twice = generate(&cli(), &signature(&once, Some(Receiver::ByValue), &[], None))
            .unwrap()
            .interface_name;
        assert_eq!(once, twice);
    }
}

#[test]
fn single_letter_words_are_recased() {
    let name = |m: &str| {
        generate(&cli(), &signature(m, Some(Receiver::ByValue), &[], None))
            .unwrap()
            .interface_name
    };
    assert_eq!(name("a_b_c"), "ABC");
    assert_eq!(name("ABC"), "Abc");
}
