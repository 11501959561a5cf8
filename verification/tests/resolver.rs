use mahf_bmf::catalog::family_names;
use mahf_bmf::{BenchmarkFunction, ParseError};

#[test]
fn try_from_sphere() {
    let bmf = BenchmarkFunction::resolve("sphere<20>").unwrap();
    assert_eq!(bmf.name(), "sphere");
    assert_eq!(bmf.dimension(), 20);
}

#[test]
fn resolve_unknown_function() {
    let err = BenchmarkFunction::resolve("unknownfn<3>").unwrap_err();
    match err {
        ParseError::UnknownFunction(name) => assert_eq!(name, "unknownfn"),
        ParseError::MalformedSpec => panic!("expected UnknownFunction"),
    }
}

#[test]
fn resolve_missing_dimension() {
    let err = BenchmarkFunction::resolve("sphere").unwrap_err();
    assert!(matches!(err, ParseError::MalformedSpec));
}

#[test]
fn resolve_non_integer_dimension() {
    let err = BenchmarkFunction::resolve("sphere<abc>").unwrap_err();
    assert!(matches!(err, ParseError::MalformedSpec));
}

#[test]
fn resolve_is_case_insensitive() {
    let upper = BenchmarkFunction::resolve("SPHERE<3>").unwrap();
    let lower = BenchmarkFunction::resolve("sphere<3>").unwrap();
    assert_eq!(upper.name(), lower.name());
    assert_eq!(upper.dimension(), lower.dimension());

    let mixed = BenchmarkFunction::resolve("StyBlinSki_TanG<7>").unwrap();
    assert_eq!(mixed.name(), "styblinski_tang");
    assert_eq!(mixed.dimension(), 7);
}

#[test]
fn every_family_resolves_at_every_dimension() {
    for name in family_names() {
        for d in [1usize, 2, 10, 20, 1000] {
            let spec = format!("{}<{}>", name, d);
            let bmf = BenchmarkFunction::resolve(&spec).unwrap();
            assert_eq!(bmf.name(), name);
            assert_eq!(bmf.dimension(), d);

            let spec_upper = format!("{}<{}>", name.to_uppercase(), d);
            let bmf_upper = BenchmarkFunction::resolve(&spec_upper).unwrap();
            assert_eq!(bmf_upper.name(), name);
            assert_eq!(bmf_upper.dimension(), d);
        }
    }
}

#[test]
fn family_names_is_the_fixed_catalog() {
    let names = family_names();
    assert_eq!(names.len(), 61);
    assert!(names.contains(&"sphere"));
    assert!(names.contains(&"rastrigin"));
    assert!(names.contains(&"schwefel_220"));
    assert!(names.contains(&"three_hump_camel"));
    assert!(names.contains(&"wolfe"));
}

#[test]
fn resolve_keeps_specific_names_apart() {
    let bmf = BenchmarkFunction::resolve("schwefel<4>").unwrap();
    assert_eq!(bmf.name(), "schwefel");
    let bmf = BenchmarkFunction::resolve("schwefel_223<4>").unwrap();
    assert_eq!(bmf.name(), "schwefel_223");
    let bmf = BenchmarkFunction::resolve("ackley_n4<4>").unwrap();
    assert_eq!(bmf.name(), "ackley_n4");
}

#[test]
fn resolve_accepts_dimension_zero() {
    // The parser accepts any non-negative integer; `0` is not rejected.
    let bmf = BenchmarkFunction::resolve("sphere<0>").unwrap();
    assert_eq!(bmf.dimension(), 0);
}

#[test]
fn resolve_ignores_trailing_text() {
    // Everything after the dimension segment is discarded, and the closing
    // `>` itself is not required.
    let bmf = BenchmarkFunction::resolve("sphere<20").unwrap();
    assert_eq!(bmf.name(), "sphere");
    assert_eq!(bmf.dimension(), 20);

    let bmf = BenchmarkFunction::resolve("sphere<5>junk").unwrap();
    assert_eq!(bmf.dimension(), 5);

    let bmf = BenchmarkFunction::resolve("sphere<1<2>").unwrap();
    assert_eq!(bmf.dimension(), 1);
}

#[test]
fn resolve_rejects_bad_shapes() {
    assert!(matches!(
        BenchmarkFunction::resolve(""),
        Err(ParseError::MalformedSpec)
    ));
    assert!(matches!(
        BenchmarkFunction::resolve("sphere<>"),
        Err(ParseError::MalformedSpec)
    ));
    assert!(matches!(
        BenchmarkFunction::resolve("sphere<3x>"),
        Err(ParseError::MalformedSpec)
    ));
    assert!(matches!(
        BenchmarkFunction::resolve("sphere<+3>"),
        Err(ParseError::MalformedSpec)
    ));
    assert!(matches!(
        BenchmarkFunction::resolve("sphere<-3>"),
        Err(ParseError::MalformedSpec)
    ));
    // A dimension beyond usize is rejected rather than wrapped.
    assert!(matches!(
        BenchmarkFunction::resolve("sphere<99999999999999999999999>"),
        Err(ParseError::MalformedSpec)
    ));
}

#[test]
fn resolve_reports_the_empty_name() {
    let err = BenchmarkFunction::resolve("<3>").unwrap_err();
    match err {
        ParseError::UnknownFunction(name) => assert_eq!(name, ""),
        ParseError::MalformedSpec => panic!("expected UnknownFunction"),
    }
}

#[test]
fn resolve_reports_the_name_as_written() {
    let err = BenchmarkFunction::resolve("NoSuchFn<2>").unwrap_err();
    match err {
        ParseError::UnknownFunction(name) => assert_eq!(name, "NoSuchFn"),
        ParseError::MalformedSpec => panic!("expected UnknownFunction"),
    }
}

#[test]
fn resolved_values_are_cloneable() {
    let bmf = BenchmarkFunction::resolve("rastrigin<20>").unwrap();
    let copy = bmf.clone();
    assert_eq!(copy.name(), "rastrigin");
    assert_eq!(copy.dimension(), 20);
}
