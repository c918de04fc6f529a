use cedar_ffi::{
    free_diagnostics, free_string, free_raw_strings, Diagnostic, Diagnostics, RawString, RawStrings,
    RawVec,
};

#[test]
fn empty_string_is_empty() {
    let s = RawString::empty();
    assert_eq!(s.as_str(), "");
    assert_eq!(s.data.capacity(), 0);
    free_string(s);
}

#[test]
fn string_keeps_its_characters() {
    let owned = String::from("héllo wörld");
    let cap = owned.capacity();
    let s = RawString::from_string(owned);
    assert_eq!(s.as_str(), "héllo wörld");
    assert_eq!(s.data.capacity(), cap);
    let back = s.into_string();
    assert_eq!(back, "héllo wörld");
}

#[test]
fn string_from_option() {
    assert_eq!(RawString::from_option(None).as_str(), "");
    assert_eq!(RawString::from_option(Some(String::from("x"))).as_str(), "x");
}

#[test]
fn vector_keeps_its_elements() {
    let v: Vec<RawString> = vec![
        RawString::from_string(String::from("a")),
        RawString::from_string(String::from("bc")),
    ];
    let raw: RawStrings = RawVec::from_vec(v);
    assert_eq!(raw.len(), 2);
    let items: Vec<&str> = raw.as_slice().iter().map(|s| s.as_str()).collect();
    assert_eq!(items, vec!["a", "bc"]);
    free_raw_strings(raw);
}

#[test]
fn empty_vector_is_empty() {
    let d: Diagnostics = RawVec::empty();
    assert_eq!(d.len(), 0);
    assert!(d.as_slice().is_empty());
    free_diagnostics(d);
}

#[test]
fn vector_round_trip_gives_same_vector() {
    let d: Diagnostics = RawVec::from_vec(vec![Diagnostic::from_str(String::from("m"))]);
    let v = d.into_vec();
    assert_eq!(v.len(), 1);
    assert_eq!(v[0].code.as_str(), "m");
}
