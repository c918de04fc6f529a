use cedar_ffi::{
    diagnostic_from_issue, diagnostics_from_errors, diagnostics_from_issues,
    diagnostics_from_messages, diagnostics_from_schema_failure, labels_from_source, Diagnostic,
    EngineDiagnostic, EngineError, EngineSeverity, LabeledSpan, Labels, RawString, RawVec,
    SchemaFailure, Severity, SourceLabel, ValidationIssue,
};

#[test]
fn labeled_span_holds_its_parts() {
    let s = LabeledSpan::new(RawString::from_string(String::from("here")), 4, 2);
    assert_eq!(s.text.as_str(), "here");
    assert_eq!(s.offset, 4);
    assert_eq!(s.len, 2);
}

#[test]
fn severity_levels_are_ordered() {
    assert_eq!(Severity::Unset.level(), 0);
    assert_eq!(Severity::Advice.level(), 1);
    assert_eq!(Severity::Warning.level(), 2);
    assert_eq!(Severity::Error.level(), 3);
    assert!(Severity::Advice.level() < Severity::Error.level());
}

#[test]
fn severity_from_engine() {
    assert_eq!(Severity::from_engine(None), Severity::Unset);
    assert_eq!(Severity::from_engine(Some(EngineSeverity::Advice)), Severity::Advice);
    assert_eq!(Severity::from_engine(Some(EngineSeverity::Warning)), Severity::Warning);
    assert_eq!(Severity::from_engine(Some(EngineSeverity::Error)), Severity::Error);
}

#[test]
fn new_diagnostic_has_empty_text_fields() {
    let labels: Labels = RawVec::from_vec(vec![LabeledSpan::new(RawString::empty(), 1, 3)]);
    let d = Diagnostic::new(labels, Severity::Warning);
    assert_eq!(d.code.as_str(), "");
    assert_eq!(d.help.as_str(), "");
    assert_eq!(d.url.as_str(), "");
    assert_eq!(d.severity, Severity::Warning);
    assert_eq!(d.labels.len(), 1);
    assert_eq!(d.labels.as_slice()[0].offset, 1);
    assert_eq!(d.labels.as_slice()[0].len, 3);
}

#[test]
fn message_diagnostic_shape() {
    let d = Diagnostic::from_str(String::from("bad input"));
    assert_eq!(d.code.as_str(), "bad input");
    assert_eq!(d.severity, Severity::Error);
    assert_eq!(d.labels.len(), 1);
    let l = &d.labels.as_slice()[0];
    assert_eq!(l.text.as_str(), "");
    assert_eq!((l.offset, l.len), (0, 0));
    assert_eq!(d.help.as_str(), "");
    assert_eq!(d.url.as_str(), "");
}

#[test]
fn structured_engine_diagnostic_maps_field_by_field() {
    let d = EngineDiagnostic {
        code: Some(String::from("E1")),
        labels: Some(vec![
            SourceLabel { label: Some(String::from("here")), offset: 3, len: 5 },
            SourceLabel { label: None, offset: 9, len: 1 },
        ]),
        severity: Some(EngineSeverity::Warning),
        help: Some(String::from("try this")),
        url: Some(String::from("https://example.com/e1")),
    };
    let w = Diagnostic::from_engine(&d);
    assert_eq!(w.code.as_str(), "E1");
    assert_eq!(w.severity, Severity::Warning);
    assert_eq!(w.help.as_str(), "try this");
    assert_eq!(w.url.as_str(), "https://example.com/e1");
    let ls = w.labels.as_slice();
    assert_eq!(ls.len(), 2);
    assert_eq!((ls[0].text.as_str(), ls[0].offset, ls[0].len), ("here", 3, 5));
    assert_eq!((ls[1].text.as_str(), ls[1].offset, ls[1].len), ("", 9, 1));
}

#[test]
fn bare_engine_diagnostic_is_empty() {
    let d = EngineDiagnostic { code: None, labels: None, severity: None, help: None, url: None };
    let w = Diagnostic::from_engine(&d);
    assert_eq!(w.code.as_str(), "");
    assert_eq!(w.labels.len(), 0);
    assert_eq!(w.severity, Severity::Unset);
    assert_eq!(w.help.as_str(), "");
    assert_eq!(w.url.as_str(), "");
    assert_eq!(labels_from_source(&None).len(), 0);
}

#[test]
fn engine_errors_are_not_merged() {
    let es = vec![
        EngineError::Message(String::from("first")),
        EngineError::Structured(EngineDiagnostic {
            code: Some(String::from("E2")),
            labels: None,
            severity: Some(EngineSeverity::Error),
            help: None,
            url: None,
        }),
        EngineError::Message(String::from("third")),
    ];
    let d = diagnostics_from_errors(&es);
    let codes: Vec<&str> = d.as_slice().iter().map(|x| x.code.as_str()).collect();
    assert_eq!(codes, vec!["first", "E2", "third"]);
}

#[test]
fn messages_become_error_diagnostics() {
    let d = diagnostics_from_messages(&vec![String::from("a"), String::from("b")]);
    assert_eq!(d.len(), 2);
    assert!(d.as_slice().iter().all(|x| x.severity == Severity::Error));
    assert_eq!(d.as_slice()[1].code.as_str(), "b");
}

#[test]
fn schema_parse_failures_are_flattened() {
    let kinds = vec![
        SchemaFailure::EntityTypeParse(vec![String::from("first"), String::from("second")]),
        SchemaFailure::NamespaceParse(vec![String::from("first"), String::from("second")]),
        SchemaFailure::CommonTypeParse(vec![String::from("first"), String::from("second")]),
        SchemaFailure::ExtensionTypeParse(vec![String::from("first"), String::from("second")]),
    ];
    for f in &kinds {
        let d = diagnostics_from_schema_failure(f);
        let codes: Vec<&str> = d.as_slice().iter().map(|x| x.code.as_str()).collect();
        assert_eq!(codes, vec!["first", "second"]);
        assert!(d.as_slice().iter().all(|x| x.severity == Severity::Error));
    }
}

#[test]
fn other_schema_failure_is_one_message() {
    let d = diagnostics_from_schema_failure(&SchemaFailure::Other(String::from("cycle")));
    assert_eq!(d.len(), 1);
    assert_eq!(d.as_slice()[0].code.as_str(), "cycle");
}

#[test]
fn validation_issue_with_range() {
    let d = diagnostic_from_issue(&ValidationIssue {
        message: String::from("unknown type"),
        range: Some((10, 25)),
    });
    assert_eq!(d.severity, Severity::Error);
    assert_eq!(d.code.as_str(), "");
    let l = &d.labels.as_slice()[0];
    assert_eq!((l.text.as_str(), l.offset, l.len), ("unknown type", 10, 15));
}

#[test]
fn validation_issue_without_range() {
    let ds = diagnostics_from_issues(&vec![ValidationIssue { message: String::from("m"), range: None }]);
    assert_eq!(ds.len(), 1);
    let l = &ds.as_slice()[0].labels.as_slice()[0];
    assert_eq!((l.text.as_str(), l.offset, l.len), ("m", 0, 0));
}
