use crate::raw_string::{RawString, RawVec};
use vstd::prelude::*;

verus! {

/// A stretch of the caller's source text, with an optional label.
pub struct LabeledSpan {
    pub text: RawString,
    pub offset: usize,
    pub len: usize,
}

impl View for LabeledSpan {
    type V = (Seq<char>, usize, usize);

    open spec fn view(&self) -> (Seq<char>, usize, usize) {
        (self.text@, self.offset, self.len)
    }
}

impl LabeledSpan {
    pub fn new(text: RawString, offset: usize, len: usize) -> (r: LabeledSpan)
        ensures
            r@ == (text@, offset, len),
    {
        LabeledSpan { text: text, offset: offset, len: len }
    }

    /// The span of an engine label; a label without text gets the empty text.
    pub fn from_source(l: &SourceLabel) -> (r: LabeledSpan)
        ensures
            r@ == source_span(*l),
    {
        let text = match &l.label {
            None => RawString::empty(),
            Some(s) => RawString::from_string(s.clone()),
        };
        LabeledSpan { text: text, offset: l.offset, len: l.len }
    }
}

/// How serious a diagnostic is, from `Unset` up to `Error`.
#[derive(Clone, Copy, Debug, PartialEq, Eq, Structural)]
pub enum Severity {
    Unset,
    Advice,
    Warning,
    Error,
}

impl Severity {
    pub open spec fn rank(self) -> nat {
        match self {
            Severity::Unset => 0,
            Severity::Advice => 1,
            Severity::Warning => 2,
            Severity::Error => 3,
        }
    }

    /// The position of the level in the order Unset < Advice < Warning < Error.
    pub fn level(&self) -> (r: u8)
        ensures
            r as nat == self.rank(),
    {
        match self {
            Severity::Unset => 0,
            Severity::Advice => 1,
            Severity::Warning => 2,
            Severity::Error => 3,
        }
    }

    /// The level of an engine severity; `Unset` where the engine gives none.
    pub fn from_engine(s: Option<EngineSeverity>) -> (r: Severity)
        ensures
            r == severity_of(s),
    {
        match s {
            None => Severity::Unset,
            Some(EngineSeverity::Advice) => Severity::Advice,
            Some(EngineSeverity::Warning) => Severity::Warning,
            Some(EngineSeverity::Error) => Severity::Error,
        }
    }
}

pub type Labels = RawVec<LabeledSpan>;

/// Releases a list of spans that was handed out, with their texts.
pub fn free_labels(l: Labels) {
    let _owned: Vec<LabeledSpan> = l.into_vec();
}

/// One reported problem, in a form the caller can read and must release.
pub struct Diagnostic {
    pub code: RawString,
    pub labels: Labels,
    pub severity: Severity,
    pub help: RawString,
    pub url: RawString,
}

/// What a diagnostic holds, as values.
pub struct DiagnosticView {
    pub code: Seq<char>,
    pub labels: Seq<(Seq<char>, usize, usize)>,
    pub severity: Severity,
    pub help: Seq<char>,
    pub url: Seq<char>,
}

impl View for Diagnostic {
    type V = DiagnosticView;

    open spec fn view(&self) -> DiagnosticView {
        DiagnosticView {
            code: self.code@,
            labels: self.labels@,
            severity: self.severity,
            help: self.help@,
            url: self.url@,
        }
    }
}

pub type Diagnostics = RawVec<Diagnostic>;

/// Releases a diagnostics list that was handed out, with everything in it.
pub fn free_diagnostics(d: Diagnostics) {
    let _owned: Vec<Diagnostic> = d.into_vec();
}

/// The diagnostic that reports a plain message: the message is the code, and
/// the one span is unlabeled and empty.
pub open spec fn message_view(m: Seq<char>) -> DiagnosticView {
    DiagnosticView {
        code: m,
        labels: seq![(Seq::<char>::empty(), 0usize, 0usize)],
        severity: Severity::Error,
        help: Seq::<char>::empty(),
        url: Seq::<char>::empty(),
    }
}

/// The diagnostics for a list of plain messages, one each, in order.
pub open spec fn messages_view(ms: Seq<Seq<char>>) -> Seq<DiagnosticView> {
    ms.map_values(|m: Seq<char>| message_view(m))
}

/// Every diagnostic that reports a plain message is an error.
pub proof fn lemma_messages_are_errors(ms: Seq<Seq<char>>)
    ensures
        forall|k: int|
            0 <= k < messages_view(ms).len() ==> #[trigger] messages_view(ms)[k].severity
                == Severity::Error,
{
    assert forall|k: int| 0 <= k < messages_view(ms).len() implies #[trigger] messages_view(
        ms,
    )[k].severity == Severity::Error by {
        assert(messages_view(ms)[k] == message_view(ms[k]));
    }
}

/// The characters of a list of strings.
pub open spec fn strings_view(v: Seq<String>) -> Seq<Seq<char>> {
    v.map_values(|s: String| s@)
}

impl Diagnostic {
    /// A diagnostic with the given spans and severity, and no code, help or url.
    pub fn new(labels: Labels, severity: Severity) -> (r: Diagnostic)
        ensures
            r@ == (DiagnosticView {
                code: Seq::<char>::empty(),
                labels: labels@,
                severity: severity,
                help: Seq::<char>::empty(),
                url: Seq::<char>::empty(),
            }),
    {
        Diagnostic {
            code: RawString::empty(),
            labels: labels,
            severity: severity,
            help: RawString::empty(),
            url: RawString::empty(),
        }
    }

    /// The error diagnostic that carries a plain message.
    pub fn from_str(s: String) -> (r: Diagnostic)
        ensures
            r@ == message_view(s@),
    {
        let span = LabeledSpan::new(RawString::empty(), 0, 0);
        let labels = RawVec::from_vec(vec![span]);
        let r = Diagnostic {
            code: RawString::from_string(s),
            labels: labels,
            severity: Severity::Error,
            help: RawString::empty(),
            url: RawString::empty(),
        };
        assert(r@.labels =~= message_view(s@).labels);
        r
    }

    /// The wire form of a structured engine diagnostic.
    pub fn from_engine(d: &EngineDiagnostic) -> (r: Diagnostic)
        ensures
            r@ == engine_view(*d),
    {
        let code = RawString::from_option(d.code.clone());
        let labels = labels_from_source(&d.labels);
        let help = RawString::from_option(d.help.clone());
        let url = RawString::from_option(d.url.clone());
        Diagnostic {
            code: code,
            labels: labels,
            severity: Severity::from_engine(d.severity),
            help: help,
            url: url,
        }
    }
}

/// The severity levels an engine can attach to a diagnostic.
#[derive(Clone, Copy, Debug, PartialEq, Eq, Structural)]
pub enum EngineSeverity {
    Advice,
    Warning,
    Error,
}

/// A source span as the engine reports it.
pub struct SourceLabel {
    pub label: Option<String>,
    pub offset: usize,
    pub len: usize,
}

/// A structured diagnostic as the engine reports it: every part is optional.
pub struct EngineDiagnostic {
    pub code: Option<String>,
    pub labels: Option<Vec<SourceLabel>>,
    pub severity: Option<EngineSeverity>,
    pub help: Option<String>,
    pub url: Option<String>,
}

/// An error of the engine: structured, or a bare message.
pub enum EngineError {
    Structured(EngineDiagnostic),
    Message(String),
}

pub open spec fn opt_text(o: Option<String>) -> Seq<char> {
    match o {
        None => Seq::<char>::empty(),
        Some(s) => s@,
    }
}

pub open spec fn severity_of(s: Option<EngineSeverity>) -> Severity {
    match s {
        None => Severity::Unset,
        Some(EngineSeverity::Advice) => Severity::Advice,
        Some(EngineSeverity::Warning) => Severity::Warning,
        Some(EngineSeverity::Error) => Severity::Error,
    }
}

pub open spec fn source_span(l: SourceLabel) -> (Seq<char>, usize, usize) {
    (opt_text(l.label), l.offset, l.len)
}

pub open spec fn source_spans(ls: Option<Vec<SourceLabel>>) -> Seq<(Seq<char>, usize, usize)> {
    match ls {
        None => Seq::empty(),
        Some(v) => v@.map_values(|l: SourceLabel| source_span(l)),
    }
}

/// The wire diagnostic of a structured engine diagnostic, field by field.
pub open spec fn engine_view(d: EngineDiagnostic) -> DiagnosticView {
    DiagnosticView {
        code: opt_text(d.code),
        labels: source_spans(d.labels),
        severity: severity_of(d.severity),
        help: opt_text(d.help),
        url: opt_text(d.url),
    }
}

pub open spec fn error_view(e: EngineError) -> DiagnosticView {
    match e {
        EngineError::Structured(d) => engine_view(d),
        EngineError::Message(m) => message_view(m@),
    }
}

/// One span for each engine label, in order; none when the engine gives none.
pub fn labels_from_source(ls: &Option<Vec<SourceLabel>>) -> (r: Labels)
    ensures
        r@ == source_spans(*ls),
{
    match ls {
        None => {
            let r = Labels::empty();
            r
        },
        Some(v) => {
            let mut out: Vec<LabeledSpan> = Vec::new();
            let mut i: usize = 0;
            while i < v.len()
                invariant
                    i <= v@.len(),
                    out@.len() == i,
                    forall|j: int| 0 <= j < i ==> #[trigger] out@[j]@ == source_span(v@[j]),
                decreases v@.len() - i,
            {
                out.push(LabeledSpan::from_source(&v[i]));
                i = i + 1;
            }
            let r = RawVec::from_vec(out);
            assert(r@ =~= source_spans(*ls));
            r
        },
    }
}

/// One diagnostic per message, in order, each an error carrying the message.
pub fn diagnostics_from_messages(ms: &Vec<String>) -> (r: Diagnostics)
    ensures
        r@ == messages_view(strings_view(ms@)),
{
    let mut out: Vec<Diagnostic> = Vec::new();
    let mut i: usize = 0;
    while i < ms.len()
        invariant
            i <= ms@.len(),
            out@.len() == i,
            forall|j: int| 0 <= j < i ==> #[trigger] out@[j]@ == message_view(ms@[j]@),
        decreases ms@.len() - i,
    {
        out.push(Diagnostic::from_str(ms[i].clone()));
        i = i + 1;
    }
    let r = RawVec::from_vec(out);
    assert(r@ =~= messages_view(strings_view(ms@)));
    r
}

/// One diagnostic per engine error, in order and not merged.
pub fn diagnostics_from_errors(es: &Vec<EngineError>) -> (r: Diagnostics)
    ensures
        r@ == es@.map_values(|e: EngineError| error_view(e)),
{
    let mut out: Vec<Diagnostic> = Vec::new();
    let mut i: usize = 0;
    while i < es.len()
        invariant
            i <= es@.len(),
            out@.len() == i,
            forall|j: int| 0 <= j < i ==> #[trigger] out@[j]@ == error_view(es@[j]),
        decreases es@.len() - i,
    {
        let d = match &es[i] {
            EngineError::Structured(d) => Diagnostic::from_engine(d),
            EngineError::Message(m) => Diagnostic::from_str(m.clone()),
        };
        out.push(d);
        i = i + 1;
    }
    let r = RawVec::from_vec(out);
    assert(r@ =~= es@.map_values(|e: EngineError| error_view(e)));
    r
}

} // verus!
