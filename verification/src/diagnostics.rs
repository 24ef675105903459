//! Diagnostics: what is reported to the user about a place in the source.

use vstd::prelude::*;

verus! {

/// A range of bytes in the source, from `start` up to `end`.
#[derive(Clone, Copy, Debug, PartialEq, Eq, Structural)]
pub struct ByteSpan {
    pub start: u32,
    pub end: u32,
}

impl ByteSpan {
    /// The range from `start` up to `end`.
    pub fn new(start: u32, end: u32) -> (span: ByteSpan)
        ensures
            span == (ByteSpan { start, end }),
    {
        ByteSpan { start, end }
    }
}

/// How grave a diagnostic is.
#[derive(Clone, Copy, Debug, PartialEq, Eq, Structural)]
pub enum Severity {
    Bug,
    Error,
    Warning,
    Note,
    Help,
}

/// Whether a label marks the cause of a diagnostic or something related.
#[derive(Clone, Copy, Debug, PartialEq, Eq, Structural)]
pub enum LabelStyle {
    Primary,
    Secondary,
}

/// Mathematical value of a label.
pub struct LabelView {
    pub span: ByteSpan,
    pub message: Option<Seq<char>>,
    pub style: LabelStyle,
}

/// A place in the source with an optional remark on it.
#[derive(Debug, PartialEq, Eq)]
pub struct Label {
    pub span: ByteSpan,
    pub message: Option<String>,
    pub style: LabelStyle,
}

impl View for Label {
    type V = LabelView;

    open spec fn view(&self) -> LabelView {
        LabelView {
            span: self.span,
            message: match self.message {
                Some(message) => Some(message@),
                None => None,
            },
            style: self.style,
        }
    }
}

/// The values of a sequence of labels.
pub open spec fn label_views(labels: Seq<Label>) -> Seq<LabelView> {
    Seq::new(labels.len(), |i: int| labels[i]@)
}

impl Label {
    /// A label without a remark that marks the cause.
    pub fn new_primary(span: ByteSpan) -> (label: Label)
        ensures
            label@ == (LabelView { span, message: None, style: LabelStyle::Primary }),
    {
        Label { span, message: None, style: LabelStyle::Primary }
    }

    /// A label without a remark that marks something related.
    pub fn new_secondary(span: ByteSpan) -> (label: Label)
        ensures
            label@ == (LabelView { span, message: None, style: LabelStyle::Secondary }),
    {
        Label { span, message: None, style: LabelStyle::Secondary }
    }

    /// This label with `message` as its remark.
    pub fn with_message(self, message: String) -> (label: Label)
        ensures
            label@ == (LabelView { message: Some(message@), ..self@ }),
    {
        Label { span: self.span, message: Some(message), style: self.style }
    }

    /// A copy of this label.
    pub fn duplicate(&self) -> (copy: Label)
        ensures
            copy@ == self@,
    {
        let message = match &self.message {
            Some(message) => Some(message.clone()),
            None => None,
        };
        Label { span: self.span, message, style: self.style }
    }
}

/// Mathematical value of a diagnostic.
pub struct DiagnosticView {
    pub severity: Severity,
    pub code: Option<Seq<char>>,
    pub message: Seq<char>,
    pub labels: Seq<LabelView>,
}

/// A message to the user, with the places in the source that it is about.
#[derive(Debug, PartialEq, Eq)]
pub struct Diagnostic {
    pub severity: Severity,
    pub code: Option<String>,
    pub message: String,
    pub labels: Vec<Label>,
}

impl View for Diagnostic {
    type V = DiagnosticView;

    open spec fn view(&self) -> DiagnosticView {
        DiagnosticView {
            severity: self.severity,
            code: match self.code {
                Some(code) => Some(code@),
                None => None,
            },
            message: self.message@,
            labels: label_views(self.labels@),
        }
    }
}

impl DiagnosticView {
    /// An error with the given message, without code or labels.
    pub open spec fn error(message: Seq<char>) -> DiagnosticView {
        DiagnosticView { severity: Severity::Error, code: None, message, labels: Seq::empty() }
    }

    /// This diagnostic with one more label at the end.
    pub open spec fn with_label(self, label: LabelView) -> DiagnosticView {
        DiagnosticView { labels: self.labels.push(label), ..self }
    }
}

impl Diagnostic {
    /// An error with the given message, without code or labels.
    pub fn new_error(message: String) -> (diagnostic: Diagnostic)
        ensures
            diagnostic@ == DiagnosticView::error(message@),
    {
        let diagnostic = Diagnostic {
            severity: Severity::Error,
            code: None,
            message,
            labels: Vec::new(),
        };
        assert(diagnostic@.labels =~= Seq::<LabelView>::empty());
        diagnostic
    }

    /// This diagnostic with `label` added behind its labels.
    pub fn with_label(self, label: Label) -> (diagnostic: Diagnostic)
        ensures
            diagnostic@ == self@.with_label(label@),
    {
        let mut diagnostic = self;
        diagnostic.labels.push(label);
        assert(diagnostic@.labels =~= self@.labels.push(label@));
        diagnostic
    }

    /// A copy of this diagnostic.
    pub fn duplicate(&self) -> (copy: Diagnostic)
        ensures
            copy@ == self@,
    {
        let code = match &self.code {
            Some(code) => Some(code.clone()),
            None => None,
        };
        let mut labels: Vec<Label> = Vec::new();
        let mut i: usize = 0;
        while i < self.labels.len()
            invariant
                i <= self.labels.len(),
                labels.len() == i,
                forall|j: int| 0 <= j < i ==> labels@[j]@ == self.labels@[j]@,
            decreases self.labels.len() - i,
        {
            labels.push(self.labels[i].duplicate());
            i += 1;
        }
        let copy = Diagnostic { severity: self.severity, code, message: self.message.clone(), labels };
        assert(copy@.labels =~= self@.labels);
        copy
    }
}

} // verus!
