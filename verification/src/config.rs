//! The configuration a resolver consults, and the errors that loading a
//! layout can end in, with how each is worded for the user.
//!
//! A diagnostic on a source text is drawn by `miette`. What it draws depends
//! on the terminal and the environment, so nothing is claimed of the drawing;
//! what is proved is what goes into it.

use crate::text::{concat, str_eq};
use vstd::prelude::*;
use vstd::string::StringSliceAdditionalSpecFns;
use vstd::utf8::{encode_utf8, is_char_boundary};

verus! {

/// The options of a configuration that bear on resolving commands.
#[derive(Clone, Debug, Default)]
pub struct Options {
    /// The directory that layouts are looked up in.
    pub layout_dir: Option<String>,
}

/// A loaded configuration.
#[derive(Clone, Debug, Default)]
pub struct Config {
    pub options: Options,
}

/// A source text and the name it goes by in diagnostics.
#[derive(Clone, Debug)]
pub struct NamedSource {
    pub name: String,
    pub source: String,
}

/// A remark attached to a range of bytes of a source text.
#[derive(Clone, Debug)]
pub struct Label {
    pub text: String,
    pub offset: usize,
    pub len: usize,
}

/// The mathematical value of a [`Label`].
pub struct LabelView {
    pub text: Seq<char>,
    pub offset: usize,
    pub len: usize,
}

impl View for Label {
    type V = LabelView;

    open spec fn view(&self) -> LabelView {
        LabelView { text: self.text@, offset: self.offset, len: self.len }
    }
}

impl DeepView for Label {
    type V = LabelView;

    open spec fn deep_view(&self) -> LabelView {
        self@
    }
}

impl LabelView {
    /// Whether the range of the label begins and ends between two characters
    /// of the text whose UTF-8 encoding is `source`, so that it can be shown
    /// in it.
    pub open spec fn fits(self, source: Seq<u8>) -> bool {
        &&& self.offset + self.len <= usize::MAX
        &&& is_char_boundary(source, self.offset as int)
        &&& is_char_boundary(source, self.offset + self.len)
    }
}

/// What goes wrong in a layout or configuration text, with the place it goes
/// wrong at.
#[derive(Clone, Debug)]
pub struct KdlDiagnostic {
    /// What is wrong; shown at the offending range.
    pub error_message: String,
    /// The text the error was found in.
    pub src: Option<NamedSource>,
    /// Where the offending range begins, in bytes.
    pub offset: Option<usize>,
    /// How many bytes the offending range covers.
    pub len: Option<usize>,
    /// Advice on how to mend it.
    pub help_message: Option<String>,
}

/// What the parser of the layout language reports when a text is not in the
/// language.
#[derive(Clone, Debug)]
pub struct KdlDeserializationError {
    /// The failure in the parser's own words.
    pub message: String,
    /// The component that the parser expected, where it names one.
    pub context: Option<String>,
    /// The parser's advice, where it has any.
    pub help: Option<String>,
    /// Where the offending range begins, in bytes.
    pub offset: usize,
    /// How many bytes the offending range covers.
    pub len: usize,
}

/// The mathematical value of a [`KdlDiagnostic`]; the source is its name and
/// its text.
pub struct KdlDiagnosticView {
    pub error_message: Seq<char>,
    pub src: Option<(Seq<char>, Seq<char>)>,
    pub offset: Option<usize>,
    pub len: Option<usize>,
    pub help_message: Option<Seq<char>>,
}

impl View for KdlDiagnostic {
    type V = KdlDiagnosticView;

    open spec fn view(&self) -> KdlDiagnosticView {
        KdlDiagnosticView {
            error_message: self.error_message@,
            src: match self.src {
                Some(src) => Some((src.name@, src.source@)),
                None => None,
            },
            offset: self.offset,
            len: self.len,
            help_message: self.help_message.deep_view(),
        }
    }
}

/// The error of the `kdl` parser, carried through as it is.
#[verifier::external_type_specification]
#[verifier::external_body]
pub struct ExKdlError(kdl::KdlError);

/// Takes from a `kdl::KdlError` what is read of it here: its text, the
/// context of its kind where the kind has one, its help, and the offset and
/// length of its span.
/// Trusted: that the call returns; nothing is claimed of what it returns.
#[verifier::external_body]
fn kdl_error_parts(error: &kdl::KdlError) -> (r: KdlDeserializationError) {
    KdlDeserializationError {
        message: error.to_string(),
        context: match &error.kind {
            kdl::KdlErrorKind::Context(context) => Some(context.to_string()),
            kdl::KdlErrorKind::ParseIntError(_) => None,
            kdl::KdlErrorKind::ParseFloatError(_) => None,
            kdl::KdlErrorKind::Other => None,
        },
        help: error.help.map(|help| help.to_string()),
        offset: error.span.offset(),
        len: error.span.len(),
    }
}

/// The ways in which loading a layout or a configuration fails.
#[derive(Clone, Debug)]
pub enum ConfigError {
    /// The text is not in the layout language.
    KdlDeserializationError(KdlDeserializationError),
    /// The text is in the language but does not describe what it should.
    KdlDiagnostic(KdlDiagnostic),
    /// A file could not be read: the reason and the file.
    IoPath(String, String),
    /// Any other failure, in words.
    Other(String),
}

/// The line that heads every drawn diagnostic.
pub const HEADLINE: &'static str = "Failed to parse Zellij configuration";

/// The advice given where an error brings none.
pub const DEFAULT_HELP: &'static str =
    "For more information, please see our configuration guide: \
    https://zellij.dev/documentation/configuration.html";

/// The component whose absence most often means that a node was not ended
/// or an argument was not written as the language wants it.
pub const TERMINATOR_CONTEXT: &'static str = "valid node terminator";

/// The explanation given for a missing node terminator.
pub const TERMINATOR_MESSAGE: &'static str = "Failed to deserialize KDL node. \nPossible reasons:\n\
    - Missing `;` after a node name, eg. { node; another_node; }\n\
    - Missing quotations (\") around an argument node eg. { first_node \"argument_node\"; }\n\
    - Missing an equal sign (=) between node arguments on a title line. eg. argument=\"value\"\n\
    - Found an extraneous equal sign (=) between node child arguments and their values. \
    eg. { argument=\"value\" }";

/// The explanation given where the parser has no advice.
pub const GENERIC_MESSAGE: &'static str = "Kdl Deserialization Error";

impl KdlDeserializationError {
    /// What is said of the failure at the place it occurred: the list of
    /// likely mistakes where the parser missed a node terminator, else the
    /// parser's advice, else a general remark.
    pub open spec fn explained(self) -> Seq<char> {
        if self.context.deep_view() == Some(TERMINATOR_CONTEXT@) {
            TERMINATOR_MESSAGE@
        } else {
            match self.help {
                Some(help) => help@,
                None => GENERIC_MESSAGE@,
            }
        }
    }

    /// What is said of the failure at the place it occurred.
    pub fn explain(&self) -> (r: String)
        ensures
            r@ == self.explained(),
    {
        let missing_terminator = match &self.context {
            Some(context) => str_eq(context.as_str(), TERMINATOR_CONTEXT),
            None => false,
        };
        if missing_terminator {
            String::from_str(TERMINATOR_MESSAGE)
        } else {
            match &self.help {
                Some(help) => help.clone(),
                None => String::from_str(GENERIC_MESSAGE),
            }
        }
    }
}

impl KdlDiagnosticView {
    /// The same error, found in the text `source` that goes by the name
    /// `name`.
    pub open spec fn in_source(self, name: Seq<char>, source: Seq<char>) -> KdlDiagnosticView {
        KdlDiagnosticView { src: Some((name, source)), ..self }
    }

    /// The advice shown with the error: its own, or a pointer to the guide.
    pub open spec fn advice(self) -> Seq<char> {
        match self.help_message {
            Some(help) => help,
            None => DEFAULT_HELP@,
        }
    }

    /// The labels shown in the source text: the message of the error at its
    /// range, provided that the error has a source and a range, and that the
    /// range begins and ends between two characters of the source.
    pub open spec fn shown_labels(self) -> Seq<LabelView> {
        match (self.src, self.offset, self.len) {
            (Some(src), Some(offset), Some(len)) => {
                let label = LabelView { text: self.error_message, offset, len };
                if label.fits(encode_utf8(src.1)) {
                    seq![label]
                } else {
                    Seq::empty()
                }
            },
            _ => Seq::empty(),
        }
    }
}

impl KdlDeserializationError {
    /// The error that reports the failure in the text `source` that goes by
    /// the name `name`: the explanation of the failure, at the range the
    /// parser gave, with no further advice.
    pub open spec fn reported_in(self, name: Seq<char>, source: Seq<char>) -> KdlDiagnosticView {
        KdlDiagnosticView {
            error_message: self.explained(),
            src: Some((name, source)),
            offset: Some(self.offset),
            len: Some(self.len),
            help_message: None,
        }
    }
}

impl KdlDiagnostic {
    /// The same error, found in the text `src_input` that goes by the name
    /// `src_name`.
    pub fn add_src(self, src_name: String, src_input: String) -> (r: KdlDiagnostic)
        ensures
            r@ == self@.in_source(src_name@, src_input@),
    {
        KdlDiagnostic {
            error_message: self.error_message,
            src: Some(NamedSource { name: src_name, source: src_input }),
            offset: self.offset,
            len: self.len,
            help_message: self.help_message,
        }
    }

    /// The error that reports a parser failure in the text `src_input` that
    /// goes by the name `src_name`.
    pub fn from_deserialization(
        error: &KdlDeserializationError,
        src_name: String,
        src_input: String,
    ) -> (r: KdlDiagnostic)
        ensures
            r@ == error.reported_in(src_name@, src_input@),
    {
        KdlDiagnostic {
            error_message: error.explain(),
            src: Some(NamedSource { name: src_name, source: src_input }),
            offset: Some(error.offset),
            len: Some(error.len),
            help_message: None,
        }
    }

    /// The advice shown with the error.
    pub fn help(&self) -> (r: String)
        ensures
            r@ == self@.advice(),
    {
        match &self.help_message {
            Some(help) => help.clone(),
            None => String::from_str(DEFAULT_HELP),
        }
    }

    /// The labels shown in the source text.
    pub fn labels(&self) -> (r: Vec<Label>)
        ensures
            r.deep_view() == self@.shown_labels(),
    {
        let mut labels: Vec<Label> = Vec::new();
        match (&self.src, self.offset, self.len) {
            (Some(src), Some(offset), Some(len)) => {
                if len <= usize::MAX - offset {
                    let end: usize = offset + len;
                    let source = src.source.as_str();
                    if source.is_char_boundary(offset) && source.is_char_boundary(end) {
                        labels.push(Label { text: self.error_message.clone(), offset, len });
                    }
                }
            },
            _ => {},
        }
        assert(labels.deep_view() =~= self@.shown_labels());
        labels
    }

    /// The error drawn for the user: the headline, the source text around
    /// the labels of [`KdlDiagnosticView::shown_labels`], and the advice of
    /// [`KdlDiagnosticView::advice`]. The drawing is left to `miette`, and
    /// nothing is promised of the text that comes back.
    pub fn render(&self) -> (r: String) {
        let labels = self.labels();
        let help = self.help();
        assert(labels.deep_view().len() == labels@.len());
        match &self.src {
            Some(src) => {
                assert forall|i: int| 0 <= i < labels@.len() implies labels@[i]@.fits(
                    encode_utf8(src.source@),
                ) by {
                    assert(labels.deep_view()[i] == labels@[i]@);
                }
                render_report(
                    HEADLINE,
                    help.as_str(),
                    src.name.as_str(),
                    src.source.as_str(),
                    &labels,
                )
            },
            None => render_report(
                HEADLINE,
                help.as_str(),
                "",
                "",
                &labels,
            ),
        }
    }
}

/// Builds a `miette::MietteDiagnostic` with the given headline, advice and
/// labels, attaches the source text under its name, and formats the
/// `miette::Report` with `{:?}`.
/// Trusted: that the call returns. The drawing goes through the report
/// handler of the process and differs with the terminal and the environment,
/// so nothing is claimed of the text. A label whose range does not begin and
/// end between two characters of the source makes the formatting fail, so
/// such labels are left out by the precondition.
#[verifier::external_body]
pub(crate) fn render_report(
    headline: &str,
    help: &str,
    source_name: &str,
    source: &str,
    labels: &Vec<Label>,
) -> (r: String)
    requires
        forall|i: int| 0 <= i < labels@.len() ==> labels@[i]@.fits(source.spec_bytes()),
{
    let spans = labels.iter().map(
        |l| miette::LabeledSpan::new(Some(l.text.clone()), l.offset, l.len),
    );
    let diagnostic = miette::MietteDiagnostic::new(headline).with_help(help).with_labels(spans);
    let named = miette::NamedSource::new(source_name, source.to_string());
    format!("{:?}", miette::Report::new(diagnostic).with_source_code(named))
}

impl ConfigError {
    /// The error that stands for a failure of the `kdl` parser.
    pub fn from_kdl(error: &kdl::KdlError) -> (r: ConfigError)
        ensures
            r is KdlDeserializationError,
    {
        ConfigError::KdlDeserializationError(kdl_error_parts(error))
    }

    /// Whether the error is drawn on the source text rather than said in a
    /// sentence.
    pub open spec fn is_diagnostic(self) -> bool {
        self is KdlDiagnostic || self is KdlDeserializationError
    }

    /// The sentence that reports the error.
    pub open spec fn spec_message(self) -> Seq<char> {
        match self {
            ConfigError::KdlDeserializationError(e) => "Deserialization error: "@ + e.message@,
            ConfigError::KdlDiagnostic(_) => "KdlDeserialization error: "@ + HEADLINE@,
            ConfigError::IoPath(reason, file) => "IoError: "@ + reason@ + ", File: "@ + file@,
            ConfigError::Other(message) => message@,
        }
    }

    /// The sentence that reports the error.
    pub fn message(&self) -> (r: String)
        ensures
            r@ == self.spec_message(),
    {
        match self {
            ConfigError::KdlDeserializationError(e) => concat(
                "Deserialization error: ",
                e.message.as_str(),
            ),
            ConfigError::KdlDiagnostic(_) => concat(
                "KdlDeserialization error: ",
                HEADLINE,
            ),
            ConfigError::IoPath(reason, file) => {
                let head = concat("IoError: ", reason.as_str());
                let head = concat(head.as_str(), ", File: ");
                concat(head.as_str(), file.as_str())
            },
            ConfigError::Other(message) => message.clone(),
        }
    }

    /// The diagnostic that places the error in the text `source` that goes
    /// by the name `name`, for an error that has a place in a text; the
    /// sentence that reports the error, for any other.
    pub open spec fn spec_placed_in(self, name: Seq<char>, source: Seq<char>) -> Result<
        KdlDiagnosticView,
        Seq<char>,
    > {
        match self {
            ConfigError::KdlDiagnostic(error) => Ok(error@.in_source(name, source)),
            ConfigError::KdlDeserializationError(error) => Ok(error.reported_in(name, source)),
            _ => Err(self.spec_message()),
        }
    }

    /// Places the error in the layout at `layout_path`, whose text is
    /// `raw_layout`: the diagnostic to draw on that text, or the sentence
    /// that reports the error where it has no place in the text.
    pub fn placed_in(self, layout_path: &str, raw_layout: &str) -> (r: Result<
        KdlDiagnostic,
        String,
    >)
        ensures
            match r {
                Ok(error) => self.spec_placed_in(layout_path@, raw_layout@) == Ok::<
                    KdlDiagnosticView,
                    Seq<char>,
                >(error@),
                Err(message) => self.spec_placed_in(layout_path@, raw_layout@) == Err::<
                    KdlDiagnosticView,
                    Seq<char>,
                >(message@),
            },
    {
        match self {
            ConfigError::KdlDiagnostic(error) => Ok(
                error.add_src(layout_path.to_owned(), raw_layout.to_owned()),
            ),
            ConfigError::KdlDeserializationError(error) => Ok(
                KdlDiagnostic::from_deserialization(
                    &error,
                    layout_path.to_owned(),
                    raw_layout.to_owned(),
                ),
            ),
            other => Err(other.message()),
        }
    }

    /// The error as the user is shown it when the layout at `layout_path`,
    /// whose text is `raw_layout`, could not be understood: the diagnostic of
    /// [`ConfigError::placed_in`], drawn, or the sentence that reports the
    /// error.
    pub fn stringify(self, layout_path: &str, raw_layout: &str) -> (r: String)
        ensures
            !self.is_diagnostic() ==> r@ == self.spec_message(),
    {
        match self.placed_in(layout_path, raw_layout) {
            Ok(error) => error.render(),
            Err(message) => message,
        }
    }
}

} // verus!
