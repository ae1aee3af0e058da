//! The error that resolution and token building report.

use vstd::prelude::*;
use vstd::string::*;

verus! {

/// What an error without message and without source displays: the name of its type.
pub const TYPE_NAME: &'static str = "cylinder_cli::error::CliError";

/// What sets a prefix apart from the display of the source that follows it.
pub const PREFIX_SEPARATOR: &'static str = ": ";

/// What a [`CliError`] holds, as mathematical values.
pub struct CliErrorView {
    /// The text to display in place of the source, if one was given.
    pub message: Option<Seq<char>>,
    /// The error underneath, if there is one.
    pub source: Option<SourceView>,
}

/// The error underneath a [`CliError`], as mathematical values.
pub struct SourceView {
    /// The text to display before the source's own, if one was given.
    pub prefix: Option<Seq<char>>,
    /// The error underneath.
    pub source: Box<CliErrorView>,
}

impl CliErrorView {
    /// An error with neither message nor source.
    pub open spec fn empty() -> CliErrorView {
        CliErrorView { message: None, source: None }
    }

    /// An error with a message and no source.
    pub open spec fn with_message(message: Seq<char>) -> CliErrorView {
        CliErrorView { message: Some(message), source: None }
    }

    /// An error that passes the display of `source` through.
    pub open spec fn from_source(source: CliErrorView) -> CliErrorView {
        CliErrorView {
            message: None,
            source: Some(SourceView { prefix: None, source: Box::new(source) }),
        }
    }

    /// An error that keeps `source` and displays `message`.
    pub open spec fn from_source_with_message(
        source: CliErrorView,
        message: Seq<char>,
    ) -> CliErrorView {
        CliErrorView {
            message: Some(message),
            source: Some(SourceView { prefix: None, source: Box::new(source) }),
        }
    }

    /// An error that displays `prefix` before the display of `source`.
    pub open spec fn from_source_with_prefix(
        source: CliErrorView,
        prefix: Seq<char>,
    ) -> CliErrorView {
        CliErrorView {
            message: None,
            source: Some(SourceView { prefix: Some(prefix), source: Box::new(source) }),
        }
    }

    /// The error that stands for an error of which nothing is kept but what
    /// it displays and what the errors under it display, its own text first:
    /// it displays the first text, above the error that stands for the rest.
    /// With no text at all it is the error with neither message nor source.
    pub open spec fn from_displays(displays: Seq<Seq<char>>) -> CliErrorView
        decreases displays.len(),
    {
        if displays.len() == 0 {
            CliErrorView::empty()
        } else if displays.len() == 1 {
            CliErrorView::with_message(displays[0])
        } else {
            CliErrorView::from_source_with_message(
                CliErrorView::from_displays(displays.drop_first()),
                displays[0],
            )
        }
    }

    /// The text that the error displays. A message hides the source; without
    /// a message the source speaks, after its prefix if it has one; with
    /// neither, the text is the name of the type.
    pub open spec fn display(self) -> Seq<char>
        decreases self,
    {
        match self.message {
            Some(message) => message,
            None => match self.source {
                Some(under) => match under.prefix {
                    Some(prefix) => prefix + PREFIX_SEPARATOR@ + under.source.display(),
                    None => under.source.display(),
                },
                None => TYPE_NAME@,
            },
        }
    }

    /// The text that the error shows when formatted for debugging: the same
    /// as it displays.
    pub open spec fn debug(self) -> Seq<char> {
        self.display()
    }
}

/// The error underneath a [`CliError`].
struct Source {
    prefix: Option<String>,
    source: Box<CliError>,
}

/// An error which is returned for reasons internal to the function.
///
/// It is produced when the failure lies in a detail of how the function works,
/// so that nothing specific can be told the caller that would help to recover.
pub struct CliError {
    message: Option<String>,
    source: Option<Source>,
}

impl CliError {
    /// The mathematical value of the error.
    pub closed spec fn model(&self) -> CliErrorView
        decreases self,
    {
        CliErrorView {
            message: match self.message {
                Some(message) => Some(message@),
                None => None,
            },
            source: match self.source {
                Some(under) => Some(
                    SourceView {
                        prefix: match under.prefix {
                            Some(prefix) => Some(prefix@),
                            None => None,
                        },
                        source: Box::new(under.source.model()),
                    },
                ),
                None => None,
            },
        }
    }
}

impl View for CliError {
    type V = CliErrorView;

    open spec fn view(&self) -> CliErrorView {
        self.model()
    }
}

impl CliError {
    /// Constructs a new `CliError` from a specified source error.
    ///
    /// The error displays what the source displays, unmodified.
    pub fn from_source(source: Box<CliError>) -> (error: Self)
        ensures
            error@ == CliErrorView::from_source(source@),
    {
        CliError { message: None, source: Some(Source { prefix: None, source }) }
    }

    /// Constructs a new `CliError` from a specified source error and message string.
    ///
    /// The error displays the message string provided.
    pub fn from_source_with_message(source: Box<CliError>, message: String) -> (error: Self)
        ensures
            error@ == CliErrorView::from_source_with_message(source@, message@),
    {
        CliError { message: Some(message), source: Some(Source { prefix: None, source }) }
    }

    /// Constructs a new `CliError` from a specified source error and prefix string.
    ///
    /// The error displays the prefix, a colon and a space, and then what the
    /// source displays.
    pub fn from_source_with_prefix(source: Box<CliError>, prefix: String) -> (error: Self)
        ensures
            error@ == CliErrorView::from_source_with_prefix(source@, prefix@),
    {
        CliError { message: None, source: Some(Source { prefix: Some(prefix), source }) }
    }

    /// Constructs a new `CliError` with a specified message string.
    ///
    /// The error displays the message string provided.
    pub fn with_message(message: String) -> (error: Self)
        ensures
            error@ == CliErrorView::with_message(message@),
    {
        CliError { message: Some(message), source: None }
    }

    /// Constructs the `CliError` that stands for an error of which nothing is
    /// kept but the texts on display: what the error itself displays, then
    /// what its source displays, and so on down to the last source.
    ///
    /// The error displays the first text, and so does each error underneath
    /// display its own.
    pub fn from_displays(displays: Vec<String>) -> (error: Self)
        ensures
            error@ == CliErrorView::from_displays(displays.deep_view()),
    {
        let ghost all = displays.deep_view();
        let mut i = displays.len();
        if i == 0 {
            return CliError { message: None, source: None };
        }
        i -= 1;
        let mut error = CliError::with_message(displays[i].clone());
        assert(all.skip(i as int).len() == 1);
        while i > 0
            invariant
                i < displays.len(),
                all == displays.deep_view(),
                error@ == CliErrorView::from_displays(all.skip(i as int)),
            decreases i,
        {
            i -= 1;
            assert(all.skip(i as int).drop_first() == all.skip(i + 1));
            assert(all.skip(i as int)[0] == displays[i as int]@);
            error = CliError::from_source_with_message(Box::new(error), displays[i].clone());
        }
        assert(all.skip(0) == all);
        error
    }

    /// The error underneath this one, if there is one.
    pub fn source(&self) -> (under: Option<&CliError>)
        ensures
            under is Some <==> self@.source is Some,
            under matches Some(error) ==> error@ == *self@.source->0.source,
    {
        match &self.source {
            Some(under) => Some(&*under.source),
            None => None,
        }
    }

    /// The text that the error displays.
    pub fn to_string(&self) -> (text: String)
        ensures
            text@ == self@.display(),
        decreases self,
    {
        match &self.message {
            Some(message) => message.clone(),
            None => match &self.source {
                Some(under) => {
                    let inner = under.source.to_string();
                    match &under.prefix {
                        Some(prefix) => {
                            let mut text = prefix.clone();
                            text.append(PREFIX_SEPARATOR);
                            text.append(inner.as_str());
                            text
                        },
                        None => inner,
                    }
                },
                None => String::from_str(TYPE_NAME),
            },
        }
    }

    /// The text that the error shows when formatted for debugging, which is
    /// the text that it displays.
    pub fn debug_string(&self) -> (text: String)
        ensures
            text@ == self@.debug(),
    {
        self.to_string()
    }
}

impl Default for CliError {
    /// An error with neither message nor source. It displays the name of its type.
    fn default() -> (error: Self)
        ensures
            error@ == CliErrorView::empty(),
    {
        CliError { message: None, source: None }
    }
}

/// How an error displays, for each way to construct one: a message is
/// displayed alone, whether or not there is a source; a source without a
/// message displays unmodified, or after its prefix, a colon and a space;
/// an error with neither displays the name of its type.
pub proof fn display_precedence(message: Seq<char>, prefix: Seq<char>, source: CliErrorView)
    ensures
        CliErrorView::from_source_with_message(source, message).display() == message,
        CliErrorView::with_message(message).display() == message,
        CliErrorView::from_source(source).display() == source.display(),
        CliErrorView::from_source_with_prefix(source, prefix).display() == prefix
            + PREFIX_SEPARATOR@ + source.display(),
        CliErrorView::empty().display() == TYPE_NAME@,
{
}

/// An error that is kept by its texts displays the first of them, and the
/// error under it is the one that is kept by the texts that follow.
pub proof fn kept_error_displays_first_text(displays: Seq<Seq<char>>)
    requires
        displays.len() > 0,
    ensures
        CliErrorView::from_displays(displays).display() == displays[0],
        displays.len() == 1 ==> CliErrorView::from_displays(displays).source is None,
        displays.len() > 1 ==> CliErrorView::from_displays(displays).source is Some
            && *CliErrorView::from_displays(displays).source->0.source
            == CliErrorView::from_displays(displays.drop_first()),
{
}

/// Formatted for debugging, every error shows exactly what it displays.
pub proof fn debug_is_display(error: CliErrorView)
    ensures
        error.debug() == error.display(),
{
}

} // verus!
