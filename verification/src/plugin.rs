//! Where a plugin is loaded from, and how a location given as text is read.
//!
//! A location is a URL with the scheme `file` or `zellij`. Splitting the URL
//! is the work of the `url` crate and undoing its percent-encoding that of
//! `percent-encoding`; what is done with the parts is decided here.

use crate::paths::{anchor, anchored};
use crate::text::{concat, skip_chars, starts_with, str_eq};
use vstd::prelude::*;
use vstd::std_specs::cmp::PartialEqSpecImpl;

verus! {

/// The place a plugin is loaded from.
#[derive(Debug)]
pub enum RunPluginLocation {
    /// A file, by its path.
    File(String),
    /// A plugin that ships with the workspace, by its tag.
    Zellij(String),
}

/// The mathematical value of a [`RunPluginLocation`].
pub enum RunPluginLocationView {
    File(Seq<char>),
    Zellij(Seq<char>),
}

impl View for RunPluginLocation {
    type V = RunPluginLocationView;

    open spec fn view(&self) -> RunPluginLocationView {
        match self {
            RunPluginLocation::File(path) => RunPluginLocationView::File(path@),
            RunPluginLocation::Zellij(tag) => RunPluginLocationView::Zellij(tag@),
        }
    }
}

impl DeepView for RunPluginLocation {
    type V = RunPluginLocationView;

    open spec fn deep_view(&self) -> RunPluginLocationView {
        self@
    }
}

impl PartialEq for RunPluginLocation {
    fn eq(&self, other: &RunPluginLocation) -> (r: bool) {
        match (self, other) {
            (RunPluginLocation::File(a), RunPluginLocation::File(b)) => *a == *b,
            (RunPluginLocation::Zellij(a), RunPluginLocation::Zellij(b)) => *a == *b,
            _ => false,
        }
    }
}

impl PartialEqSpecImpl for RunPluginLocation {
    open spec fn obeys_eq_spec() -> bool {
        true
    }

    open spec fn eq_spec(&self, other: &RunPluginLocation) -> bool {
        self@ == other@
    }
}

impl Eq for RunPluginLocation {}

impl Clone for RunPluginLocation {
    fn clone(&self) -> (r: RunPluginLocation)
        ensures
            r@ == self@,
    {
        match self {
            RunPluginLocation::File(path) => RunPluginLocation::File(path.clone()),
            RunPluginLocation::Zellij(tag) => RunPluginLocation::Zellij(tag.clone()),
        }
    }
}

/// A plugin to run and what it is allowed to do.
#[derive(Debug)]
pub struct RunPlugin {
    pub _allow_exec_host_cmd: bool,
    pub location: RunPluginLocation,
}

/// The mathematical value of a [`RunPlugin`].
pub struct RunPluginView {
    pub _allow_exec_host_cmd: bool,
    pub location: RunPluginLocationView,
}

impl View for RunPlugin {
    type V = RunPluginView;

    open spec fn view(&self) -> RunPluginView {
        RunPluginView {
            _allow_exec_host_cmd: self._allow_exec_host_cmd,
            location: self.location@,
        }
    }
}

impl DeepView for RunPlugin {
    type V = RunPluginView;

    open spec fn deep_view(&self) -> RunPluginView {
        self@
    }
}

impl PartialEq for RunPlugin {
    fn eq(&self, other: &RunPlugin) -> (r: bool) {
        self._allow_exec_host_cmd == other._allow_exec_host_cmd && self.location == other.location
    }
}

impl PartialEqSpecImpl for RunPlugin {
    open spec fn obeys_eq_spec() -> bool {
        true
    }

    open spec fn eq_spec(&self, other: &RunPlugin) -> bool {
        self@ == other@
    }
}

impl Eq for RunPlugin {}

impl Clone for RunPlugin {
    fn clone(&self) -> (r: RunPlugin)
        ensures
            r@ == self@,
    {
        RunPlugin {
            _allow_exec_host_cmd: self._allow_exec_host_cmd,
            location: self.location.clone(),
        }
    }
}

/// Why a text is no plugin location.
#[derive(Debug)]
pub enum PluginsConfigError {
    /// The text is no URL; the field names the reason.
    InvalidUrl(String),
    /// The URL, given whole in the field, has a scheme other than `file` and
    /// `zellij`.
    InvalidUrlScheme(String),
    /// The URL has the scheme `file`, but the text, given whole in the field,
    /// does not spell it `file:`, so no path can be cut from it.
    InvalidPluginLocation(String),
}

/// The mathematical value of a [`PluginsConfigError`].
pub enum PluginsConfigErrorView {
    InvalidUrl(Seq<char>),
    InvalidUrlScheme(Seq<char>),
    InvalidPluginLocation(Seq<char>),
}

impl PluginsConfigErrorView {
    /// The sentence that reports the error.
    pub open spec fn message(self) -> Seq<char> {
        match self {
            PluginsConfigErrorView::InvalidUrl(reason) => "Failed to parse url: "@ + reason,
            PluginsConfigErrorView::InvalidUrlScheme(url) =>
                "Only 'file:' and 'zellij:' url schemes are supported for plugin lookup. '"@ + url
                    + "' does not match either."@,
            PluginsConfigErrorView::InvalidPluginLocation(location) =>
                "Could not find plugin at the path: '"@ + location + "'"@,
        }
    }
}

impl View for PluginsConfigError {
    type V = PluginsConfigErrorView;

    open spec fn view(&self) -> PluginsConfigErrorView {
        match self {
            PluginsConfigError::InvalidUrl(reason) => PluginsConfigErrorView::InvalidUrl(reason@),
            PluginsConfigError::InvalidUrlScheme(url) => PluginsConfigErrorView::InvalidUrlScheme(
                url@,
            ),
            PluginsConfigError::InvalidPluginLocation(location) =>
                PluginsConfigErrorView::InvalidPluginLocation(location@),
        }
    }
}

impl PluginsConfigError {
    /// The sentence that reports the error.
    pub fn message(&self) -> (r: String)
        ensures
            r@ == self@.message(),
    {
        match self {
            PluginsConfigError::InvalidUrl(reason) => concat(
                "Failed to parse url: ",
                reason.as_str(),
            ),
            PluginsConfigError::InvalidUrlScheme(url) => {
                let head = concat(
                    "Only 'file:' and 'zellij:' url schemes are supported for plugin lookup. '",
                    url.as_str(),
                );
                concat(head.as_str(), "' does not match either.")
            },
            PluginsConfigError::InvalidPluginLocation(location) => {
                let head = concat("Could not find plugin at the path: '", location.as_str());
                concat(head.as_str(), "'")
            },
        }
    }
}

/// The parts of a URL that a plugin location is read from.
#[derive(Debug)]
pub struct ParsedUrl {
    /// The scheme, in lower case, without the colon.
    pub scheme: String,
    /// The path, still percent-encoded.
    pub path: String,
    /// The whole URL as the parser writes it back.
    pub text: String,
}

/// The mathematical value of a [`ParsedUrl`].
pub struct ParsedUrlView {
    pub scheme: Seq<char>,
    pub path: Seq<char>,
    pub text: Seq<char>,
}

impl View for ParsedUrl {
    type V = ParsedUrlView;

    open spec fn view(&self) -> ParsedUrlView {
        ParsedUrlView { scheme: self.scheme@, path: self.path@, text: self.text@ }
    }
}

/// What `url::Url::parse` makes of `location`: the parts of the URL, or the
/// name of the reason why it is none.
pub uninterp spec fn parsed_url(location: Seq<char>) -> Result<ParsedUrlView, Seq<char>>;

/// What percent-decoding makes of `input`: every `%` with two hexadecimal
/// digits replaced by the byte they name, and the bytes read as UTF-8.
pub uninterp spec fn percent_decoded(input: Seq<char>) -> Seq<char>;

/// The views of the parts of a URL or of the reason in their place.
pub open spec fn url_view(r: Result<ParsedUrl, String>) -> Result<ParsedUrlView, Seq<char>> {
    match r {
        Ok(url) => Ok(url@),
        Err(reason) => Err(reason@),
    }
}

/// Calls `url::Url::parse` and takes the scheme, the path and the text of the
/// URL it returns, or the name of the error.
/// Trusted: the outcome is a function of `location` alone, named by
/// [`parsed_url`]; nothing more is claimed of it.
#[verifier::external_body]
pub(crate) fn parse_url(location: &str) -> (r: Result<ParsedUrl, String>)
    ensures
        url_view(r) == parsed_url(location@),
{
    match url::Url::parse(location) {
        Ok(url) => Ok(
            ParsedUrl {
                scheme: url.scheme().to_string(),
                path: url.path().to_string(),
                text: url.as_str().to_string(),
            },
        ),
        Err(e) => Err(format!("{:?}", e)),
    }
}

/// Calls `percent_encoding::percent_decode_str` and reads the decoded bytes
/// as UTF-8, lossily.
/// Trusted: the result is a function of `input` alone, named by
/// [`percent_decoded`]; nothing more is claimed of it.
#[verifier::external_body]
pub(crate) fn percent_decode(input: &str) -> (r: String)
    ensures
        r@ == percent_decoded(input@),
{
    percent_encoding::percent_decode_str(input).decode_utf8_lossy().into_owned()
}

/// The path `path` as seen from the directory `cwd`, if one is given.
pub open spec fn seen_from(cwd: Option<Seq<char>>, path: Seq<char>) -> Seq<char> {
    match cwd {
        Some(dir) => anchored(dir, path),
        None => path,
    }
}

/// The plugin location that the text `location` stands for, given what the
/// URL parser made of it.
///
/// - No URL: an error with the parser's reason.
/// - Scheme `zellij`: the tag is the decoded path of the URL.
/// - Scheme `file`, text beginning `file:/`: the file at the decoded path of
///   the URL, which is absolute.
/// - Scheme `file`, text beginning `file:` otherwise: the rest of the text is
///   a relative path, seen from `cwd`.
/// - Any other scheme: an error with the URL.
pub open spec fn located(
    location: Seq<char>,
    url: Result<ParsedUrlView, Seq<char>>,
    cwd: Option<Seq<char>>,
) -> Result<RunPluginLocationView, PluginsConfigErrorView> {
    match url {
        Err(reason) => Err(PluginsConfigErrorView::InvalidUrl(reason)),
        Ok(url) => if url.scheme == "zellij"@ {
            Ok(RunPluginLocationView::Zellij(percent_decoded(url.path)))
        } else if url.scheme == "file"@ {
            if "file:/"@.is_prefix_of(location) {
                Ok(RunPluginLocationView::File(percent_decoded(url.path)))
            } else if "file:"@.is_prefix_of(location) {
                Ok(
                    RunPluginLocationView::File(
                        seen_from(cwd, location.skip("file:"@.len() as int)),
                    ),
                )
            } else {
                Err(PluginsConfigErrorView::InvalidPluginLocation(location))
            }
        } else {
            Err(PluginsConfigErrorView::InvalidUrlScheme(url.text))
        },
    }
}

/// The views of a location or of the error in its place.
pub open spec fn location_view(
    r: Result<RunPluginLocation, PluginsConfigError>,
) -> Result<RunPluginLocationView, PluginsConfigErrorView> {
    match r {
        Ok(location) => Ok(location@),
        Err(e) => Err(e@),
    }
}

impl RunPluginLocation {
    /// Reads `location` as a plugin location; a relative file is seen from
    /// `cwd`.
    pub fn parse(location: &str, cwd: Option<String>) -> (r: Result<
        RunPluginLocation,
        PluginsConfigError,
    >)
        ensures
            location_view(r) == located(location@, parsed_url(location@), cwd.deep_view()),
    {
        let url = parse_url(location);
        RunPluginLocation::from_url(location, url, cwd)
    }

    /// Decides the plugin location from the text `location` and from what the
    /// URL parser made of it.
    pub fn from_url(location: &str, url: Result<ParsedUrl, String>, cwd: Option<String>) -> (r:
        Result<RunPluginLocation, PluginsConfigError>)
        ensures
            location_view(r) == located(location@, url_view(url), cwd.deep_view()),
    {
        match url {
            Err(reason) => Err(PluginsConfigError::InvalidUrl(reason)),
            Ok(url) => {
                if str_eq(url.scheme.as_str(), "zellij") {
                    Ok(RunPluginLocation::Zellij(percent_decode(url.path.as_str())))
                } else if str_eq(url.scheme.as_str(), "file") {
                    if starts_with(location, "file:/") {
                        Ok(RunPluginLocation::File(percent_decode(url.path.as_str())))
                    } else if starts_with(location, "file:") {
                        let relative = skip_chars(location, "file:".unicode_len());
                        let path = match cwd {
                            Some(dir) => anchor(dir.as_str(), relative.as_str()),
                            None => relative,
                        };
                        Ok(RunPluginLocation::File(path))
                    } else {
                        Err(PluginsConfigError::InvalidPluginLocation(location.to_owned()))
                    }
                } else {
                    Err(PluginsConfigError::InvalidUrlScheme(url.text))
                }
            },
        }
    }
}

} // verus!
