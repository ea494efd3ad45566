//! The configuration of a run, and what it settles before the run starts:
//! which source is read and how records are delivered.

use crate::driver::{Driver, DriverState};
use crate::publisher::DeliveryMode;
use vstd::prelude::*;

verus! {

#[verifier::external_type_specification]
#[verifier::external_body]
pub struct ExUrl(url::Url);

#[verifier::external_type_specification]
#[verifier::external_body]
pub struct ExUrlParseError(url::ParseError);

/// The serialization that a `url::Url` holds.
pub uninterp spec fn serialization_of(u: url::Url) -> Seq<char>;

/// The message that a `url::ParseError` displays.
pub uninterp spec fn url_message_of(e: url::ParseError) -> Seq<char>;

/// What `url::Url::parse` makes of a text: the serialization of the absolute
/// URL that it stands for, or the message of the error.
pub uninterp spec fn url_of(text: Seq<char>) -> Result<Seq<char>, Seq<char>>;

/// `url::Url::parse`. The contract names the result: the same text always
/// gives the same URL or the same error.
#[verifier::external_body]
fn parse_url(text: &str) -> (res: Result<url::Url, url::ParseError>)
    ensures
        match res {
            Ok(u) => url_of(text@) == Ok::<Seq<char>, Seq<char>>(serialization_of(u)),
            Err(e) => url_of(text@) == Err::<Seq<char>, Seq<char>>(url_message_of(e)),
        },
{
    url::Url::parse(text)
}

/// `Url::as_str`, as an owned string: the serialization of the URL.
#[verifier::external_body]
fn url_text(u: &url::Url) -> (res: String)
    ensures
        res@ == serialization_of(*u),
{
    u.as_str().to_string()
}

/// The `Display` text of a `url::ParseError`.
#[verifier::external_body]
fn url_error_text(e: &url::ParseError) -> (res: String)
    ensures
        res@ == url_message_of(*e),
{
    e.to_string()
}

/// The options of a run.
#[derive(Debug, PartialEq, Eq)]
pub struct Config {
    /// `file` reads a line-delimited file; any other value reads the socket.
    pub mode: String,
    /// The path of the file, for the file source.
    pub file: String,
    /// The endpoint of the streaming socket, for the socket source.
    pub source_url: String,
    /// The endpoint of the broker.
    pub bus_url: String,
    /// The namespace of the subjects.
    pub subj_prefix: String,
    /// Whether each publish waits for the broker's acknowledgment.
    pub durable: bool,
}

/// The source that a run reads.
#[derive(Debug, PartialEq, Eq)]
pub enum SourcePlan {
    /// The file at the path, line by line.
    File { path: String },
    /// The streaming socket at the URL, which is absolute and normalised.
    Socket { url: String },
}

/// What a [`SourcePlan`] holds.
pub enum SourcePlanView {
    File { path: Seq<char> },
    Socket { url: Seq<char> },
}

impl View for SourcePlan {
    type V = SourcePlanView;

    open spec fn view(&self) -> SourcePlanView {
        match self {
            SourcePlan::File { path } => SourcePlanView::File { path: path@ },
            SourcePlan::Socket { url } => SourcePlanView::Socket { url: url@ },
        }
    }
}

/// A configuration that no run can start from.
#[derive(Debug, PartialEq, Eq)]
pub enum ConfigError {
    /// The endpoint of the socket source is no absolute URL.
    InvalidSourceUrl { reason: String },
}

impl ConfigError {
    /// What is wrong, in words.
    pub fn reason(&self) -> (reason: &str)
        ensures
            self matches ConfigError::InvalidSourceUrl { reason: r } && reason@ == r@,
    {
        match self {
            ConfigError::InvalidSourceUrl { reason } => reason.as_str(),
        }
    }
}

/// The delivery mode that the `durable` option selects.
pub open spec fn mode_of(durable: bool) -> DeliveryMode {
    if durable {
        DeliveryMode::Durable
    } else {
        DeliveryMode::BestEffort
    }
}

/// The source that a mode and its options select.
pub open spec fn source_of(mode: Seq<char>, file: Seq<char>, source_url: Seq<char>) -> Result<
    SourcePlanView,
    Seq<char>,
> {
    if mode == "file"@ {
        Ok(SourcePlanView::File { path: file })
    } else {
        match url_of(source_url) {
            Ok(url) => Ok(SourcePlanView::Socket { url }),
            Err(message) => Err(message),
        }
    }
}

impl Config {
    /// The delivery mode of the run.
    pub fn delivery_mode(&self) -> (mode: DeliveryMode)
        ensures
            mode == mode_of(self.durable),
    {
        if self.durable {
            DeliveryMode::Durable
        } else {
            DeliveryMode::BestEffort
        }
    }

    /// The source of the run. In file mode it is the file; the socket's
    /// endpoint is not looked at. In any other mode it is the socket, whose
    /// endpoint has to be an absolute URL: where it is none, the run cannot
    /// be set up.
    pub fn source(&self) -> (res: Result<SourcePlan, ConfigError>)
        ensures
            match res {
                Ok(plan) => source_of(self.mode@, self.file@, self.source_url@) == Ok::<
                    SourcePlanView,
                    Seq<char>,
                >(plan@),
                Err(ConfigError::InvalidSourceUrl { reason }) => source_of(
                    self.mode@,
                    self.file@,
                    self.source_url@,
                ) == Err::<SourcePlanView, Seq<char>>(reason@),
            },
    {
        let file_mode = String::from_str("file");
        if self.mode == file_mode {
            Ok(SourcePlan::File { path: self.file.clone() })
        } else {
            match parse_url(self.source_url.as_str()) {
                Ok(url) => Ok(SourcePlan::Socket { url: url_text(&url) }),
                Err(e) => Err(ConfigError::InvalidSourceUrl { reason: url_error_text(&e) }),
            }
        }
    }

    /// A driver for the run: it publishes under the configured prefix in the
    /// configured mode, and starts from the initial state.
    pub fn driver(&self) -> (driver: Driver)
        ensures
            driver@ == DriverState::initial(self.subj_prefix@, mode_of(self.durable)),
    {
        Driver::new(self.subj_prefix.as_str(), self.delivery_mode())
    }
}

} // verus!
