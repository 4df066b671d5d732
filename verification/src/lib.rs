//! Failure taxonomy for a screen locker.
//!
//! Acquiring display-server resources (a connection, a visual, an input
//! method, an input context) and keyboard/pointer grabs can each fail for
//! distinct reasons that callers must tell apart to decide between a fatal
//! abort and a bounded retry. This crate is that taxonomy: a closed set of
//! error kinds, total conversions that lift lower-level failures into the
//! unified [`Error`], and a pure rendering rule that maps every kind to a
//! fixed diagnostic string.

use vstd::prelude::*;

verus! {

/// The outcome of any fallible operation in the surrounding system.
pub type Outcome<T> = core::result::Result<T, Error>;

/// Why display or input-context acquisition failed. All four kinds are
/// fatal: the caller must not retry.
#[derive(Clone, Copy, Debug, PartialEq, Eq, Structural)]
pub enum Locker {
    /// No connection to the display server could be established.
    Display,
    /// The display server has no visual meeting the application's needs.
    Visual,
    /// No input method is available from the display server or locale.
    IM,
    /// An input method was found but no input context could be derived.
    IC,
}

/// Why an input grab failed. All three kinds may be retried under the
/// caller's own policy.
#[derive(Clone, Copy, Debug, PartialEq, Eq, Structural)]
pub enum Grab {
    /// Another client already holds the requested grab.
    Conflict,
    /// The target device is frozen by a pre-existing grab.
    Frozen,
    /// The window meant to receive the grab is not mapped to the screen.
    Unmapped,
}

/// A host I/O failure, carried as the diagnostic text it renders to.
#[derive(Debug)]
pub struct IoFailure {
    /// The failure's own diagnostic text.
    pub text: String,
}

/// Something failed while acquiring or using a resource. Each value carries
/// exactly one cause and is never changed after construction.
#[derive(Debug)]
pub enum Error {
    /// A host I/O failure, rendered as its own diagnostic text.
    Io(IoFailure),
    /// A display or input-context acquisition failure.
    Locker(Locker),
    /// An input-grab failure.
    Grab(Grab),
    /// Malformed input or configuration, with no further payload.
    Parse,
}

/// The fixed diagnostic string of a [`Locker`] kind.
pub open spec fn locker_message(kind: Locker) -> Seq<char> {
    match kind {
        Locker::Display => "No display found."@,
        Locker::Visual => "No proper visual found."@,
        Locker::IM => "No proper IM found."@,
        Locker::IC => "No proper IC found"@,
    }
}

/// The fixed diagnostic string of a [`Grab`] kind.
pub open spec fn grab_message(kind: Grab) -> Seq<char> {
    match kind {
        Grab::Conflict => "A grab is already present."@,
        Grab::Frozen => "The grab is frozen."@,
        Grab::Unmapped => "The grabbing window is not mapped."@,
    }
}

/// The diagnostic text of an [`Error`]: a fixed string per kind, and for a
/// wrapped I/O cause the cause's own text, unmodified.
pub open spec fn error_message(error: Error) -> Seq<char> {
    match error {
        Error::Io(cause) => cause.text@,
        Error::Locker(kind) => locker_message(kind),
        Error::Grab(kind) => grab_message(kind),
        Error::Parse => "Parse error."@,
    }
}

#[verifier::external_type_specification]
#[verifier::external_body]
pub struct ExIoError(std::io::Error);

/// Relies on `std::io::Error`'s `Display` implementation: formatting the
/// error yields its diagnostic text. The text of an operating-system error
/// can depend on the host's locale, so nothing is claimed of the result.
#[verifier::external_body]
fn io_error_text(error: &std::io::Error) -> String {
    format!("{}", error)
}

impl Error {
    /// Wraps a diagnostic text as an I/O failure. [`error_message`] returns
    /// such a text unmodified, so this pins down what [`Error::from_io`]
    /// renders to once the host has produced the text.
    pub fn from_io_text(text: String) -> (result: Error)
        ensures
            result == Error::Io(IoFailure { text }),
    {
        Error::Io(IoFailure { text })
    }

    /// Lifts a host I/O failure into the taxonomy. Total: every host I/O
    /// failure yields an `Io` value carrying the failure's own text.
    pub fn from_io(cause: std::io::Error) -> (result: Error)
        ensures
            result is Io,
    {
        let text = io_error_text(&cause);
        Error::from_io_text(text)
    }

    /// Renders the diagnostic text: a pure, total function of the variant
    /// that never fails.
    pub fn description(&self) -> (text: String)
        ensures
            text@ == error_message(*self),
    {
        match self {
            Error::Io(cause) => cause.text.clone(),
            Error::Locker(kind) => match kind {
                Locker::Display => "No display found.".to_owned(),
                Locker::Visual => "No proper visual found.".to_owned(),
                Locker::IM => "No proper IM found.".to_owned(),
                Locker::IC => "No proper IC found".to_owned(),
            },
            Error::Grab(kind) => match kind {
                Grab::Conflict => "A grab is already present.".to_owned(),
                Grab::Frozen => "The grab is frozen.".to_owned(),
                Grab::Unmapped => "The grabbing window is not mapped.".to_owned(),
            },
            Error::Parse => "Parse error.".to_owned(),
        }
    }
}

impl From<Locker> for Error {
    /// Lifts a locker kind into the taxonomy. Total and lossless: the kind
    /// remains inspectable in the result.
    fn from(value: Locker) -> (result: Error)
        ensures
            result == Error::Locker(value),
    {
        Error::Locker(value)
    }
}

impl vstd::std_specs::convert::FromSpecImpl<Locker> for Error {
    open spec fn obeys_from_spec() -> bool {
        true
    }

    open spec fn from_spec(value: Locker) -> Error {
        Error::Locker(value)
    }
}

impl From<Grab> for Error {
    /// Lifts a grab kind into the taxonomy. Total and lossless: the kind
    /// remains inspectable in the result.
    fn from(value: Grab) -> (result: Error)
        ensures
            result == Error::Grab(value),
    {
        Error::Grab(value)
    }
}

impl vstd::std_specs::convert::FromSpecImpl<Grab> for Error {
    open spec fn obeys_from_spec() -> bool {
        true
    }

    open spec fn from_spec(value: Grab) -> Error {
        Error::Grab(value)
    }
}

/// Wrapping a host I/O failure and rendering the result yields exactly the
/// failure's own diagnostic text.
pub proof fn lemma_io_text_passthrough(cause: IoFailure)
    ensures
        error_message(Error::Io(cause)) == cause.text@,
{
}

/// Each locker kind, lifted into [`Error`] and rendered, yields its fixed
/// diagnostic string.
pub proof fn lemma_locker_rendering(kind: Locker)
    ensures
        error_message(Error::Locker(kind)) == locker_message(kind),
        kind == Locker::Display ==> error_message(Error::Locker(kind)) == "No display found."@,
        kind == Locker::Visual ==> error_message(Error::Locker(kind)) == "No proper visual found."@,
        kind == Locker::IM ==> error_message(Error::Locker(kind)) == "No proper IM found."@,
        kind == Locker::IC ==> error_message(Error::Locker(kind)) == "No proper IC found"@,
{
}

/// Each grab kind, lifted into [`Error`] and rendered, yields its fixed
/// diagnostic string.
pub proof fn lemma_grab_rendering(kind: Grab)
    ensures
        error_message(Error::Grab(kind)) == grab_message(kind),
        kind == Grab::Conflict ==> error_message(Error::Grab(kind)) == "A grab is already present."@,
        kind == Grab::Frozen ==> error_message(Error::Grab(kind)) == "The grab is frozen."@,
        kind == Grab::Unmapped ==> error_message(Error::Grab(kind)) == "The grabbing window is not mapped."@,
{
}

/// A parse failure renders to exactly its fixed diagnostic string.
pub proof fn lemma_parse_rendering()
    ensures
        error_message(Error::Parse) == "Parse error."@,
{
}

/// Lifting locker kinds is injective: distinct kinds stay distinguishable
/// after conversion.
pub proof fn lemma_locker_lift_injective(a: Locker, b: Locker)
    requires
        a != b,
    ensures
        Error::Locker(a) != Error::Locker(b),
{
}

/// Lifting grab kinds is injective: distinct kinds stay distinguishable
/// after conversion.
pub proof fn lemma_grab_lift_injective(a: Grab, b: Grab)
    requires
        a != b,
    ensures
        Error::Grab(a) != Error::Grab(b),
{
}

/// The four construction paths land in four disjoint categories: no value
/// built from one cause is indistinguishable from one built from another.
pub proof fn lemma_categories_distinct(locker: Locker, grab: Grab, io: IoFailure)
    ensures
        Error::Locker(locker) != Error::Grab(grab),
        Error::Locker(locker) != Error::Io(io),
        Error::Locker(locker) != Error::Parse,
        Error::Grab(grab) != Error::Io(io),
        Error::Grab(grab) != Error::Parse,
        Error::Io(io) != Error::Parse,
{
}

/// Rendering is deterministic: any two renderings of one error agree.
/// [`Error::description`] ensures its result equals [`error_message`] of the
/// value, so two calls on the same value yield identical strings.
pub proof fn lemma_description_deterministic(error: Error, first: Seq<char>, second: Seq<char>)
    requires
        first == error_message(error),
        second == error_message(error),
    ensures
        first == second,
{
}

} // verus!
