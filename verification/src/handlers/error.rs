use vstd::prelude::*;

verus! {

/// Who caused an error.
#[derive(Clone, Copy, Debug, PartialEq, Eq, Structural)]
pub enum ErrorOrigin {
    User,
    Internal,
    External,
    Unknown,
}

/// What went wrong.
#[derive(Clone, Copy, Debug, PartialEq, Eq, Structural)]
pub enum ErrorKind {
    AlreadyExists,
    ArithmeticOverflow,
    ArithmeticUnderflow,
    BlockedAction,
    CanceledAction,
    CorruptedFile,
    EmptyValue,
    GhostEditing,
    InvalidValue,
    LogicError,
    MissingParam,
    MissingVariable,
    NotEnoughArgs,
    NotFound,
    NotSent,
    NullishValue,
    SyntaxError,
    Other,
    TimeOut,
    TypeError,
}

/// An error as the bot reports it. `message` holds the key under which the
/// locale tables keep the text for the user, or the text itself where the
/// error came from outside.
#[derive(Debug, Clone)]
pub struct BotError {
    pub message: String,
    pub origin: ErrorOrigin,
    pub kind: ErrorKind,
}

/// What every error of the bot offers.
pub trait Error: Sized {
    /// The kind that `kind` returns.
    spec fn kind_of(&self) -> ErrorKind;

    fn kind(&self) -> (kind: ErrorKind)
        ensures
            kind == self.kind_of(),
    ;

    fn new(message: String, kind: ErrorKind, origin: ErrorOrigin) -> (error: BotError)
        ensures
            error.message == message,
            error.kind == kind,
            error.origin == origin,
    ;
}

impl BotError {
    /// The report of a failure that came from outside, of which only the message is known.
    pub fn unknown(message: String) -> (error: BotError)
        ensures
            error.message == message,
            error.kind == ErrorKind::Other,
            error.origin == ErrorOrigin::Unknown,
    {
        BotError { message, origin: ErrorOrigin::Unknown, kind: ErrorKind::Other }
    }
}

impl Error for BotError {
    open spec fn kind_of(&self) -> ErrorKind {
        self.kind
    }

    fn kind(&self) -> (kind: ErrorKind) {
        self.kind
    }

    fn new(message: String, kind: ErrorKind, origin: ErrorOrigin) -> (error: BotError) {
        BotError { message, origin, kind }
    }
}

} // verus!
