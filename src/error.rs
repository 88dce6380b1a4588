//! Failures as values, and the last-error store that the foreign surface
//! reads on demand.
use vstd::prelude::*;
use vstd::string::*;

verus! {

/// The class of a failure.
#[derive(Clone, Copy, Debug, PartialEq, Eq, Structural)]
pub enum ErrorKind {
    /// The file could not be opened or mapped.
    IoFailure,
    /// The reader rejected the file's header or layout.
    FormatInvalid,
    /// A record index at or past the record count.
    IndexOutOfRange,
    /// A payload could not be decoded.
    DecodeFailure,
    /// A text argument is not valid for this platform's strings.
    EncodingInvalid,
    /// A record slot that holds no record.
    EmptyView,
    /// A required handle is missing.
    NullArgument,
}

/// A failure: its class and a message for people.
#[derive(Debug)]
pub struct BridgeError {
    pub kind: ErrorKind,
    pub message: String,
}

/// The text stored instead of a message that could not be kept as a C string.
pub const UNSTORABLE_MESSAGE: &'static str = "Error message contains invalid UTF-8";

/// Whether `s` holds a NUL character, which a C string cannot carry.
pub open spec fn has_nul(s: Seq<char>) -> bool {
    exists|i: int| 0 <= i < s.len() && s[i] == '\0'
}

/// What the last-error store keeps of message `s`.
pub open spec fn stored_message(s: Seq<char>) -> Seq<char> {
    if has_nul(s) {
        UNSTORABLE_MESSAGE@
    } else {
        s
    }
}

/// Whether `s` is `prefix` followed by something.
pub open spec fn starts_with(s: Seq<char>, prefix: Seq<char>) -> bool {
    prefix.len() <= s.len() && s.subrange(0, prefix.len() as int) == prefix
}

/// Builds an error from a fixed message.
pub fn bridge_error(kind: ErrorKind, message: &str) -> (r: BridgeError)
    ensures
        r.kind == kind,
        r.message@ == message@,
{
    BridgeError { kind, message: String::from_str(message) }
}

/// Builds an error whose message is `prefix` followed by `detail`.
pub fn prefixed_error(kind: ErrorKind, prefix: &str, detail: &str) -> (r: BridgeError)
    ensures
        r.kind == kind,
        r.message@ == prefix@ + detail@,
{
    let mut message = String::from_str(prefix);
    message.append(detail);
    BridgeError { kind, message }
}

/// Whether `s` holds a NUL character.
pub fn contains_nul(s: &str) -> (r: bool)
    ensures
        r == has_nul(s@),
{
    let n = s.unicode_len();
    let mut i: usize = 0;
    while i < n
        invariant
            n == s@.len(),
            i <= n,
            forall|j: int| 0 <= j < i ==> s@[j] != '\0',
        decreases n - i,
    {
        if s.get_char(i) == '\0' {
            return true;
        }
        i = i + 1;
    }
    false
}

/// The most recent failure message; empty until the first failure.
pub struct ErrorSlot {
    message: Option<String>,
}

impl View for ErrorSlot {
    type V = Option<Seq<char>>;

    closed spec fn view(&self) -> Option<Seq<char>> {
        match self.message {
            Some(m) => Some(m@),
            None => None,
        }
    }
}

impl ErrorSlot {
    /// A store that holds no message.
    pub fn new() -> (r: ErrorSlot)
        ensures
            r@ is None,
    {
        ErrorSlot { message: None }
    }

    /// Replaces the stored message; one holding a NUL is replaced by a fixed
    /// notice, since the message is handed out as a C string.
    pub fn set_last_error(&mut self, msg: &str)
        ensures
            final(self)@ == Some(stored_message(msg@)),
    {
        if contains_nul(msg) {
            self.message = Some(String::from_str(UNSTORABLE_MESSAGE));
        } else {
            self.message = Some(String::from_str(msg));
        }
    }

    /// Records `e`'s message.
    pub fn record(&mut self, e: &BridgeError)
        ensures
            final(self)@ == Some(stored_message(e.message@)),
    {
        self.set_last_error(e.message.as_str());
    }

    /// The stored message, if any failure was recorded.
    pub fn last_error(&self) -> (r: Option<&String>)
        ensures
            match r {
                Some(m) => self@ == Some(m@),
                None => self@ is None,
            },
    {
        self.message.as_ref()
    }
}

} // verus!
