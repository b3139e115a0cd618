//! A structured, domain-scoped error value.
//!
//! The foreign runtime passes failures around as one record of a domain
//! (a namespace token), a code whose meaning is scoped to that domain, and
//! a message. An error variable may also be *absent* — the analogue of a
//! null handle — and absence is always a legal, crash-free state. Two rules
//! of the runtime's protocol are load-bearing and kept exactly:
//!
//! * assignment never overwrites: once an error is present, [`Error::set`]
//!   is a no-op — the first assignment wins;
//! * propagation favors the receiver: [`Error::propagate`] into a populated
//!   receiver discards the incoming error rather than merging or keeping it.

use vstd::prelude::*;

verus! {

/// The content of one present error: a namespaced domain token, a code
/// whose meaning is scoped to that domain, and a message.
pub struct ErrorContent {
    pub domain: u32,
    pub code: i32,
    pub message: String,
}

/// A domain-scoped error variable.
///
/// The value is either *absent* (it holds no error) or *present* with one
/// [`ErrorContent`]. Its view is `None` when absent and
/// `Some((domain, code, message))` when present.
pub struct Error {
    content: Option<ErrorContent>,
}

impl View for Error {
    type V = Option<(u32, i32, Seq<char>)>;

    closed spec fn view(&self) -> Option<(u32, i32, Seq<char>)> {
        match self.content {
            Some(c) => Some((c.domain, c.code, c.message@)),
            None => None,
        }
    }
}

impl Error {
    /// Constructs a present error from a domain, a code and a message.
    ///
    /// The result is `None` only when the allocation of the error record
    /// itself fails; this in-process representation cannot fail to
    /// allocate, so a present error is always returned.
    pub fn new_literal(domain: u32, code: i32, message: &str) -> (r: Option<Error>)
        ensures
            r matches Some(e) && e@ == Some((domain, code, message@)),
    {
        Some(Error {
            content: Some(ErrorContent { domain, code, message: message.to_owned() }),
        })
    }

    /// Constructs the absent error: no domain, no code, no message.
    pub fn absent() -> (e: Error)
        ensures
            e@ is None,
    {
        Error { content: None }
    }

    /// Takes ownership of error content; `None` yields the absent error.
    pub fn wrap(content: Option<ErrorContent>) -> (e: Error)
        ensures
            content matches Some(c) ==> e@ == Some((c.domain, c.code, c.message@)),
            content is None ==> e@ is None,
    {
        Error { content }
    }

    /// Read-only access to the held content; `None` when absent. The
    /// caller must not release what it sees through the borrow.
    pub fn unwrap(&self) -> (r: Option<&ErrorContent>)
        ensures
            r matches Some(c) ==> self@ == Some((c.domain, c.code, c.message@)),
            r is None ==> self@ is None,
    {
        self.content.as_ref()
    }

    /// Releases the held error and leaves this variable absent.
    ///
    /// There is no precondition: releasing an already-absent error is a
    /// well-defined no-op, so a redundant second release cannot fault.
    pub fn release(&mut self)
        ensures
            final(self)@ is None,
    {
        self.content = None;
    }

    /// True exactly when the error is present and both the domain and the
    /// code are equal to the ones given. This is the sole dispatch
    /// mechanism for error kinds; there is no hierarchy of them.
    pub fn matches(&self, domain: u32, code: i32) -> (b: bool)
        ensures
            b == (self@ matches Some(c) && c.0 == domain && c.1 == code),
    {
        match &self.content {
            Some(c) => c.domain == domain && c.code == code,
            None => false,
        }
    }

    /// Sets the error only when it is absent.
    ///
    /// A present error is left exactly as it was, whatever domain, code
    /// and message are offered: the runtime's convention is that an
    /// existing error is never overwritten, and that convention is kept
    /// here deliberately.
    pub fn set(&mut self, domain: u32, code: i32, message: &str)
        ensures
            old(self)@ is None ==> final(self)@ == Some((domain, code, message@)),
            old(self)@ is Some ==> final(self)@ == old(self)@,
    {
        if self.content.is_none() {
            self.content = Some(ErrorContent { domain, code, message: message.to_owned() });
        }
    }

    /// Moves `other`'s error into this variable when this variable is
    /// absent; a populated receiver keeps its own error and the incoming
    /// one is discarded, silently.
    ///
    /// In both branches `other` is left absent afterwards, so its content
    /// is neither retained twice nor released twice. The silent discard on
    /// a populated receiver is intentional, surprising behavior: it is the
    /// runtime's own first-error-wins rule.
    pub fn propagate(&mut self, other: &mut Error)
        ensures
            old(self)@ is None ==> final(self)@ == old(other)@,
            old(self)@ is Some ==> final(self)@ == old(self)@,
            final(other)@ is None,
    {
        let incoming = other.content.take();
        if self.content.is_none() {
            self.content = incoming;
        }
    }

    /// The message of a present error, valid while this value is alive.
    /// An absent error has no message, so presence is required rather
    /// than returning garbage.
    pub fn message(&self) -> (m: &str)
        requires
            self@ is Some,
        ensures
            self@ matches Some(c) && m@ == c.2,
    {
        match &self.content {
            Some(c) => c.message.as_str(),
            None => vstd::pervasive::unreached(),
        }
    }
}

impl Clone for Error {
    /// Deep-copies the error record; cloning an absent error yields
    /// another absent error, not a fault.
    fn clone(&self) -> (r: Error)
        ensures
            r@ == self@,
    {
        match &self.content {
            Some(c) => Error {
                content: Some(ErrorContent {
                    domain: c.domain,
                    code: c.code,
                    message: c.message.clone(),
                }),
            },
            None => Error { content: None },
        }
    }
}

} // verus!
