//! The caller-side handle of one connection: the sole owner of the transport's
//! reference, which gatekeeps sending and closing.
use vstd::prelude::*;

verus! {

/// Why the handle refused an operation: it has already been released.
#[derive(Clone, Copy, Debug, PartialEq, Eq, Structural)]
pub enum HandleError {
    /// Data was offered to a connection that has been closed.
    SendAfterClose,
    /// The connection was closed a second time.
    CloseTwice,
}

/// A handle to control the current websocket connection; it can be canceled
/// exactly once. `S` is the transport's reference to the open socket.
///
/// The handle is `Live` while it holds the reference and `Released` once
/// `cancel` has taken it out; that transition cannot be undone.
pub struct WebSocketHandle<S>(Option<S>);

impl<S> View for WebSocketHandle<S> {
    type V = Option<S>;

    /// The transport reference held, `None` once released.
    closed spec fn view(&self) -> Option<S> {
        self.0
    }
}

/// What sending `data` over a handle whose reference is `socket` yields.
pub open spec fn send_result<S>(socket: Option<S>, data: Option<String>) -> Result<
    Option<String>,
    HandleError,
> {
    match socket {
        Some(_) => Ok(data),
        None => Err(HandleError::SendAfterClose),
    }
}

/// What canceling a handle whose reference is `socket` yields: the reference
/// left in the handle, and the result handed to the caller.
pub open spec fn cancel_result<S>(socket: Option<S>) -> (Option<S>, Result<S, HandleError>) {
    match socket {
        Some(s) => (None, Ok(s)),
        None => (None, Err(HandleError::CloseTwice)),
    }
}

impl<S> WebSocketHandle<S> {
    /// A live handle over a freshly opened transport reference.
    pub fn new(socket: S) -> (r: Self)
        ensures
            r@ == Some(socket),
    {
        WebSocketHandle(Some(socket))
    }

    /// Whether the handle still holds the transport reference.
    pub fn is_live(&self) -> (r: bool)
        ensures
            r == self@.is_some(),
    {
        self.0.is_some()
    }

    /// The transport reference of a live handle.
    pub fn socket(&self) -> (r: &S)
        requires
            self@.is_some(),
        ensures
            self@ == Some(*r),
    {
        self.0.as_ref().unwrap()
    }

    /// Decides what to transmit for `data`, the payload already converted to
    /// its optional raw form. A live handle forwards it unchanged (nothing at
    /// all for `None`); a released one refuses it.
    pub fn send(&self, data: Option<String>) -> (r: Result<Option<String>, HandleError>)
        ensures
            r == send_result(self@, data),
    {
        if self.0.is_some() {
            Ok(data)
        } else {
            Err(HandleError::SendAfterClose)
        }
    }

    /// Releases the handle and hands out the transport reference, which the
    /// caller then closes. A released handle refuses and stays released.
    pub fn cancel(&mut self) -> (r: Result<S, HandleError>)
        ensures
            (final(self)@, r) == cancel_result(old(self)@),
    {
        match self.0.take() {
            Some(socket) => Ok(socket),
            None => Err(HandleError::CloseTwice),
        }
    }
}

/// Canceling a live handle releases it and hands out its reference exactly
/// once: a second cancel is refused, and so is every send after the first
/// cancel, while a send on the live handle forwards its payload unchanged.
pub proof fn lemma_cancel_once<S>(socket: S, data: Option<String>)
    ensures
        send_result(Some(socket), data) == Ok::<Option<String>, HandleError>(data),
        cancel_result(Some(socket)) == (None::<S>, Ok::<S, HandleError>(socket)),
        cancel_result(cancel_result(Some(socket)).0).1 == Err::<S, HandleError>(
            HandleError::CloseTwice,
        ),
        send_result(cancel_result(Some(socket)).0, data) == Err::<Option<String>, HandleError>(
            HandleError::SendAfterClose,
        ),
{
}

} // verus!
