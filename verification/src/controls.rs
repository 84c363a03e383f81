//! The lifetime of a handle to the OS media controls.

use vstd::prelude::*;
use crate::error::Error;

verus! {

/// A handle to the OS media controls: attached to a platform backend until
/// detached.
///
/// `B` is the platform backend; the handle only decides when it is used and
/// when it is released.
pub struct MediaControls<B> {
    backend: Option<B>,
}

impl<B> MediaControls<B> {
    /// The backend while attached, `None` once detached.
    pub closed spec fn backend_view(&self) -> Option<B> {
        self.backend
    }

    /// A handle over a started backend; a failed start is passed through.
    pub fn new(started: Result<B, Error>) -> (controls: Result<MediaControls<B>, Error>)
        ensures
            match started {
                Ok(b) => controls matches Ok(c) && c.backend_view() == Some(b),
                Err(e) => controls == Err::<MediaControls<B>, Error>(e),
            },
    {
        match started {
            Ok(backend) => Ok(MediaControls { backend: Some(backend) }),
            Err(error) => Err(error),
        }
    }

    /// Whether the handle is still attached.
    pub fn is_attached(&self) -> (attached: bool)
        ensures
            attached == (self.backend_view() is Some),
    {
        self.backend.is_some()
    }

    /// The backend a new snapshot is published to, or `None` after detaching,
    /// where publishing is a no-op.
    pub fn publish_target(&mut self) -> (target: Option<&mut B>)
        ensures
            match old(self).backend_view() {
                None => target is None && final(self).backend_view() is None,
                Some(b) => target matches Some(r) && *r == b && final(self).backend_view()
                    == Some(*final(r)),
            },
    {
        self.backend.as_mut()
    }

    /// Detaches: hands back the backend to stop the first time, nothing after,
    /// so detaching is idempotent.
    pub fn detach(&mut self) -> (stopped: Option<B>)
        ensures
            stopped == old(self).backend_view(),
            final(self).backend_view() is None,
            old(self).backend_view() is None ==> stopped is None,
    {
        self.backend.take()
    }
}

} // verus!
