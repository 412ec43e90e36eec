//! The sink itself.

use vstd::prelude::*;
use std::path::PathBuf;
use std::sync::Arc;
use std::sync::atomic::AtomicBool;
use std::sync::atomic::Ordering;
use signal_hook::SigId;
use crate::error::Error;
use crate::platform::SIGHUP;
use crate::protocol::{after_open, after_sync, first_action, Action, Sink};

verus! {

/// How a file is opened.
#[derive(Clone, Copy, Debug, PartialEq, Eq)]
pub struct OpenMode {
    /// Every write goes to the end of the file, whatever was written to it
    /// since it was opened.
    pub append: bool,
    /// The file is made if there is none at the path. Its directory is not.
    pub create: bool,
}

/// How the file at a sink's path is to be opened, the first time and on
/// every rotation: for appending, and made if it is not there.
pub fn open_mode() -> (mode: OpenMode)
    ensures
        mode == (OpenMode { append: true, create: true }),
{
    OpenMode { append: true, create: true }
}

/// An append-only sink over the file at one path, which opens that file anew
/// when the process is sent a hangup signal.
///
/// `H` is the open file. The sink owns it, replaces it on rotation and lends
/// it out for input and output, which is its caller's to do: see
/// [`crate::protocol`].
#[derive(Debug)]
pub struct File<H> {
    path: PathBuf,
    file: Option<H>,
    should_rotate: Arc<AtomicBool>,
    sig_id: SigId,
}

impl<H> View for File<H> {
    type V = Sink<H>;

    closed spec fn view(&self) -> Sink<H> {
        Sink {
            path: self.path,
            handle: self.file,
            flag: self.should_rotate,
            subscription: self.sig_id,
        }
    }
}

impl<H> File<H> {
    /// Makes a sink for `path` out of `opened`, the outcome of opening the
    /// file there as [`open_mode`] says. A failed open is handed back as
    /// [`Error::Open`] and nothing is registered. Otherwise a fresh flag is
    /// registered for the hangup signal; if that fails, the file is closed
    /// and the failure handed back as [`Error::Register`].
    pub fn open(path: PathBuf, opened: Result<H, std::io::Error>) -> (made: Result<Self, Error>)
        ensures
            match opened {
                Err(e) => made == Err::<Self, Error>(Error::Open(e)),
                Ok(handle) => match made {
                    Ok(file) => file@.path == path && file@.handle == Some(handle),
                    Err(e) => e is Register,
                },
            },
    {
        match opened {
            Err(e) => Err(Error::Open(e)),
            Ok(handle) => {
                let flag = Arc::new(AtomicBool::new(false));
                let registration = signal_hook::flag::register(SIGHUP, flag.clone());
                Self::attach(path, handle, flag, registration)
            },
        }
    }

    /// Makes a sink for `path` that holds `handle` and polls `flag`, out of
    /// `registration`, the outcome of registering `flag` for the hangup
    /// signal. A failed registration is handed back as [`Error::Register`],
    /// and `handle` is dropped.
    ///
    /// The sink takes the caller's word that `registration` was made with
    /// `flag`: with another flag it never hears a hangup.
    pub fn attach(
        path: PathBuf,
        handle: H,
        flag: Arc<AtomicBool>,
        registration: Result<SigId, std::io::Error>,
    ) -> (made: Result<Self, Error>)
        ensures
            match registration {
                Ok(id) => made matches Ok(file) && file@ == (Sink {
                    path,
                    handle: Some(handle),
                    flag,
                    subscription: id,
                }),
                Err(e) => made == Err::<Self, Error>(Error::Register(e)),
            },
    {
        match registration {
            Ok(sig_id) => Ok(File { path, file: Some(handle), should_rotate: flag, sig_id }),
            Err(e) => Err(Error::Register(e)),
        }
    }

    /// Begins a write call: reads and clears the flag, and names the first
    /// action. Whether a hangup has arrived is not the sink's to know
    /// beforehand, so the action is that of [`Self::begin`] for one of the
    /// two answers.
    pub fn reopen_if_needed(&mut self) -> (action: Action)
        ensures
            final(self)@ == old(self)@,
            action == first_action(old(self)@, true) || action == first_action(old(self)@, false),
    {
        let requested = self.should_rotate.swap(false, Ordering::Relaxed);
        self.begin(requested)
    }

    /// Names the first action of a write call, given whether a rotation was
    /// requested.
    pub fn begin(&self, requested: bool) -> (action: Action)
        ensures
            action == first_action(self@, requested),
    {
        if self.file.is_none() {
            Action::Fail(Error::Closed)
        } else if requested {
            Action::Sync
        } else {
            Action::Write
        }
    }

    /// Takes the outcome of [`Action::Sync`] and names the next action. On
    /// success the old file is closed.
    pub fn synced(&mut self, outcome: Result<(), std::io::Error>) -> (action: Action)
        ensures
            (final(self)@, action) == after_sync(old(self)@, outcome),
    {
        match outcome {
            Ok(_) => {
                self.file = None;
                Action::Reopen
            },
            Err(e) => Action::Fail(Error::Sync(e)),
        }
    }

    /// Takes the outcome of [`Action::Reopen`] and names the next action. On
    /// success the new file is the sink's open file from now on.
    pub fn reopened(&mut self, outcome: Result<H, std::io::Error>) -> (action: Action)
        ensures
            (final(self)@, action) == after_open(old(self)@, outcome),
    {
        match outcome {
            Ok(handle) => {
                self.file = Some(handle);
                Action::Write
            },
            Err(e) => Action::Fail(Error::Open(e)),
        }
    }

    /// The path at which the sink opens its file.
    pub fn path(&self) -> (path: &PathBuf)
        ensures
            *path == self@.path,
    {
        &self.path
    }

    /// The open file, or [`Error::Closed`] if the sink holds none. The flag is
    /// left alone.
    pub fn file(&self) -> (lent: Result<&H, Error>)
        ensures
            match self@.handle {
                Some(handle) => lent == Ok::<&H, Error>(&handle),
                None => lent == Err::<&H, Error>(Error::Closed),
            },
    {
        match &self.file {
            Some(handle) => Ok(handle),
            None => Err(Error::Closed),
        }
    }

    /// The open file, to write to or to flush, or [`Error::Closed`] if the
    /// sink holds none. The flag is left alone: only a write call rotates.
    pub fn file_mut(&mut self) -> (lent: Result<&mut H, Error>)
        ensures
            match old(self)@.handle {
                Some(handle) => lent matches Ok(h) && *h == handle && final(self)@ == (Sink {
                    handle: Some(*final(h)),
                    ..old(self)@
                }),
                None => lent matches Err(e) && e == Error::Closed && final(self)@ == old(self)@,
            },
    {
        match &mut self.file {
            Some(handle) => Ok(handle),
            None => Err(Error::Closed),
        }
    }

    /// Ends the sink: releases its registration, so that a later hangup no
    /// longer reaches its flag, and hands out the open file, if it holds one.
    ///
    /// A sink that is dropped without this call stays registered. A hangup
    /// then still raises its flag, which nothing reads any more.
    pub fn close(self) -> (handle: Option<H>)
        ensures
            handle == self@.handle,
    {
        let File { path, file, should_rotate, sig_id } = self;
        signal_hook::low_level::unregister(sig_id);
        file
    }
}

} // verus!
