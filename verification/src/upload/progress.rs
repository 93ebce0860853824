//! Shared progress state for the LISTEN upload pipeline.
//!
//! The upload thread writes here; the render thread reads during each TUI
//! tick. All fields are atomics, so progress flows without locks. What a
//! read returns depends on what other threads stored meanwhile, so the
//! accessors below promise nothing about the values they see; the phase
//! encoding they share is proved separately.
use vstd::prelude::*;
use std::sync::Arc;
use std::sync::atomic::{AtomicU8, AtomicU64};
use std::sync::atomic::Ordering;

verus! {

#[derive(Debug, Clone, Copy, PartialEq, Eq)]
pub enum UploadPhase {
    Preparing,
    Uploading,
    Finalizing,
}

/// The byte stored for each phase.
pub open spec fn phase_code(p: UploadPhase) -> u8 {
    match p {
        UploadPhase::Preparing => 0,
        UploadPhase::Uploading => 1,
        UploadPhase::Finalizing => 2,
    }
}

/// The phase a stored byte stands for; anything past the last code reads
/// as the last phase.
pub open spec fn phase_of_code(c: u8) -> UploadPhase {
    if c == 0 {
        UploadPhase::Preparing
    } else if c == 1 {
        UploadPhase::Uploading
    } else {
        UploadPhase::Finalizing
    }
}

impl UploadPhase {
    pub fn code(self) -> (r: u8)
        ensures
            r == phase_code(self),
    {
        match self {
            UploadPhase::Preparing => 0,
            UploadPhase::Uploading => 1,
            UploadPhase::Finalizing => 2,
        }
    }

    pub fn from_code(c: u8) -> (r: UploadPhase)
        ensures
            r == phase_of_code(c),
    {
        if c == 0 {
            UploadPhase::Preparing
        } else if c == 1 {
            UploadPhase::Uploading
        } else {
            UploadPhase::Finalizing
        }
    }
}

/// Storing a phase and reading the byte back gives the same phase.
pub proof fn phase_code_round_trip(p: UploadPhase)
    ensures
        phase_of_code(phase_code(p)) == p,
{
}

#[derive(Debug)]
pub struct UploadProgress {
    phase: AtomicU8,
    bytes_uploaded: AtomicU64,
    bytes_total: AtomicU64,
}

impl UploadProgress {
    /// A fresh progress record: Preparing, nothing uploaded, total unknown.
    pub fn new() -> Arc<Self> {
        Arc::new(UploadProgress {
            phase: AtomicU8::new(UploadPhase::Preparing.code()),
            bytes_uploaded: AtomicU64::new(0),
            bytes_total: AtomicU64::new(0),
        })
    }

    pub fn set_phase(&self, p: UploadPhase) {
        self.phase.store(p.code(), Ordering::Relaxed);
    }

    pub fn phase(&self) -> UploadPhase {
        UploadPhase::from_code(self.phase.load(Ordering::Relaxed))
    }

    pub fn set_total(&self, n: u64) {
        self.bytes_total.store(n, Ordering::Relaxed);
    }

    pub fn total(&self) -> u64 {
        self.bytes_total.load(Ordering::Relaxed)
    }

    /// Adds `n` bytes (wrapping, like every atomic add).
    pub fn add_uploaded(&self, n: u64) {
        self.bytes_uploaded.fetch_add(n, Ordering::Relaxed);
    }

    pub fn uploaded(&self) -> u64 {
        self.bytes_uploaded.load(Ordering::Relaxed)
    }
}

#[verifier::external_type_specification]
#[verifier::external_body]
pub struct ExIoError(std::io::Error);

/// Reads from `inner` into `buf`.
///
/// Trusted: calls `std::io::Read::read`. What it returns depends on the
/// reader's state (a file, a socket), so nothing is claimed of the result.
#[verifier::external_body]
fn read_inner<R: std::io::Read>(inner: &mut R, buf: &mut [u8]) -> Result<usize, std::io::Error> {
    inner.read(buf)
}

/// A reader that records the bytes flowing through it into an
/// `UploadProgress`, so the PUT body can be observed from the upload thread.
pub struct ProgressReader<R> {
    inner: R,
    progress: Arc<UploadProgress>,
}

impl<R> ProgressReader<R> {
    pub fn new(inner: R, progress: Arc<UploadProgress>) -> (r: Self)
        ensures
            r.inner() == inner,
            r.progress() == progress,
    {
        ProgressReader { inner, progress }
    }

    pub closed spec fn inner(self) -> R {
        self.inner
    }

    pub closed spec fn progress(self) -> Arc<UploadProgress> {
        self.progress
    }
}

/// Passes a read result on after crediting a successful read of `n > 0`
/// bytes to `progress`. The result comes back as it was, count or error.
/// (What the crediting does to the counter is not stated: std's atomics
/// have no value specification.)
pub fn settle(res: Result<usize, std::io::Error>, progress: &Arc<UploadProgress>) -> (r: Result<usize, std::io::Error>)
    ensures
        r == res,
{
    match res {
        Ok(n) => {
            if n > 0 {
                progress.add_uploaded(n as u64);
            }
            Ok(n)
        },
        Err(e) => Err(e),
    }
}

impl<R: std::io::Read> ProgressReader<R> {
    /// Reads once from the wrapped reader into `buf` and hands its result
    /// to `settle`, which credits a successful read of `n > 0` bytes to the
    /// progress record and returns the result unchanged.
    pub fn read(&mut self, buf: &mut [u8]) -> (r: Result<usize, std::io::Error>)
        ensures
            final(self).progress() == old(self).progress(),
    {
        let res = read_inner(&mut self.inner, buf);
        settle(res, &self.progress)
    }
}

} // verus!
