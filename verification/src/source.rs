//! What the engine tells a filter about the content it is asked to
//! transform: identifier, direction, path, file mode and repository.

use vstd::prelude::*;
use crate::mode::{FilterMode, is_mode_code, mode_of_code};
use crate::oid::Oid;

verus! {

/// A repository, known to the bridge by the engine's handle only.
#[derive(Clone, Copy, Debug, PartialEq, Eq, Structural)]
pub struct Repository {
    handle: usize,
}

impl Repository {
    /// The engine's handle, as a number.
    pub closed spec fn token(self) -> usize {
        self.handle
    }

    /// A repository known by the engine's handle.
    pub fn from_handle(handle: usize) -> (repo: Repository)
        ensures
            repo.token() == handle,
    {
        Repository { handle }
    }

    /// The engine's handle.
    pub fn handle(&self) -> (handle: usize)
        ensures
            handle == self.token(),
    {
        self.handle
    }
}

/// The repository that owns the content being filtered, on loan from the
/// engine: the bridge reads through it and never releases it.
#[derive(Debug)]
pub struct FilterRepository(Repository);

impl FilterRepository {
    /// The repository on loan.
    pub closed spec fn repository(self) -> Repository {
        self.0
    }
}

impl std::ops::Deref for FilterRepository {
    type Target = Repository;

    fn deref(&self) -> (repo: &Repository)
        ensures
            *repo == self.repository(),
    {
        &self.0
    }
}

/// A path relative to the working copy, as the bytes the engine holds.
#[derive(Clone, Copy, Debug)]
pub struct FilterPath<'a> {
    bytes: &'a [u8],
}

impl<'a> View for FilterPath<'a> {
    type V = Seq<u8>;

    closed spec fn view(&self) -> Seq<u8> {
        self.bytes@
    }
}

impl<'a> FilterPath<'a> {
    /// The bytes of the path.
    pub fn as_bytes(&self) -> (bytes: &'a [u8])
        ensures
            bytes@ == self@,
    {
        self.bytes
    }
}

/// The answers of the engine's accessors for one invocation, a pointer
/// answer held as an `Option` that is `None` for null.
#[derive(Debug)]
pub struct RawSource {
    /// Identifier of the content; null for a stream that has none yet.
    pub id: Option<Oid>,
    /// Direction code.
    pub mode: u32,
    /// Path relative to the working copy; may be null.
    pub path: Option<Vec<u8>>,
    /// File mode in the POSIX style; zero when unknown.
    pub filemode: u16,
    /// Handle of the owning repository.
    pub repo: usize,
}

/// Read-only description of the content that one invocation filters. It is
/// valid for the duration of that invocation.
#[derive(Debug)]
pub struct FilterSource {
    raw: RawSource,
}

/// What a [`FilterSource`] holds, as plain mathematical values.
pub struct FilterSourceView {
    pub id: Option<Seq<u8>>,
    pub mode: FilterMode,
    pub path: Option<Seq<u8>>,
    pub filemode: u16,
    pub repo: usize,
}

/// The description that the engine's answers amount to.
pub open spec fn source_view(raw: RawSource) -> FilterSourceView {
    FilterSourceView {
        id: match raw.id {
            Some(id) => Some(id@),
            None => None,
        },
        mode: mode_of_code(raw.mode),
        path: match raw.path {
            Some(p) => Some(p@),
            None => None,
        },
        filemode: raw.filemode,
        repo: raw.repo,
    }
}

impl View for FilterSource {
    type V = FilterSourceView;

    closed spec fn view(&self) -> FilterSourceView {
        source_view(self.raw)
    }
}

impl FilterSource {
    #[verifier::type_invariant]
    spec fn inv(self) -> bool {
        is_mode_code(self.raw.mode)
    }

    /// Takes over the engine's answers. The engine always supplies one of
    /// the two directions; any other code breaks its contract and is not
    /// accepted here.
    pub fn from_raw(raw: RawSource) -> (src: FilterSource)
        requires
            is_mode_code(raw.mode),
        ensures
            src@ == source_view(raw),
    {
        FilterSource { raw }
    }

    /// The engine's answers as they were taken over.
    pub fn raw(&self) -> (raw: &RawSource)
        ensures
            source_view(*raw) == self@,
            is_mode_code(raw.mode),
    {
        proof {
            use_type_invariant(self);
        }
        &self.raw
    }

    /// The identifier of the content, present exactly when the engine gave
    /// one.
    pub fn id(&self) -> (id: Option<Oid>)
        ensures
            id is Some <==> self@.id is Some,
            id is Some ==> id->Some_0@ == self@.id->Some_0,
    {
        self.raw.id
    }

    /// The direction of the transformation.
    pub fn mode(&self) -> (mode: FilterMode)
        ensures
            mode == self@.mode,
    {
        proof {
            use_type_invariant(self);
        }
        FilterMode::from_raw(self.raw.mode)
    }

    /// The path as raw bytes, present exactly when the engine gave one.
    pub fn path_bytes(&self) -> (path: Option<&[u8]>)
        ensures
            path is Some <==> self@.path is Some,
            path is Some ==> path->Some_0@ == self@.path->Some_0,
    {
        match &self.raw.path {
            Some(p) => Some(p.as_slice()),
            None => None,
        }
    }

    /// The path as a path value, present exactly when the engine gave one;
    /// it holds the bytes of [`FilterSource::path_bytes`].
    pub fn path(&self) -> (path: Option<FilterPath<'_>>)
        ensures
            path is Some <==> self@.path is Some,
            path is Some ==> path->Some_0@ == self@.path->Some_0,
    {
        match self.path_bytes() {
            Some(bytes) => Some(FilterPath { bytes }),
            None => None,
        }
    }

    /// The file mode, present exactly when the engine knows one: zero
    /// stands for "unknown".
    pub fn filemode(&self) -> (filemode: Option<u16>)
        ensures
            filemode is Some <==> self@.filemode != 0,
            filemode is Some ==> filemode->Some_0 == self@.filemode,
    {
        if self.raw.filemode != 0 {
            Some(self.raw.filemode)
        } else {
            None
        }
    }

    /// The owning repository, on loan.
    pub fn repo(&self) -> (repo: FilterRepository)
        ensures
            repo.repository().token() == self@.repo,
    {
        FilterRepository(Repository::from_handle(self.raw.repo))
    }
}

} // verus!
