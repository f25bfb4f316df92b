//! The pipeline facade: the filters that the engine has lined up for one
//! file, and the requests by which the host has them loaded, queried and
//! applied.
//!
//! The engine does the loading and the filtering. The functions here work
//! out what to ask of it and read its answers; a request that cannot be
//! encoded fails before the engine is asked.

use vstd::prelude::*;
use vstd::string::StringSliceAdditionalSpecFns;
use crate::cstring::{has_nul, into_c_string, terminated};
use crate::error::{Error, CODE_ERROR};
use crate::flag::{FilterFlag, options_of_bits};
use crate::mode::{mode_code, FilterMode};
use crate::oid::zero_oid;
use crate::options::{effective_commit, FilterOptions, RawFilterOptions, FILTER_OPTIONS_VERSION};
use crate::source::Repository;

verus! {

/// A stored content blob, known to the bridge by the engine's handle only.
#[derive(Clone, Copy, Debug, PartialEq, Eq, Structural)]
pub struct Blob {
    handle: usize,
}

impl Blob {
    /// The engine's handle, as a number.
    pub closed spec fn token(self) -> usize {
        self.handle
    }

    /// A blob known by the engine's handle.
    pub fn from_handle(handle: usize) -> (blob: Blob)
        ensures
            blob.token() == handle,
    {
        Blob { handle }
    }

    /// The engine's handle.
    pub fn handle(&self) -> (handle: usize)
        ensures
            handle == self.token(),
    {
        self.handle
    }
}

/// The handle that stands for "no blob".
pub const NO_BLOB: usize = 0;

/// The handle that a blob, or the lack of one, is passed under.
pub open spec fn blob_token(blob: Option<&Blob>) -> usize {
    match blob {
        Some(b) => b.token(),
        None => NO_BLOB,
    }
}

/// What to ask of the engine to have the filters of a path loaded.
#[derive(Debug)]
pub struct LoadRequest {
    /// Handle of the repository.
    pub repo: usize,
    /// Handle of the blob whose content is to be filtered, or [`NO_BLOB`].
    pub blob: usize,
    /// The path, NUL-terminated.
    pub path: Vec<u8>,
    /// Direction code.
    pub mode: u32,
    /// Load configuration in the engine's layout.
    pub options: RawFilterOptions,
}

/// What to ask of the engine to have a list applied.
#[derive(Debug)]
pub enum ApplyRequest<'a> {
    /// Filter the bytes of `input`.
    Buffer { list: usize, input: &'a [u8] },
    /// Filter the file at the NUL-terminated `path`; the engine resolves a
    /// relative path against the working directory of `repo`.
    File { list: usize, repo: usize, path: Vec<u8> },
    /// Filter the content of `blob`.
    Blob { list: usize, blob: usize },
}

/// The filters that the engine has lined up for one file, in order. The
/// list is fixed once it is loaded.
#[derive(Debug)]
pub struct FilterList {
    handle: usize,
    len: usize,
}

impl FilterList {
    /// The engine's handle on the list; never null.
    pub closed spec fn token(self) -> usize {
        self.handle
    }

    /// Number of filters in the list.
    pub closed spec fn spec_len(self) -> nat {
        self.len as nat
    }

    #[verifier::type_invariant]
    spec fn inv(self) -> bool {
        self.handle != 0
    }

    /// The request that loads the filters for `path` in direction `mode`
    /// under `flags`. A path that holds a NUL cannot be encoded and gives
    /// an error.
    pub fn load(
        repo: &Repository,
        blob: Option<&Blob>,
        path: &str,
        mode: FilterMode,
        flags: FilterFlag,
    ) -> (r: Result<LoadRequest, Error>)
        ensures
            has_nul(path.spec_bytes()) <==> r is Err,
            r is Err ==> r->Err_0@.code == CODE_ERROR,
            r is Ok ==> ({
                let req = r->Ok_0;
                &&& req.repo == repo.token()
                &&& req.blob == blob_token(blob)
                &&& req.path@ == terminated(path.spec_bytes())
                &&& req.mode == mode_code(mode)
                &&& req.options.version == FILTER_OPTIONS_VERSION
                &&& req.options.flags == flags.raw_bits()
                &&& options_of_bits(req.options.flags) == flags@
                &&& req.options.attr_commit_id@ == zero_oid()
            }),
    {
        let mut options = FilterOptions::new();
        options.flags(flags);
        Self::load_ext(repo, blob, path, mode, &options)
    }

    /// The request that loads the filters for `path` in direction `mode`
    /// under the configuration `options`. A path that holds a NUL cannot
    /// be encoded and gives an error.
    pub fn load_ext(
        repo: &Repository,
        blob: Option<&Blob>,
        path: &str,
        mode: FilterMode,
        options: &FilterOptions,
    ) -> (r: Result<LoadRequest, Error>)
        ensures
            has_nul(path.spec_bytes()) <==> r is Err,
            r is Err ==> r->Err_0@.code == CODE_ERROR,
            r is Ok ==> ({
                let req = r->Ok_0;
                &&& req.repo == repo.token()
                &&& req.blob == blob_token(blob)
                &&& req.path@ == terminated(path.spec_bytes())
                &&& req.mode == mode_code(mode)
                &&& req.options.version == FILTER_OPTIONS_VERSION
                &&& req.options.flags == options.flag_set().raw_bits()
                &&& options_of_bits(req.options.flags) == options@.flags
                &&& req.options.attr_commit_id@ == effective_commit(options@)
            }),
    {
        let encoded = match into_c_string(path) {
            Ok(encoded) => encoded,
            Err(e) => {
                return Err(e);
            },
        };
        let blob_handle: usize = match blob {
            Some(b) => b.handle(),
            None => NO_BLOB,
        };
        Ok(
            LoadRequest {
                repo: repo.handle(),
                blob: blob_handle,
                path: encoded,
                mode: mode.raw(),
                options: options.raw(),
            },
        )
    }

    /// Takes over a list that the engine has loaded, with the number of
    /// filters in it. A null handle means that no filter applies, and
    /// gives no list.
    pub fn from_raw(handle: usize, len: usize) -> (list: Option<FilterList>)
        ensures
            handle == 0 <==> list is None,
            list is Some ==> list->Some_0.token() == handle && list->Some_0.spec_len() == len,
    {
        if handle == 0 {
            None
        } else {
            Some(FilterList { handle, len })
        }
    }

    /// Reads the engine's answer to a [`LoadRequest`]: a negative code is
    /// the engine's error, a null handle means that no filter applies, and
    /// anything else is the list.
    pub fn loaded(code: i32, message: &str, handle: usize, len: usize) -> (r: Result<
        Option<FilterList>,
        Error,
    >)
        ensures
            code < 0 <==> r is Err,
            r is Err ==> r->Err_0@.code == code && r->Err_0@.message == message@,
            r is Ok ==> (handle == 0 <==> r->Ok_0 is None),
            r is Ok && r->Ok_0 is Some ==> r->Ok_0->Some_0.token() == handle
                && r->Ok_0->Some_0.spec_len() == len,
    {
        if code < 0 {
            Err(Error::new(code, message))
        } else {
            Ok(Self::from_raw(handle, len))
        }
    }

    /// The engine's handle on the list.
    pub fn raw(&self) -> (handle: usize)
        ensures
            handle == self.token(),
            handle != 0,
    {
        proof {
            use_type_invariant(self);
        }
        self.handle
    }

    /// Number of filters in the list.
    pub fn len(&self) -> (n: usize)
        ensures
            n == self.spec_len(),
    {
        self.len
    }

    /// Whether the list holds no filter.
    pub fn is_empty(&self) -> (b: bool)
        ensures
            b <==> self.spec_len() == 0,
    {
        self.len == 0
    }

    /// The question to put to the engine to learn whether a filter named
    /// `name` is in the list: the NUL-terminated name. A name that cannot
    /// be encoded is in no list, so there is nothing to ask and the answer
    /// is "no".
    pub fn contains_query(&self, name: &str) -> (query: Option<Vec<u8>>)
        ensures
            has_nul(name.spec_bytes()) <==> query is None,
            query is Some ==> query->Some_0@ == terminated(name.spec_bytes()),
    {
        match into_c_string(name) {
            Ok(encoded) => Some(encoded),
            Err(_) => None,
        }
    }

    /// Reads the engine's answer to a containment question, `None` where
    /// there was nothing to ask: the filter is in the list exactly when
    /// the engine was asked and answered with a non-zero number.
    pub fn contains_answer(answer: Option<i32>) -> (found: bool)
        ensures
            found <==> answer is Some && answer->Some_0 != 0,
    {
        match answer {
            Some(n) => n != 0,
            None => false,
        }
    }

    /// The request that filters the bytes of `input`.
    pub fn apply_to_buffer<'a>(&self, input: &'a [u8]) -> (req: ApplyRequest<'a>)
        ensures
            req matches ApplyRequest::Buffer { list, input: bytes } && list == self.token()
                && bytes@ == input@,
    {
        ApplyRequest::Buffer { list: self.handle, input }
    }

    /// The request that filters the file at `path`. A path that holds a
    /// NUL cannot be encoded and gives an error.
    pub fn apply_to_file(&self, repo: &Repository, path: &str) -> (r: Result<
        ApplyRequest<'static>,
        Error,
    >)
        ensures
            has_nul(path.spec_bytes()) <==> r is Err,
            r is Err ==> r->Err_0@.code == CODE_ERROR,
            r is Ok ==> (r->Ok_0 matches ApplyRequest::File { list, repo: handle, path: encoded }
                && list == self.token() && handle == repo.token() && encoded@ == terminated(
                path.spec_bytes(),
            )),
    {
        match into_c_string(path) {
            Ok(encoded) => Ok(
                ApplyRequest::File { list: self.handle, repo: repo.handle(), path: encoded },
            ),
            Err(e) => Err(e),
        }
    }

    /// The request that filters the content of `blob`.
    pub fn apply_to_blob(&self, blob: &Blob) -> (req: ApplyRequest<'static>)
        ensures
            req matches ApplyRequest::Blob { list, blob: handle } && list == self.token()
                && handle == blob.token(),
    {
        ApplyRequest::Blob { list: self.handle, blob: blob.handle() }
    }

    /// Reads the engine's answer to an [`ApplyRequest`]: a negative code is
    /// the engine's error, with its code and message unchanged; otherwise
    /// the result is the output buffer, which is empty where the engine
    /// left it null.
    pub fn applied(code: i32, message: &str, output: Option<Vec<u8>>) -> (r: Result<Vec<u8>, Error>)
        ensures
            code < 0 <==> r is Err,
            r is Err ==> r->Err_0@.code == code && r->Err_0@.message == message@,
            r is Ok && output is Some ==> r->Ok_0@ == output->Some_0@,
            r is Ok && output is None ==> r->Ok_0@ == Seq::<u8>::empty(),
    {
        if code < 0 {
            Err(Error::new(code, message))
        } else {
            match output {
                Some(bytes) => Ok(bytes),
                None => Ok(Vec::new()),
            }
        }
    }
}

/// A list is empty exactly when its length is zero.
pub proof fn lemma_empty_iff_len_zero(list: FilterList, n: usize, b: bool)
    requires
        n == list.spec_len(),
        b <==> list.spec_len() == 0,
    ensures
        b <==> n == 0,
{
}

} // verus!
