//! The exchange between the library and the code that touches the file system.
//!
//! Each operation of the catalog and of the storage is a state machine: it
//! hands out a `Request`, the caller carries it out and answers with a
//! `Reply`, and the operation takes the reply and hands out the next request
//! or its result.
use vstd::prelude::*;

use crate::catalog::metadata::CatalogMetadata;
use crate::catalog::{Catalog, TableSchema};
use crate::error::Error;

verus! {

/// What the caller is asked to do on the file system.
#[derive(Debug)]
pub enum Request {
    /// Tell whether the file at the path exists.
    CheckExists(String),
    /// Create each directory with its parents, in order, and stop at the first failure.
    CreateDirs(Vec<String>),
    /// Read the catalog file at the path and parse it from TOML.
    ReadCatalog(String),
    /// Write the catalog as TOML to the path, through a temporary file that is renamed.
    WriteCatalog(String, Catalog),
    /// Read the table schema file at the path and parse it from TOML.
    ReadTableSchema(String),
    /// Write the table schema as TOML to the path, through a temporary file that is renamed.
    WriteTableSchema(String, TableSchema),
    /// Create an empty file at the path and sync it.
    CreateFile(String),
    /// Remove the file at the path.
    RemoveFile(String),
    /// Read the catalog metadata file at the path and parse it from TOML.
    ReadMetadata(String),
    /// Write the catalog metadata as TOML to the path.
    WriteMetadata(String, CatalogMetadata),
}

/// How the caller answers a request.
#[derive(Debug)]
pub enum Reply {
    /// Whether the file exists, for `CheckExists`.
    Exists(bool),
    /// The directories or files were created, written or removed.
    Completed,
    /// The file system refused the request.
    IoFailed(std::io::Error),
    /// The catalog that the file holds, for `ReadCatalog`.
    CatalogLoaded(Catalog),
    /// The table schema that the file holds, for `ReadTableSchema`.
    SchemaLoaded(TableSchema),
    /// The catalog metadata that the file holds, for `ReadMetadata`.
    MetadataLoaded(CatalogMetadata),
    /// The file does not hold TOML of the expected shape; the parser's message.
    ParseFailed(String),
    /// The value could not be written as TOML; the serializer's message.
    SerializeFailed(String),
}

impl Reply {
    /// A reply to `CheckExists`.
    pub open spec fn answers_check(self) -> bool {
        self is Exists
    }

    /// A reply to `CreateDirs`, `CreateFile` and `RemoveFile`.
    pub open spec fn answers_effect(self) -> bool {
        self is Completed || self is IoFailed
    }

    /// A reply to `ReadCatalog`.
    pub open spec fn answers_read_catalog(self) -> bool {
        self is CatalogLoaded || self is IoFailed || self is ParseFailed
    }

    /// A reply to `ReadTableSchema`.
    pub open spec fn answers_read_schema(self) -> bool {
        self is SchemaLoaded || self is IoFailed || self is ParseFailed
    }

    /// A reply to `ReadMetadata`.
    pub open spec fn answers_read_metadata(self) -> bool {
        self is MetadataLoaded || self is IoFailed || self is ParseFailed
    }

    /// A reply to `WriteCatalog`, `WriteTableSchema` and `WriteMetadata`.
    pub open spec fn answers_write(self) -> bool {
        self is Completed || self is IoFailed || self is SerializeFailed
    }

    /// A reply of the kind that `request` calls for.
    pub open spec fn answers(self, request: Request) -> bool {
        match request {
            Request::CheckExists(_) => self.answers_check(),
            Request::CreateDirs(_) => self.answers_effect(),
            Request::ReadCatalog(_) => self.answers_read_catalog(),
            Request::WriteCatalog(_, _) => self.answers_write(),
            Request::ReadTableSchema(_) => self.answers_read_schema(),
            Request::WriteTableSchema(_, _) => self.answers_write(),
            Request::CreateFile(_) => self.answers_effect(),
            Request::RemoveFile(_) => self.answers_effect(),
            Request::ReadMetadata(_) => self.answers_read_metadata(),
            Request::WriteMetadata(_, _) => self.answers_write(),
        }
    }

    /// Whether this reply is of the kind that `request` calls for.
    pub fn is_answer_to(&self, request: &Request) -> (r: bool)
        ensures
            r == self.answers(*request),
    {
        match request {
            Request::CheckExists(_) => matches!(self, Reply::Exists(_)),
            Request::CreateDirs(_) | Request::CreateFile(_) | Request::RemoveFile(_) => matches!(
                self,
                Reply::Completed | Reply::IoFailed(_)
            ),
            Request::ReadCatalog(_) => matches!(
                self,
                Reply::CatalogLoaded(_) | Reply::IoFailed(_) | Reply::ParseFailed(_)
            ),
            Request::ReadTableSchema(_) => matches!(
                self,
                Reply::SchemaLoaded(_) | Reply::IoFailed(_) | Reply::ParseFailed(_)
            ),
            Request::ReadMetadata(_) => matches!(
                self,
                Reply::MetadataLoaded(_) | Reply::IoFailed(_) | Reply::ParseFailed(_)
            ),
            Request::WriteCatalog(_, _) | Request::WriteTableSchema(_, _) | Request::WriteMetadata(
                _,
                _,
            ) => matches!(self, Reply::Completed | Reply::IoFailed(_) | Reply::SerializeFailed(_)),
        }
    }
}

/// Where an operation stands: it waits for the answer to a request, or it is done.
#[derive(Debug)]
pub enum Step<S, T> {
    Next(S, Request),
    Done(Result<T, Error>),
}

} // verus!
