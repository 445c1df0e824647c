//! The catalog metadata file: which engine wrote the catalog, and in which version.
use vstd::prelude::*;

use crate::driver::{Reply, Request, Step};
use crate::error::Error;
use crate::text::{join_path, path_join};

verus! {

/// The engine that wrote the catalog metadata.
#[derive(PartialEq, Eq, Structural, Debug, Clone, Copy)]
pub enum DbEngine {
    Komora,
}

/// The newest metadata format; metadata of higher versions is refused.
pub const CATALOG_METADATA_LATEST_VERSION: u16 = 1;

/// The name of the catalog metadata file inside the catalog directory.
pub const CATALOG_METADATA_FILE_NAME: &'static str = "catalog_metadata.toml";

/// The catalog metadata.
#[derive(PartialEq, Eq, Structural, Debug, Clone, Copy)]
pub struct CatalogMetadata {
    pub engine: DbEngine,
    pub version: u16,
}

/// The path of the metadata file in the catalog directory `dir`.
pub open spec fn metadata_path(dir: Seq<char>) -> Seq<char> {
    path_join(dir, CATALOG_METADATA_FILE_NAME@)
}

/// The outcome of writing metadata, from the reply to `WriteMetadata`.
pub open spec fn metadata_write_result(reply: Reply) -> Result<(), Error> {
    match reply {
        Reply::SerializeFailed(message) => Err(Error::CatalogSerializationFailed(message)),
        Reply::IoFailed(e) => Err(Error::CatalogMetadataWriteFailed { source: e }),
        _ => Ok(()),
    }
}

/// The outcome of reading metadata, from the reply to `ReadMetadata`:
/// metadata of a version above the latest is refused.
pub open spec fn metadata_read_result(reply: Reply) -> Result<CatalogMetadata, Error> {
    match reply {
        Reply::MetadataLoaded(m) => if m.version > CATALOG_METADATA_LATEST_VERSION {
            Err(Error::IncompatibleCatalogMetadataVersion)
        } else {
            Ok(m)
        },
        Reply::IoFailed(e) => Err(Error::CatalogMetadataReadFailed { source: e }),
        Reply::ParseFailed(message) => Err(Error::CatalogMetadataDeserializationFailed(message)),
        _ => Err(Error::IncompatibleCatalogMetadataVersion),
    }
}

/// Maps the reply to `WriteMetadata` to the outcome of the write.
pub fn metadata_written(reply: Reply) -> (r: Result<(), Error>)
    requires
        reply.answers_write(),
    ensures
        r == metadata_write_result(reply),
{
    match reply {
        Reply::SerializeFailed(message) => Err(Error::CatalogSerializationFailed(message)),
        Reply::IoFailed(e) => Err(Error::CatalogMetadataWriteFailed { source: e }),
        _ => Ok(()),
    }
}

/// Maps the reply to `ReadMetadata` to the metadata read, refusing a newer version.
pub fn metadata_read(reply: Reply) -> (r: Result<CatalogMetadata, Error>)
    requires
        reply.answers_read_metadata(),
    ensures
        r == metadata_read_result(reply),
{
    match reply {
        Reply::MetadataLoaded(m) => {
            if m.version > CATALOG_METADATA_LATEST_VERSION {
                Err(Error::IncompatibleCatalogMetadataVersion)
            } else {
                Ok(m)
            }
        },
        Reply::IoFailed(e) => Err(Error::CatalogMetadataReadFailed { source: e }),
        Reply::ParseFailed(message) => Err(Error::CatalogMetadataDeserializationFailed(message)),
        _ => Err(Error::IncompatibleCatalogMetadataVersion),
    }
}

/// Writing catalog metadata: waits for the answer to `WriteMetadata`.
pub struct WriteMetadata;

impl WriteMetadata {
    /// Whether `reply` answers the request that this operation waits for.
    pub fn accepts(&self, reply: &Reply) -> (r: bool)
        ensures
            r == reply.answers_write(),
    {
        matches!(reply, Reply::Completed | Reply::IoFailed(_) | Reply::SerializeFailed(_))
    }

    /// Takes the answer and finishes.
    pub fn resume(self, reply: Reply) -> (r: Step<WriteMetadata, ()>)
        requires
            reply.answers_write(),
        ensures
            r == Step::<WriteMetadata, ()>::Done(metadata_write_result(reply)),
    {
        Step::Done(metadata_written(reply))
    }
}

/// Reading catalog metadata: waits for the answer to `ReadMetadata`.
pub struct ReadMetadata;

impl ReadMetadata {
    /// Whether `reply` answers the request that this operation waits for.
    pub fn accepts(&self, reply: &Reply) -> (r: bool)
        ensures
            r == reply.answers_read_metadata(),
    {
        matches!(reply, Reply::MetadataLoaded(_) | Reply::IoFailed(_) | Reply::ParseFailed(_))
    }

    /// Takes the answer and finishes with the metadata read.
    pub fn resume(self, reply: Reply) -> (r: Step<ReadMetadata, CatalogMetadata>)
        requires
            reply.answers_read_metadata(),
        ensures
            r == Step::<ReadMetadata, CatalogMetadata>::Done(metadata_read_result(reply)),
    {
        Step::Done(metadata_read(reply))
    }
}

impl CatalogMetadata {
    /// The metadata of a new catalog: written by Komora, in the latest version.
    #[must_use]
    pub fn new() -> (r: CatalogMetadata)
        ensures
            r == (CatalogMetadata { engine: DbEngine::Komora, version: CATALOG_METADATA_LATEST_VERSION }),
    {
        CatalogMetadata { engine: DbEngine::Komora, version: CATALOG_METADATA_LATEST_VERSION }
    }

    /// Writes this metadata to the file `file_name`.
    pub fn write(self, file_name: String) -> (r: Step<WriteMetadata, ()>)
        ensures
            r matches Step::Next(_, Request::WriteMetadata(path, m)) && path == file_name && m == self,
    {
        Step::Next(WriteMetadata, Request::WriteMetadata(file_name, self))
    }

    /// Reads the metadata of the catalog in the directory `dir`.
    pub fn read_from_dir(dir: &str) -> (r: Step<ReadMetadata, CatalogMetadata>)
        ensures
            r matches Step::Next(_, Request::ReadMetadata(path)) && path@ == metadata_path(dir@),
    {
        Step::Next(ReadMetadata, Request::ReadMetadata(join_path(dir, CATALOG_METADATA_FILE_NAME)))
    }
}

} // verus!
