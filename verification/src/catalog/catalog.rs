//! Creating a catalog directory with its metadata file, and reading the metadata back.
use vstd::prelude::*;

use crate::catalog::metadata::{
    metadata_path, metadata_write_result, metadata_written, CatalogMetadata, ReadMetadata,
    CATALOG_METADATA_FILE_NAME, CATALOG_METADATA_LATEST_VERSION,
};
use crate::driver::{Reply, Request, Step};
use crate::error::Error;
use crate::text::join_path;

verus! {

/// Creating a catalog directory, by the step it waits for.
pub enum CreateInDir {
    /// Waits to learn whether the metadata file exists already.
    CheckingMetadata { dir: String },
    /// Waits for the directory to be created.
    CreatingDir { dir: String },
    /// Waits for the new metadata to be written.
    WritingMetadata,
}

impl CreateInDir {
    /// The replies that the operation can take in its present step.
    pub open spec fn takes(self, reply: Reply) -> bool {
        match self {
            CreateInDir::CheckingMetadata { .. } => reply.answers_check(),
            CreateInDir::CreatingDir { .. } => reply.answers_effect(),
            CreateInDir::WritingMetadata => reply.answers_write(),
        }
    }

    /// How the operation goes on from its present step on `reply`: a catalog
    /// already there is refused; else the directory is created, then the
    /// metadata of a new catalog is written into it.
    pub open spec fn steps_to(self, reply: Reply, r: Step<CreateInDir, ()>) -> bool {
        match self {
            CreateInDir::CheckingMetadata { dir } => match reply {
                Reply::Exists(true) => r matches Step::Done(Err(Error::CatalogExists { path }))
                    && path@ == dir@,
                _ => r matches Step::Next(CreateInDir::CreatingDir { dir: d }, Request::CreateDirs(dirs))
                    && d == dir && dirs@.len() == 1 && dirs@[0]@ == dir@,
            },
            CreateInDir::CreatingDir { dir } => match reply {
                Reply::IoFailed(e) => r matches Step::Done(
                    Err(Error::CatalogDirCreationFailed { path, source }),
                ) && path@ == dir@ && source == e,
                _ => r matches Step::Next(
                    CreateInDir::WritingMetadata,
                    Request::WriteMetadata(path, m),
                ) && path@ == metadata_path(dir@) && m == CatalogMetadata {
                    engine: crate::catalog::metadata::DbEngine::Komora,
                    version: CATALOG_METADATA_LATEST_VERSION,
                },
            },
            CreateInDir::WritingMetadata => r == Step::<CreateInDir, ()>::Done(
                metadata_write_result(reply),
            ),
        }
    }

    /// Whether the operation can take `reply` in its present step.
    pub fn accepts(&self, reply: &Reply) -> (r: bool)
        ensures
            r == self.takes(*reply),
    {
        match self {
            CreateInDir::CheckingMetadata { .. } => matches!(reply, Reply::Exists(_)),
            CreateInDir::CreatingDir { .. } => matches!(reply, Reply::Completed | Reply::IoFailed(_)),
            CreateInDir::WritingMetadata => matches!(
                reply,
                Reply::Completed | Reply::IoFailed(_) | Reply::SerializeFailed(_)
            ),
        }
    }

    /// Takes the answer to the present request and goes on.
    pub fn resume(self, reply: Reply) -> (r: Step<CreateInDir, ()>)
        requires
            self.takes(reply),
        ensures
            self.steps_to(reply, r),
    {
        match self {
            CreateInDir::CheckingMetadata { dir } => match reply {
                Reply::Exists(true) => Step::Done(Err(Error::CatalogExists { path: dir })),
                _ => {
                    let mut dirs: Vec<String> = Vec::new();
                    dirs.push(dir.clone());
                    Step::Next(CreateInDir::CreatingDir { dir }, Request::CreateDirs(dirs))
                },
            },
            CreateInDir::CreatingDir { dir } => match reply {
                Reply::IoFailed(e) => Step::Done(
                    Err(Error::CatalogDirCreationFailed { path: dir, source: e }),
                ),
                _ => {
                    let path = join_path(dir.as_str(), CATALOG_METADATA_FILE_NAME);
                    Step::Next(
                        CreateInDir::WritingMetadata,
                        Request::WriteMetadata(path, CatalogMetadata::new()),
                    )
                },
            },
            CreateInDir::WritingMetadata => Step::Done(metadata_written(reply)),
        }
    }
}

/// Creates a catalog in the directory `dir`: refuses one where a metadata
/// file is already, then creates the directory and writes the metadata of a
/// new catalog into it.
pub fn create_in_dir(dir: &str) -> (r: Step<CreateInDir, ()>)
    ensures
        r matches Step::Next(CreateInDir::CheckingMetadata { dir: d }, Request::CheckExists(path))
            && d@ == dir@ && path@ == metadata_path(dir@),
{
    let path = join_path(dir, CATALOG_METADATA_FILE_NAME);
    Step::Next(CreateInDir::CheckingMetadata { dir: String::from_str(dir) }, Request::CheckExists(path))
}

/// Reads the metadata of the catalog in the directory `dir`.
pub fn read_catalog_metadata(dir: &str) -> (r: Step<ReadMetadata, CatalogMetadata>)
    ensures
        r matches Step::Next(_, Request::ReadMetadata(path)) && path@ == metadata_path(dir@),
{
    CatalogMetadata::read_from_dir(dir)
}

} // verus!
