use vstd::prelude::*;
use crate::sink::BoundedSink;
use crate::source::MemorySource;

verus! {

/// The mathematical view of one installed stream backend: everything the
/// contracts speak of, with the opaque file handle left out.
#[verifier::ext_equal]
pub enum StreamModel {
    /// A readable stream over an open file at `path`.
    FileSource { path: Seq<char> },
    /// A writable stream into an open file at `path`, truncated on open.
    FileSink { path: Seq<char> },
    /// A readable stream over an owned byte sequence, `cursor` bytes of it
    /// already consumed.
    MemorySource { data: Seq<u8>, cursor: nat },
    /// A writable stream into a shared buffer under a hard capacity.
    BoundedSink { data: Seq<u8>, capacity: nat, frozen: bool },
}

impl StreamModel {
    /// Whether a guest may read from a backend of this shape.
    pub open spec fn is_readable(self) -> bool {
        match self {
            StreamModel::FileSource { .. } => true,
            StreamModel::MemorySource { .. } => true,
            StreamModel::FileSink { .. } => false,
            StreamModel::BoundedSink { .. } => false,
        }
    }

    /// Whether a guest may write to a backend of this shape.
    pub open spec fn is_writable(self) -> bool {
        match self {
            StreamModel::FileSink { .. } => true,
            StreamModel::BoundedSink { .. } => true,
            StreamModel::FileSource { .. } => false,
            StreamModel::MemorySource { .. } => false,
        }
    }
}

/// One stream backend, exactly as a context slot holds it: the closed set
/// of interchangeable implementations a host may install.
pub enum StreamBackend {
    /// Reads from an open file; constructing it opened `path` read-only.
    FileSource { path: String, file: cap_std::fs::File },
    /// Writes to an open file; constructing it created or truncated `path`.
    FileSink { path: String, file: cap_std::fs::File },
    /// Reads from an owned copy of a byte sequence.
    MemorySource { source: MemorySource },
    /// Writes into a shared buffer under a hard capacity.
    BoundedSink { sink: BoundedSink },
}

impl StreamBackend {
    /// The backend's view.
    pub open spec fn model(&self) -> StreamModel {
        match self {
            StreamBackend::FileSource { path, .. } => StreamModel::FileSource { path: path@ },
            StreamBackend::FileSink { path, .. } => StreamModel::FileSink { path: path@ },
            StreamBackend::MemorySource { source } => StreamModel::MemorySource {
                data: source.data(),
                cursor: source.cursor(),
            },
            StreamBackend::BoundedSink { sink } => StreamModel::BoundedSink {
                data: sink.contents(),
                capacity: sink.cap(),
                frozen: sink.frozen(),
            },
        }
    }

    /// The internal invariants of the in-memory backends.
    pub open spec fn wf(&self) -> bool {
        match self {
            StreamBackend::MemorySource { source } => source.wf(),
            StreamBackend::BoundedSink { sink } => sink.wf(),
            _ => true,
        }
    }
}

} // verus!
