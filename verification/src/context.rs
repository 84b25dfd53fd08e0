use vstd::prelude::*;
use crate::backend::{StreamBackend, StreamModel};
use crate::buffer::ByteBuffer;
use crate::engine::{
    fresh_wasi_ctx, wasi_set_stderr_file, wasi_set_stdin_bytes, wasi_set_stdin_file,
    wasi_set_stdout_file,
};
use crate::error::{IoError, WriteError};
use crate::host_fs::{create_file_for_write, file_read_upto, file_write_all, open_file_for_read};
use crate::sink::{spec_sink_write, BoundedSink};
use crate::source::{spec_source_read, MemorySource};

verus! {

/// The view of a whole context: one stream model per slot.
#[verifier::ext_equal]
pub struct ContextModel {
    pub stdin: StreamModel,
    pub stdout: StreamModel,
    pub stderr: StreamModel,
}

/// The shape a deterministic context is built with: an empty in-memory
/// stdin and fresh unbounded in-memory sinks for stdout and stderr, so no
/// real filesystem, clock or host identity is reachable through any slot.
pub open spec fn deterministic_model() -> ContextModel {
    ContextModel {
        stdin: StreamModel::MemorySource { data: Seq::empty(), cursor: 0 },
        stdout: StreamModel::BoundedSink {
            data: Seq::empty(),
            capacity: usize::MAX as nat,
            frozen: false,
        },
        stderr: StreamModel::BoundedSink {
            data: Seq::empty(),
            capacity: usize::MAX as nat,
            frozen: false,
        },
    }
}

/// The mutable holder of the guest's three stream slots. Every slot is
/// always populated: construction fills all three, and replacement swaps
/// a slot whole, so no unpopulated state is ever observable. The context
/// owns its backends exclusively; replacing a slot drops the previous one.
pub struct IoContext {
    stdin: StreamBackend,
    stdout: StreamBackend,
    stderr: StreamBackend,
}

impl IoContext {
    /// The context's view.
    pub closed spec fn model(&self) -> ContextModel {
        ContextModel {
            stdin: self.stdin.model(),
            stdout: self.stdout.model(),
            stderr: self.stderr.model(),
        }
    }

    /// The slot invariant: stdin readable, stdout and stderr writable, and
    /// each in-memory backend internally well formed.
    pub closed spec fn wf(&self) -> bool {
        &&& self.stdin.wf()
        &&& self.stdout.wf()
        &&& self.stderr.wf()
        &&& self.stdin.model().is_readable()
        &&& self.stdout.model().is_writable()
        &&& self.stderr.model().is_writable()
    }

    /// A context wired to deterministic defaults: nothing reachable through
    /// its streams can differ between hosts, clocks or filesystems. Never
    /// fails.
    pub fn deterministic() -> (c: IoContext)
        ensures
            c.wf(),
            c.model() == deterministic_model(),
    {
        let c = IoContext {
            stdin: StreamBackend::MemorySource { source: MemorySource::from_bytes(Vec::new()) },
            stdout: StreamBackend::BoundedSink {
                sink: BoundedSink::new(ByteBuffer::new(), usize::MAX),
            },
            stderr: StreamBackend::BoundedSink {
                sink: BoundedSink::new(ByteBuffer::new(), usize::MAX),
            },
        };
        proof {
            assert(c.model() =~= deterministic_model());
        }
        c
    }

    /// Installs a file at `path`, opened read-only, as stdin. On failure
    /// the context is unchanged and the error says why the open failed;
    /// the previous stdin backend is dropped only on success.
    pub fn set_stdin_from_file(&mut self, path: &String) -> (r: Result<(), IoError>)
        requires
            old(self).wf(),
        ensures
            final(self).wf(),
            final(self).model().stdout == old(self).model().stdout,
            final(self).model().stderr == old(self).model().stderr,
            match r {
                Ok(()) => final(self).model().stdin == (StreamModel::FileSource { path: path@ }),
                Err(_) => final(self).model().stdin == old(self).model().stdin,
            },
    {
        match open_file_for_read(path) {
            Ok(file) => {
                self.stdin = StreamBackend::FileSource { path: path.clone(), file };
                Ok(())
            },
            Err(e) => Err(e),
        }
    }

    /// Installs an in-memory readable backend over a copy of `content` as
    /// stdin. Never fails.
    pub fn set_stdin_from_bytes(&mut self, content: &Vec<u8>)
        requires
            old(self).wf(),
        ensures
            final(self).wf(),
            final(self).model().stdin == (StreamModel::MemorySource { data: content@, cursor: 0 }),
            final(self).model().stdout == old(self).model().stdout,
            final(self).model().stderr == old(self).model().stderr,
    {
        self.stdin = StreamBackend::MemorySource { source: MemorySource::from_bytes(content.clone()) };
    }

    /// Installs a file at `path`, created if absent and truncated if
    /// present, as stdout. On failure the context is unchanged; the
    /// previous stdout backend is dropped only on success.
    pub fn set_stdout_to_file(&mut self, path: &String) -> (r: Result<(), IoError>)
        requires
            old(self).wf(),
        ensures
            final(self).wf(),
            final(self).model().stdin == old(self).model().stdin,
            final(self).model().stderr == old(self).model().stderr,
            match r {
                Ok(()) => final(self).model().stdout == (StreamModel::FileSink { path: path@ }),
                Err(_) => final(self).model().stdout == old(self).model().stdout,
            },
    {
        match create_file_for_write(path) {
            Ok(file) => {
                self.stdout = StreamBackend::FileSink { path: path.clone(), file };
                Ok(())
            },
            Err(e) => Err(e),
        }
    }

    /// Installs a file at `path`, created if absent and truncated if
    /// present, as stderr. On failure the context is unchanged; the
    /// previous stderr backend is dropped only on success.
    pub fn set_stderr_to_file(&mut self, path: &String) -> (r: Result<(), IoError>)
        requires
            old(self).wf(),
        ensures
            final(self).wf(),
            final(self).model().stdin == old(self).model().stdin,
            final(self).model().stdout == old(self).model().stdout,
            match r {
                Ok(()) => final(self).model().stderr == (StreamModel::FileSink { path: path@ }),
                Err(_) => final(self).model().stderr == old(self).model().stderr,
            },
    {
        match create_file_for_write(path) {
            Ok(file) => {
                self.stderr = StreamBackend::FileSink { path: path.clone(), file };
                Ok(())
            },
            Err(e) => Err(e),
        }
    }

    /// Installs a bounded sink over `buffer` with the hard bound
    /// `capacity` as stdout. Construction never fails; later writes may,
    /// per the sink's contract. The buffer may not already stand past the
    /// bound, since the bound is authoritative for its readers.
    pub fn set_stdout_to_bounded_buffer(&mut self, buffer: ByteBuffer, capacity: usize)
        requires
            old(self).wf(),
            buffer.data().len() <= capacity,
        ensures
            final(self).wf(),
            final(self).model().stdin == old(self).model().stdin,
            final(self).model().stderr == old(self).model().stderr,
            final(self).model().stdout == (StreamModel::BoundedSink {
                data: buffer.data(),
                capacity: capacity as nat,
                frozen: buffer.frozen(),
            }),
    {
        self.stdout = StreamBackend::BoundedSink { sink: BoundedSink::new(buffer, capacity) };
    }

    /// Installs a bounded sink over `buffer` with the hard bound
    /// `capacity` as stderr. Construction never fails; later writes may.
    pub fn set_stderr_to_bounded_buffer(&mut self, buffer: ByteBuffer, capacity: usize)
        requires
            old(self).wf(),
            buffer.data().len() <= capacity,
        ensures
            final(self).wf(),
            final(self).model().stdin == old(self).model().stdin,
            final(self).model().stdout == old(self).model().stdout,
            final(self).model().stderr == (StreamModel::BoundedSink {
                data: buffer.data(),
                capacity: capacity as nat,
                frozen: buffer.frozen(),
            }),
    {
        self.stderr = StreamBackend::BoundedSink { sink: BoundedSink::new(buffer, capacity) };
    }

    /// A guest read of at most `max` bytes from the stdin slot. From an
    /// in-memory source the outcome is a pure function of the model:
    /// sequential bytes, then end of stream. From a file it hands out what
    /// the file gave, at most `max` bytes.
    pub fn read_stdin(&mut self, max: usize) -> (r: Result<Vec<u8>, IoError>)
        requires
            old(self).wf(),
        ensures
            final(self).wf(),
            final(self).model().stdout == old(self).model().stdout,
            final(self).model().stderr == old(self).model().stderr,
            match old(self).model().stdin {
                StreamModel::MemorySource { data, cursor } => {
                    let (sb, sc) = spec_source_read(data, cursor, max as nat);
                    &&& final(self).model().stdin == (StreamModel::MemorySource {
                        data,
                        cursor: sc,
                    })
                    &&& match r {
                        Ok(v) => v@ == sb,
                        Err(_) => false,
                    }
                },
                StreamModel::FileSource { path: _ } => {
                    &&& final(self).model().stdin == old(self).model().stdin
                    &&& match r {
                        Ok(v) => v@.len() <= max,
                        Err(_) => true,
                    }
                },
                _ => false,
            },
    {
        match &mut self.stdin {
            StreamBackend::MemorySource { source } => Ok(source.read(max)),
            StreamBackend::FileSource { file, .. } => file_read_upto(file, max),
            _ => {
                proof {
                    assert(false);
                }
                Err(IoError::Other)
            },
        }
    }

    /// A guest write of `data` to the stdout slot. Into a bounded sink the
    /// outcome is a pure function of the model, all-or-nothing; into a file
    /// a success means every byte was handed to the file.
    pub fn write_stdout(&mut self, data: &Vec<u8>) -> (r: Result<usize, WriteError>)
        requires
            old(self).wf(),
        ensures
            final(self).wf(),
            final(self).model().stdin == old(self).model().stdin,
            final(self).model().stderr == old(self).model().stderr,
            spec_slot_write_ok(old(self).model().stdout, final(self).model().stdout, data@, r),
    {
        match &mut self.stdout {
            StreamBackend::BoundedSink { sink } => sink.write(data),
            StreamBackend::FileSink { file, .. } => match file_write_all(file, data) {
                Ok(()) => Ok(data.len()),
                Err(e) => Err(WriteError::Io(e)),
            },
            _ => {
                proof {
                    assert(false);
                }
                Err(WriteError::Io(IoError::Other))
            },
        }
    }

    /// A guest write of `data` to the stderr slot, with the same contract
    /// as a stdout write.
    pub fn write_stderr(&mut self, data: &Vec<u8>) -> (r: Result<usize, WriteError>)
        requires
            old(self).wf(),
        ensures
            final(self).wf(),
            final(self).model().stdin == old(self).model().stdin,
            final(self).model().stdout == old(self).model().stdout,
            spec_slot_write_ok(old(self).model().stderr, final(self).model().stderr, data@, r),
    {
        match &mut self.stderr {
            StreamBackend::BoundedSink { sink } => sink.write(data),
            StreamBackend::FileSink { file, .. } => match file_write_all(file, data) {
                Ok(()) => Ok(data.len()),
                Err(e) => Err(WriteError::Io(e)),
            },
            _ => {
                proof {
                    assert(false);
                }
                Err(WriteError::Io(IoError::Other))
            },
        }
    }

    /// The host's view of the bytes captured so far in the stdout slot, if
    /// it is a bounded sink; a file slot keeps its bytes in the file and
    /// answers `None`.
    pub fn stdout_capture(&self) -> (r: Option<&Vec<u8>>)
        ensures
            match r {
                Some(v) => match self.model().stdout {
                    StreamModel::BoundedSink { data, .. } => v@ == data,
                    _ => false,
                },
                None => match self.model().stdout {
                    StreamModel::BoundedSink { .. } => false,
                    _ => true,
                },
            },
    {
        match &self.stdout {
            StreamBackend::BoundedSink { sink } => Some(sink.contents_ref()),
            _ => None,
        }
    }

    /// The host's view of the bytes captured so far in the stderr slot, if
    /// it is a bounded sink; a file slot keeps its bytes in the file and
    /// answers `None`.
    pub fn stderr_capture(&self) -> (r: Option<&Vec<u8>>)
        ensures
            match r {
                Some(v) => match self.model().stderr {
                    StreamModel::BoundedSink { data, .. } => v@ == data,
                    _ => false,
                },
                None => match self.model().stderr {
                    StreamModel::BoundedSink { .. } => false,
                    _ => true,
                },
            },
    {
        match &self.stderr {
            StreamBackend::BoundedSink { sink } => Some(sink.contents_ref()),
            _ => None,
        }
    }

    /// Hands the configured streams to the guest-execution collaborator as
    /// an engine-facing context: in-memory stdin becomes a pipe over its
    /// unread bytes, file slots become the open files. A bounded sink
    /// cannot cross into the engine on its own, since its write half is a
    /// host callback: it is returned to the host, with its model intact,
    /// for the host's glue to wire up; `None` means the slot was a file.
    pub fn get_inner(self) -> (r: (wasi_common::WasiCtx, Option<BoundedSink>, Option<BoundedSink>))
        requires
            self.wf(),
        ensures
            spec_released_sink(self.model().stdout, r.1),
            spec_released_sink(self.model().stderr, r.2),
    {
        let IoContext { stdin, stdout, stderr } = self;
        let ctx = fresh_wasi_ctx();
        match stdin {
            StreamBackend::FileSource { file, .. } => {
                wasi_set_stdin_file(&ctx, file);
            },
            StreamBackend::MemorySource { source } => {
                let rest = source.unread();
                wasi_set_stdin_bytes(&ctx, &rest);
            },
            _ => {},
        }
        let out_sink: Option<BoundedSink> = match stdout {
            StreamBackend::FileSink { file, .. } => {
                wasi_set_stdout_file(&ctx, file);
                None
            },
            StreamBackend::BoundedSink { sink } => Some(sink),
            _ => None,
        };
        let err_sink: Option<BoundedSink> = match stderr {
            StreamBackend::FileSink { file, .. } => {
                wasi_set_stderr_file(&ctx, file);
                None
            },
            StreamBackend::BoundedSink { sink } => Some(sink),
            _ => None,
        };
        (ctx, out_sink, err_sink)
    }
}

/// What a write to a writable slot promises: a bounded slot follows the
/// sink's pure write function; a file slot is unchanged in the model and a
/// success covered every byte. A readable slot never stands where this is
/// asked.
pub open spec fn spec_slot_write_ok(
    before: StreamModel,
    after: StreamModel,
    data: Seq<u8>,
    r: Result<usize, WriteError>,
) -> bool {
    match before {
        StreamModel::BoundedSink { data: c, capacity, frozen } => {
            let (sr, sc) = spec_sink_write(c, capacity, frozen, data);
            &&& after == (StreamModel::BoundedSink { data: sc, capacity, frozen })
            &&& match r {
                Ok(n) => sr == Ok::<int, WriteError>(n as int),
                Err(e) => sr == Err::<int, WriteError>(e),
            }
        },
        StreamModel::FileSink { path: _ } => {
            &&& after == before
            &&& match r {
                Ok(n) => n == data.len(),
                Err(e) => match e {
                    WriteError::Io(_) => true,
                    _ => false,
                },
            }
        },
        _ => false,
    }
}

/// How a writable slot leaves `get_inner`: a bounded slot is released to
/// the host with its model intact and well formed; a file slot crosses
/// into the engine and nothing is released.
pub open spec fn spec_released_sink(slot: StreamModel, released: Option<BoundedSink>) -> bool {
    match released {
        Some(s) => {
            &&& slot == (StreamModel::BoundedSink {
                data: s.contents(),
                capacity: s.cap(),
                frozen: s.frozen(),
            })
            &&& s.wf()
        },
        None => match slot {
            StreamModel::BoundedSink { .. } => false,
            _ => true,
        },
    }
}

} // verus!
