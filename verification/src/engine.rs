use vstd::prelude::*;

verus! {

#[verifier::external_type_specification]
#[verifier::external_body]
pub struct ExWasiCtx(wasi_common::WasiCtx);

/// Relies on wasi_common::sync::WasiCtxBuilder: builds a fresh engine-facing
/// context whose three streams are the builder's inert defaults, ready for
/// the configured backends to be installed.
#[verifier::external_body]
pub(crate) fn fresh_wasi_ctx() -> (c: wasi_common::WasiCtx) {
    let mut builder = wasi_common::sync::WasiCtxBuilder::new();
    builder.build()
}

/// Relies on wasi_common::WasiCtx::set_stdin and pipe::ReadPipe: installs an
/// in-memory readable stream over a copy of `data` as the guest's stdin,
/// dropping whatever stream held the slot before.
#[verifier::external_body]
pub(crate) fn wasi_set_stdin_bytes(ctx: &wasi_common::WasiCtx, data: &Vec<u8>) {
    ctx.set_stdin(Box::new(wasi_common::pipe::ReadPipe::from(data.clone())));
}

/// Relies on wasi_common::WasiCtx::set_stdin and sync::file::File::from_cap_std:
/// installs the open file as the guest's stdin, dropping the previous stream.
#[verifier::external_body]
pub(crate) fn wasi_set_stdin_file(ctx: &wasi_common::WasiCtx, file: cap_std::fs::File) {
    ctx.set_stdin(Box::new(wasi_common::sync::file::File::from_cap_std(file)));
}

/// Relies on wasi_common::WasiCtx::set_stdout and sync::file::File::from_cap_std:
/// installs the open file as the guest's stdout, dropping the previous stream.
#[verifier::external_body]
pub(crate) fn wasi_set_stdout_file(ctx: &wasi_common::WasiCtx, file: cap_std::fs::File) {
    ctx.set_stdout(Box::new(wasi_common::sync::file::File::from_cap_std(file)));
}

/// Relies on wasi_common::WasiCtx::set_stderr and sync::file::File::from_cap_std:
/// installs the open file as the guest's stderr, dropping the previous stream.
#[verifier::external_body]
pub(crate) fn wasi_set_stderr_file(ctx: &wasi_common::WasiCtx, file: cap_std::fs::File) {
    ctx.set_stderr(Box::new(wasi_common::sync::file::File::from_cap_std(file)));
}

} // verus!
