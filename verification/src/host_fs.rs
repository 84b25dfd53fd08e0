use vstd::prelude::*;
use crate::error::IoError;
use std::io::Read;
use std::io::Write;

verus! {

#[verifier::external_type_specification]
#[verifier::external_body]
pub struct ExCapFile(cap_std::fs::File);

/// Relies on cap_std::fs::File::open_ambient: opens `path` read-only with
/// the process's ambient authority, failing if the path does not exist or
/// the process may not read it. The failure kind is carried over one for
/// one from the underlying error.
#[verifier::external_body]
pub(crate) fn open_file_for_read(path: &String) -> (r: Result<cap_std::fs::File, IoError>) {
    match cap_std::fs::File::open_ambient(path.as_str(), cap_std::ambient_authority()) {
        Ok(f) => Ok(f),
        Err(e) => Err(
            match e.kind() {
                std::io::ErrorKind::NotFound => IoError::NotFound,
                std::io::ErrorKind::PermissionDenied => IoError::PermissionDenied,
                _ => IoError::Other,
            },
        ),
    }
}

/// Relies on cap_std::fs::File::create_ambient: opens `path` write-only,
/// creating the file if it is absent and truncating it if it is present,
/// failing on a permission error or a path it cannot write to.
#[verifier::external_body]
pub(crate) fn create_file_for_write(path: &String) -> (r: Result<cap_std::fs::File, IoError>) {
    match cap_std::fs::File::create_ambient(path.as_str(), cap_std::ambient_authority()) {
        Ok(f) => Ok(f),
        Err(e) => Err(
            match e.kind() {
                std::io::ErrorKind::NotFound => IoError::NotFound,
                std::io::ErrorKind::PermissionDenied => IoError::PermissionDenied,
                _ => IoError::Other,
            },
        ),
    }
}

/// Relies on std::io::Write::write_all through cap_std::fs::File: appends
/// every byte of `data` at the file's current position, or reports the
/// underlying failure with nothing said about how much was committed.
#[verifier::external_body]
pub(crate) fn file_write_all(file: &mut cap_std::fs::File, data: &Vec<u8>) -> (r: Result<
    (),
    IoError,
>) {
    match file.write_all(data.as_slice()) {
        Ok(()) => Ok(()),
        Err(e) => Err(
            match e.kind() {
                std::io::ErrorKind::PermissionDenied => IoError::PermissionDenied,
                _ => IoError::Other,
            },
        ),
    }
}

/// Relies on std::io::Read::read through cap_std::fs::File: hands out at
/// most `max` bytes from the file's current position, moving the position
/// past them. It may hand out fewer than `max`, and none at the end of the
/// file.
#[verifier::external_body]
pub(crate) fn file_read_upto(file: &mut cap_std::fs::File, max: usize) -> (r: Result<
    Vec<u8>,
    IoError,
>)
    ensures
        match r {
            Ok(v) => v@.len() <= max,
            Err(_) => true,
        },
{
    let mut out = vec![0u8; max];
    match file.read(out.as_mut_slice()) {
        Ok(n) => {
            out.truncate(n);
            Ok(out)
        },
        Err(e) => Err(
            match e.kind() {
                std::io::ErrorKind::PermissionDenied => IoError::PermissionDenied,
                _ => IoError::Other,
            },
        ),
    }
}

} // verus!
