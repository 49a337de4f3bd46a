//! What the admission of the original interpreter promises.

use vstd::prelude::*;

use crate::startup::original_interpreter::admit_descriptor;
use crate::startup::original_interpreter::admit_file;
use crate::startup::original_interpreter::admit_seals;
use crate::startup::original_interpreter::AdmissionError;
use crate::startup::original_interpreter::OriginalInterpreter;

verus! {

/// A descriptor is admitted exactly beyond the standard ones, a file exactly where all of its
/// four seals are set, and its size exactly where it is a regular file of 64 bytes to 512
/// mebibytes.
pub proof fn only_sealed_bounded_files_are_admitted(
    fd: i32,
    seals: i32,
    length: u64,
    regular: bool,
    descriptor: Result<(), AdmissionError>,
    sealed: Result<(), AdmissionError>,
    file: Result<usize, AdmissionError>,
)
    requires
        call_ensures(admit_descriptor, (fd,), descriptor),
        call_ensures(admit_seals, (seals,), sealed),
        call_ensures(admit_file, (length, regular), file),
    ensures
        descriptor is Ok <==> fd >= 3,
        sealed is Ok <==> seals >= 0 && seals % 16 == 15,
        (sealed matches Err(error) && error == AdmissionError::SealQuery) <==> seals < 0,
        file is Ok <==> regular && 64 <= length <= 512 * 1024 * 1024,
        file matches Ok(size) ==> size == length,
{
    assert(seals >= 0i32 ==> (seals & 15 == 15i32 <==> seals % 16 == 15i32)) by (bit_vector);
}

/// An admitted interpreter has the bytes that were read and the file that they came from.
pub proof fn admitted_interpreters_are_what_was_read(
    bytes: Vec<u8>,
    device: u64,
    inode: u64,
    result: Result<OriginalInterpreter, AdmissionError>,
    content: &[u8],
    identity: (u64, u64),
)
    requires
        call_ensures(OriginalInterpreter::acquire, (bytes, device, inode), result),
        result is Ok,
        call_ensures(OriginalInterpreter::bytes, (&result->Ok_0,), content),
        call_ensures(OriginalInterpreter::file_identity, (&result->Ok_0,), identity),
    ensures
        content@ == bytes@,
        identity.0 == device,
        identity.1 == inode,
{
}

} // verus!
