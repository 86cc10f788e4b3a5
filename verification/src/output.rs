//! The output writer's contract, stated over a model of the file system as
//! a map from paths to file contents. The surrounding program performs the
//! real write (creating intermediate directories as needed); this module
//! pins down what that write means: the full byte sequence is stored at
//! the path, replacing without warning whatever was there.
use vstd::prelude::*;

verus! {

/// What writing a file does to the file system: afterwards the path maps
/// to exactly the written bytes; every other path is untouched.
pub open spec fn write_file_model(
    files: Map<Seq<char>, Seq<u8>>,
    path: Seq<char>,
    data: Seq<u8>,
) -> Map<Seq<char>, Seq<u8>> {
    files.insert(path, data)
}

/// Overwrite semantics: running the same download twice against the same
/// destination leaves exactly one file at the resolved path, holding the
/// second run's bytes, and no other path is affected.
pub proof fn lemma_overwrite(
    files: Map<Seq<char>, Seq<u8>>,
    path: Seq<char>,
    first: Seq<u8>,
    second: Seq<u8>,
)
    ensures
        write_file_model(write_file_model(files, path, first), path, second) == write_file_model(
            files,
            path,
            second,
        ),
        write_file_model(write_file_model(files, path, first), path, second).dom()
            == files.dom().insert(path),
        write_file_model(write_file_model(files, path, first), path, second)[path] == second,
{
    assert(write_file_model(write_file_model(files, path, first), path, second)
        =~= write_file_model(files, path, second));
    assert(write_file_model(write_file_model(files, path, first), path, second).dom()
        =~= files.dom().insert(path));
}

} // verus!
