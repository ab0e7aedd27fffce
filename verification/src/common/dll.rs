use vstd::prelude::*;

use crate::common::error::HamlibPttError;

verus! {

/// What the library does when the DLL is unloaded: nothing, successfully.
pub fn on_dll_detach() -> (r: Result<(), HamlibPttError>)
    ensures
        r is Ok,
{
    Ok(())
}

/// The directory of the DLL: the parent of the DLL's path, or, where the
/// path has none, the error that the directory could not be found.
pub fn dll_directory<T>(parent: Option<T>) -> (r: Result<T, HamlibPttError>)
    ensures
        match parent {
            Some(d) => r == Ok::<T, HamlibPttError>(d),
            None => r == Err::<T, HamlibPttError>(HamlibPttError::DllPath),
        },
{
    match parent {
        Some(d) => Ok(d),
        None => Err(HamlibPttError::DllPath),
    }
}

} // verus!
