//! Choosing the input and model files, once the file system has been asked
//! about each candidate path.
use vstd::prelude::*;
use vstd::string::StringExecFns;

verus! {

pub open spec fn missing_file_message(path: Seq<char>) -> Seq<char> {
    "File does not exist: "@ + path
}

pub open spec fn missing_model_message(name: Seq<char>) -> Seq<char> {
    "Cannot find the model "@ + name
}

/// Accepts `path` where it names an existing regular file, `is_file` being
/// what the file system reported of it.
pub fn validate_file_exists(path: &str, is_file: bool) -> (r: Result<String, String>)
    ensures
        is_file ==> (r matches Ok(p) && p@ == path@),
        !is_file ==> (r matches Err(m) && m@ == missing_file_message(path@)),
{
    if is_file {
        Ok(String::from_str(path))
    } else {
        proof {
            reveal_strlit("File does not exist: ");
        }
        Err(String::from_str("File does not exist: ").concat(path))
    }
}

/// Picks the model file: the path beside the executable where that path is
/// known and names a file, else `model_name` itself where that names a file.
pub fn get_model_path_with_fallback(
    model_name: &str,
    beside_exe: Option<String>,
    beside_exe_is_file: bool,
    name_is_file: bool,
) -> (r: Result<String, String>)
    ensures
        beside_exe is Some && beside_exe_is_file ==> (r matches Ok(p) && p@
            == beside_exe->Some_0@),
        !(beside_exe is Some && beside_exe_is_file) && name_is_file ==> (r matches Ok(p) && p@
            == model_name@),
        !(beside_exe is Some && beside_exe_is_file) && !name_is_file ==> (r matches Err(m) && m@
            == missing_model_message(model_name@)),
{
    if let Some(p) = beside_exe {
        if let Ok(found) = validate_file_exists(p.as_str(), beside_exe_is_file) {
            return Ok(found);
        }
    }
    match validate_file_exists(model_name, name_is_file) {
        Ok(found) => Ok(found),
        Err(_) => {
            proof {
                reveal_strlit("Cannot find the model ");
            }
            Err(String::from_str("Cannot find the model ").concat(model_name))
        },
    }
}

} // verus!
