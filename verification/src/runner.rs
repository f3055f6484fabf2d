use vstd::prelude::*;

verus! {

/// A launcher for one external executable: construction validates that the
/// path exists, and only a successfully built runner ever reaches the code
/// that spawns it.
pub struct ExeRunner {
    current_exe: String,
}

/// Relies on std::path::Path::exists: whether the path points at an
/// existing file or directory right now. The answer depends on the
/// filesystem at the moment of the call, so nothing more is stated of it.
#[verifier::external_body]
fn path_exists(path: &String) -> bool {
    std::path::Path::new(path.as_str()).exists()
}

impl ExeRunner {
    /// The executable path this runner holds.
    pub closed spec fn exe(&self) -> Seq<char> {
        self.current_exe@
    }

    /// Whether the given path currently exists on the filesystem. A pure
    /// check with no side effect; the answer reflects the filesystem at
    /// call time, which no contract of this library models.
    pub fn check_for_valid_path(path: &String) -> bool {
        path_exists(path)
    }

    /// Builds a runner from a path and the outcome of its validation:
    /// exactly the valid outcome yields a runner, which then holds the
    /// path; the invalid one is refused with the invalid-path error.
    pub fn from_validated(exe_path: String, path_is_valid: bool) -> (r: Result<
        ExeRunner,
        &'static str,
    >)
        ensures
            r is Ok <==> path_is_valid,
            r matches Ok(runner) ==> runner.exe() == exe_path@,
            r matches Err(e) ==> e@ == "Invalid Path"@,
    {
        if !path_is_valid {
            return Err("Invalid Path");
        }
        Ok(ExeRunner { current_exe: exe_path })
    }

    /// Validates the path against the filesystem and builds a runner for
    /// it: a runner comes back only for a path that existed at
    /// construction time, and it holds that path; otherwise the
    /// invalid-path error comes back.
    pub fn new(exe_path: String) -> (r: Result<ExeRunner, &'static str>)
        ensures
            r matches Ok(runner) ==> runner.exe() == exe_path@,
            r matches Err(e) ==> e@ == "Invalid Path"@,
    {
        let path_is_valid = Self::check_for_valid_path(&exe_path);
        Self::from_validated(exe_path, path_is_valid)
    }

    /// The held executable path, for the code that spawns it.
    pub fn exe_path(&self) -> (r: &String)
        ensures
            r@ == self.exe(),
    {
        &self.current_exe
    }
}

} // verus!
