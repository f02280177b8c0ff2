//! Data shared by the whole engine.
use vstd::prelude::*;
use vstd::string::*;

verus! {

/// Data that is set once at start-up and read by every thread.
pub struct GlobalData {
    /// Directory that the engine's project files are found under.
    pub project_dir: String,
}

impl GlobalData {
    /// The global data of an engine run from its project directory: the
    /// project is the current working directory.
    pub fn in_working_dir() -> (data: GlobalData)
        ensures
            data.project_dir@ == "."@,
    {
        GlobalData { project_dir: String::from_str(".") }
    }
}

} // verus!
