//! Command-line arguments and the outcome of a run.

use vstd::prelude::*;
use vstd::string::StringExecFns;

use crate::error::Error;

verus! {

/// List buildable targets from an existing CMake build tree.
#[derive(Debug)]
pub struct Cli {
    /// Existing CMake build directory; when absent, the first configured default is used.
    pub build_dir: Option<String>,
    /// Regenerate the build tree even when the File API reply is current.
    pub refresh: bool,
}

/// The build directories tried, in order, when none is given.
pub open spec fn default_build_dir(i: int) -> Seq<char> {
    if i == 0 {
        "build"@
    } else if i == 1 {
        "build/debug"@
    } else {
        "build/release"@
    }
}

/// The number of default build directories.
pub const DEFAULT_BUILD_DIR_COUNT: usize = 3;

/// Default build directory `i`.
pub fn default_build_dir_name(i: usize) -> (result: &'static str)
    requires
        i < DEFAULT_BUILD_DIR_COUNT,
    ensures
        result@ == default_build_dir(i as int),
{
    if i == 0 {
        "build"
    } else if i == 1 {
        "build/debug"
    } else {
        "build/release"
    }
}

/// The build directory chosen when none is given: the first default that is configured, and
/// the first default when none is.
pub open spec fn chosen_default(configured: Seq<bool>) -> Seq<char> {
    if configured.len() > 0 && configured[0] {
        default_build_dir(0)
    } else if configured.len() > 1 && configured[1] {
        default_build_dir(1)
    } else if configured.len() > 2 && configured[2] {
        default_build_dir(2)
    } else {
        default_build_dir(0)
    }
}

/// Whether default build directory `k` is known to be configured.
pub open spec fn is_configured(configured: Seq<bool>, k: int) -> bool {
    0 <= k < configured.len() && configured[k]
}

/// Whether default build directory `k` is the first one that is configured.
pub open spec fn first_configured(configured: Seq<bool>, k: int) -> bool {
    is_configured(configured, k) && forall|j: int| 0 <= j < k ==> !is_configured(configured, j)
}

/// The choice of a default build directory, over all inputs: the first configured default is
/// chosen, `build` before `build/debug` before `build/release`, and `build` when none is
/// configured; so a configured default is never passed over for a later one.
pub proof fn lemma_default_choice(configured: Seq<bool>)
    ensures
        forall|k: int|
            0 <= k < DEFAULT_BUILD_DIR_COUNT && first_configured(configured, k)
                ==> #[trigger] default_build_dir(k) == chosen_default(configured),
        (forall|k: int| 0 <= k < DEFAULT_BUILD_DIR_COUNT ==> !is_configured(configured, k))
            ==> chosen_default(configured) == default_build_dir(0),
{
    assert forall|k: int|
        0 <= k < DEFAULT_BUILD_DIR_COUNT && first_configured(configured, k) implies #[trigger] default_build_dir(
        k,
    ) == chosen_default(configured) by {
        if k >= 1 {
            assert(!is_configured(configured, 0));
        }
        if k >= 2 {
            assert(!is_configured(configured, 1));
        }
    }
    if forall|k: int| 0 <= k < DEFAULT_BUILD_DIR_COUNT ==> !is_configured(configured, k) {
        assert(!is_configured(configured, 0));
        assert(!is_configured(configured, 1));
        assert(!is_configured(configured, 2));
    }
}

impl Cli {
    /// The build directory to query. `configured[i]` tells whether default build directory `i`
    /// holds a `CMakeCache.txt`; it is read only when no directory was given.
    pub fn resolve_build_dir(&self, configured: &Vec<bool>) -> (result: String)
        ensures
            self.build_dir matches Some(dir) ==> result@ == dir@,
            self.build_dir is None ==> result@ == chosen_default(configured@),
            self.build_dir is None ==> forall|k: int|
                0 <= k < DEFAULT_BUILD_DIR_COUNT && first_configured(configured@, k)
                    ==> #[trigger] default_build_dir(k) == result@,
            self.build_dir is None && (forall|k: int|
                0 <= k < DEFAULT_BUILD_DIR_COUNT ==> !is_configured(configured@, k))
                ==> result@ == default_build_dir(0),
    {
        proof {
            lemma_default_choice(configured@);
        }
        match &self.build_dir {
            Some(dir) => dir.clone(),
            None => {
                let mut i: usize = 0;
                while i < DEFAULT_BUILD_DIR_COUNT
                    invariant
                        self.build_dir is None,
                        i <= DEFAULT_BUILD_DIR_COUNT,
                        forall|k: int| 0 <= k < i ==> !(k < configured@.len() && configured@[k]),
                    decreases DEFAULT_BUILD_DIR_COUNT - i,
                {
                    if i < configured.len() && configured[i] {
                        proof {
                            lemma_default_choice(configured@);
                        }
                        return String::from_str(default_build_dir_name(i));
                    }
                    i = i + 1;
                }
                String::from_str(default_build_dir_name(0))
            },
        }
    }
}

/// How the command ends.
#[derive(Debug, Clone, Copy, PartialEq, Eq, Structural)]
pub enum Exit {
    /// Exit status 0.
    Success,
    /// Exit status 1, after the error is reported.
    Failure,
    /// Exit status 130, as after Ctrl+C, with nothing reported.
    Interrupted,
}

impl Exit {
    /// The process exit status.
    pub fn code(self) -> (result: u8)
        ensures
            self == Exit::Success ==> result == 0,
            self == Exit::Failure ==> result == 1,
            self == Exit::Interrupted ==> result == 130,
    {
        match self {
            Exit::Success => 0,
            Exit::Failure => 1,
            Exit::Interrupted => 130,
        }
    }
}

/// How the command ends, given how the run ended and the number of interrupts received. A
/// consumer that closed the output pipe early ends the command normally, unless Ctrl+C was
/// pressed.
pub fn exit_for(outcome: &Result<(), Error>, interrupt_count: usize) -> (result: Exit)
    ensures
        outcome is Ok ==> result == Exit::Success,
        outcome matches Err(e) ==> result == if e.is_interrupted_spec() {
            Exit::Interrupted
        } else if e.is_broken_pipe_spec() {
            if interrupt_count > 0 {
                Exit::Interrupted
            } else {
                Exit::Success
            }
        } else {
            Exit::Failure
        },
{
    match outcome {
        Ok(()) => Exit::Success,
        Err(error) => {
            if error.is_interrupted() {
                Exit::Interrupted
            } else if error.is_broken_pipe() {
                if interrupt_count > 0 {
                    Exit::Interrupted
                } else {
                    Exit::Success
                }
            } else {
                Exit::Failure
            }
        },
    }
}

} // verus!
