//! Choosing where the script source comes from.
//!
//! The source is resolved once, before the pool is constructed: an inline
//! code literal wins; otherwise the first command-line argument names a
//! file; otherwise a path from the environment does; otherwise startup
//! fails. Reading the environment, the arguments and the file is outside
//! work; this module takes their values and makes the decision.

use vstd::prelude::*;

use crate::errors::StartupError;

verus! {

/// Where the script source is to be taken from.
pub enum SourceSpec {
    /// The source text itself was supplied directly.
    Inline { code: String },
    /// The source is to be read from the file at this path.
    FromFile { path: String },
}

/// Decides the script source from the three places it may be supplied:
/// an inline code value, a path given as the first argument, and a path
/// from the environment, in that order of precedence.
pub fn resolve_source(
    inline_code: Option<String>,
    arg_path: Option<String>,
    env_path: Option<String>,
) -> (r: Result<SourceSpec, StartupError>)
    ensures
        inline_code matches Some(code) ==> r == Ok::<_, StartupError>(SourceSpec::Inline {
            code,
        }),
        arg_path matches Some(path) ==> (inline_code is None ==> r == Ok::<_, StartupError>(
            SourceSpec::FromFile { path },
        )),
        env_path matches Some(path) ==> (inline_code is None && arg_path is None ==> r == Ok::<
            _,
            StartupError,
        >(SourceSpec::FromFile { path })),
        inline_code is None && arg_path is None && env_path is None ==> r == Err::<
            SourceSpec,
            _,
        >(StartupError::MissingSource),
{
    match inline_code {
        Some(code) => Ok(SourceSpec::Inline { code }),
        None => match arg_path {
            Some(path) => Ok(SourceSpec::FromFile { path }),
            None => match env_path {
                Some(path) => Ok(SourceSpec::FromFile { path }),
                None => Err(StartupError::MissingSource),
            },
        },
    }
}

} // verus!
