//! Turning the result of a search-path lookup into the command line that
//! starts the language server.

use vstd::prelude::*;

use crate::path::{has_separator, is_separator, last_separator, lemma_last_separator, rfind_separator};

verus! {

/// The operating system the editor runs on; it decides how paths are joined.
#[derive(Clone, Copy, Debug, PartialEq, Eq, Structural)]
pub enum HostOs {
    Mac,
    Linux,
    Windows,
}

impl HostOs {
    /// The separator used to join path components on this system.
    pub open spec fn spec_separator(self) -> char {
        match self {
            HostOs::Windows => '\\',
            _ => '/',
        }
    }

    /// The separator used to join path components on this system.
    pub fn separator(self) -> (r: &'static str)
        ensures
            r@ == seq![self.spec_separator()],
    {
        match self {
            HostOs::Windows => {
                proof {
                    reveal_strlit("\\");
                }
                "\\"
            },
            _ => {
                proof {
                    reveal_strlit("/");
                }
                "/"
            },
        }
    }
}

/// Which command line the server is started with.
#[derive(Clone, Copy, Debug, PartialEq, Eq, Structural)]
pub enum Variant {
    /// Only the transport flag.
    Minimal,
    /// The transport flag, preceded by the resource directory that sits in a
    /// `lib` directory beside the executable.
    ResourceDir,
}

/// Why no command line could be built.
#[derive(Clone, Copy, Debug, PartialEq, Eq, Structural)]
pub enum ResolutionError {
    /// The server is not on the search path.
    NotFound,
    /// The path found has no directory part, so no resource directory can be
    /// derived from it.
    PathNotAbsolute,
}

impl ResolutionError {
    /// The text shown to the user for this error.
    pub open spec fn spec_message(self) -> Seq<char> {
        match self {
            ResolutionError::NotFound => "`clice` not found in your PATH. Please install it and add it to your system's PATH environment variable."@,
            ResolutionError::PathNotAbsolute => "the path found for `clice` has no directory part. Please make sure it resolves to a full path, not a bare command name."@,
        }
    }

    /// The text shown to the user, with what to do about it.
    pub fn message(&self) -> (r: String)
        ensures
            r@ == self.spec_message(),
    {
        match self {
            ResolutionError::NotFound => String::from_str(
                "`clice` not found in your PATH. Please install it and add it to your system's PATH environment variable.",
            ),
            ResolutionError::PathNotAbsolute => String::from_str(
                "the path found for `clice` has no directory part. Please make sure it resolves to a full path, not a bare command name.",
            ),
        }
    }
}

/// What the editor needs to start the server: the executable, the resource
/// directory where the variant asks for one, and the arguments.
#[derive(Clone, Debug)]
pub struct InvocationDescriptor {
    pub executable_path: String,
    pub auxiliary_dir: Option<String>,
    pub arguments: Vec<String>,
}

/// The contents of an [`InvocationDescriptor`] as character sequences.
pub struct InvocationView {
    pub executable_path: Seq<char>,
    pub auxiliary_dir: Option<Seq<char>>,
    pub arguments: Seq<Seq<char>>,
}

pub open spec fn option_view(s: Option<String>) -> Option<Seq<char>> {
    match s {
        Some(s) => Some(s@),
        None => None,
    }
}

impl View for InvocationDescriptor {
    type V = InvocationView;

    open spec fn view(&self) -> InvocationView {
        InvocationView {
            executable_path: self.executable_path@,
            auxiliary_dir: option_view(self.auxiliary_dir),
            arguments: self.arguments@.map_values(|a: String| a@),
        }
    }
}

pub open spec fn resolution_view(r: Result<InvocationDescriptor, ResolutionError>) -> Result<
    InvocationView,
    ResolutionError,
> {
    match r {
        Ok(d) => Ok(d@),
        Err(e) => Err(e),
    }
}

/// The resource directory of the executable at `path`: everything before its
/// rightmost separator, joined with `lib` by the separator of `os`.
pub open spec fn spec_auxiliary_dir(path: Seq<char>, os: HostOs) -> Seq<char> {
    path.subrange(0, last_separator(path)) + seq![os.spec_separator()] + "lib"@
}

/// The arguments the server is started with: the resource directory, where
/// there is one, then the transport mode.
pub open spec fn spec_arguments(auxiliary_dir: Option<Seq<char>>) -> Seq<Seq<char>> {
    match auxiliary_dir {
        Some(d) => seq!["--resource-dir"@, d, "--mode"@, "pipe"@],
        None => seq!["--mode"@, "pipe"@],
    }
}

/// The outcome of resolving the server, given what the search-path lookup
/// returned.
pub open spec fn spec_resolve(found: Option<Seq<char>>, variant: Variant, os: HostOs) -> Result<
    InvocationView,
    ResolutionError,
> {
    match found {
        None => Err(ResolutionError::NotFound),
        Some(path) => match variant {
            Variant::Minimal => Ok(
                InvocationView {
                    executable_path: path,
                    auxiliary_dir: None,
                    arguments: spec_arguments(None),
                },
            ),
            Variant::ResourceDir => if last_separator(path) < 0 {
                Err(ResolutionError::PathNotAbsolute)
            } else {
                let dir = spec_auxiliary_dir(path, os);
                Ok(
                    InvocationView {
                        executable_path: path,
                        auxiliary_dir: Some(dir),
                        arguments: spec_arguments(Some(dir)),
                    },
                )
            },
        },
    }
}

/// The resource directory beside the executable at `path`, or `None` where
/// `path` has no separator.
pub fn auxiliary_dir(path: &str, os: HostOs) -> (r: Option<String>)
    ensures
        match r {
            Some(d) => last_separator(path@) >= 0 && d@ == spec_auxiliary_dir(path@, os),
            None => last_separator(path@) < 0,
        },
{
    match rfind_separator(path) {
        None => None,
        Some(i) => {
            proof {
                lemma_last_separator(path@);
                reveal_strlit("lib");
            }
            let mut dir = String::from_str(path.substring_char(0, i));
            dir.append(os.separator());
            dir.append("lib");
            Some(dir)
        },
    }
}

/// The arguments the server is started with.
pub fn arguments(auxiliary_dir: &Option<String>) -> (r: Vec<String>)
    ensures
        r@.map_values(|a: String| a@) == spec_arguments(option_view(*auxiliary_dir)),
{
    let r = match auxiliary_dir {
        Some(d) => vec![
            String::from_str("--resource-dir"),
            d.clone(),
            String::from_str("--mode"),
            String::from_str("pipe"),
        ],
        None => vec![String::from_str("--mode"), String::from_str("pipe")],
    };
    assert(r@.map_values(|a: String| a@) =~= spec_arguments(option_view(*auxiliary_dir)));
    r
}

/// The server's executable, as the search path gave it.
#[derive(Clone, Debug)]
pub struct CliceBinary {
    pub path: String,
}

/// The executable found by the search-path lookup, or `NotFound` where the
/// lookup found none.
pub fn binary_from_lookup(found: Option<String>) -> (r: Result<CliceBinary, ResolutionError>)
    ensures
        match found {
            Some(p) => r is Ok && r->Ok_0.path@ == p@,
            None => r == Err::<CliceBinary, ResolutionError>(ResolutionError::NotFound),
        },
{
    match found {
        Some(path) => Ok(CliceBinary { path }),
        None => Err(ResolutionError::NotFound),
    }
}

/// The command line that starts `binary` under `variant`, on `os`.
pub fn invocation_for(binary: CliceBinary, variant: Variant, os: HostOs) -> (r: Result<
    InvocationDescriptor,
    ResolutionError,
>)
    ensures
        resolution_view(r) == spec_resolve(Some(binary.path@), variant, os),
{
    let auxiliary_dir = match variant {
        Variant::Minimal => None,
        Variant::ResourceDir => match auxiliary_dir(binary.path.as_str(), os) {
            Some(d) => Some(d),
            None => {
                return Err(ResolutionError::PathNotAbsolute);
            },
        },
    };
    let arguments = arguments(&auxiliary_dir);
    Ok(InvocationDescriptor { executable_path: binary.path, auxiliary_dir, arguments })
}

/// Resolves the server from what the search-path lookup returned: the command
/// line that starts it, or why there is none.
pub fn resolve(found: Option<String>, variant: Variant, os: HostOs) -> (r: Result<
    InvocationDescriptor,
    ResolutionError,
>)
    ensures
        resolution_view(r) == spec_resolve(option_view(found), variant, os),
{
    match binary_from_lookup(found) {
        Ok(binary) => invocation_for(binary, variant, os),
        Err(e) => Err(e),
    }
}

} // verus!
