use vstd::prelude::*;

use crate::frontend::FrontendState;

verus! {

/// Startup parameters, fixed once the process starts.
#[derive(Clone, Debug)]
pub struct Configuration {
    pub host: String,
    pub port: u16,
    /// Directory of the frontend bundle, when one is served.
    pub frontend_folder: Option<String>,
}

/// What the server starts with once its configuration is validated.
#[derive(Clone, Debug)]
pub enum Startup {
    /// Serve the frontend from this directory.
    WithFrontend(FrontendState),
    /// Serve only the health probe and the compile route.
    WithoutFrontend,
}

/// Why the server refuses to start.
#[derive(Debug)]
pub enum StartupError {
    /// The configured frontend directory does not exist or is no directory.
    FrontendFolderNotFound { path: String },
}

/// The startup decision: a configured frontend directory must be a
/// directory (`folder_is_dir` is what the file system answered for it);
/// no directory at all is valid.
pub open spec fn startup_spec(folder: Option<Seq<char>>, folder_is_dir: bool) -> Result<
    Option<Seq<char>>,
    Seq<char>,
> {
    match folder {
        None => Ok(None),
        Some(p) => if folder_is_dir {
            Ok(Some(p))
        } else {
            Err(p)
        },
    }
}

/// The model of a startup outcome: the served directory, or the missing one.
pub open spec fn startup_view(r: Result<Startup, StartupError>) -> Result<
    Option<Seq<char>>,
    Seq<char>,
> {
    match r {
        Ok(Startup::WithFrontend(s)) => Ok(Some(s.frontend_folder@)),
        Ok(Startup::WithoutFrontend) => Ok(None),
        Err(StartupError::FrontendFolderNotFound { path }) => Err(path@),
    }
}

pub open spec fn folder_view(f: Option<String>) -> Option<Seq<char>> {
    match f {
        Some(s) => Some(s@),
        None => None,
    }
}

impl Configuration {
    /// Checks the configuration once, before any socket is bound.
    pub fn validate(&self, folder_is_dir: bool) -> (r: Result<Startup, StartupError>)
        ensures
            startup_view(r) == startup_spec(folder_view(self.frontend_folder), folder_is_dir),
    {
        match &self.frontend_folder {
            None => Ok(Startup::WithoutFrontend),
            Some(p) => {
                if folder_is_dir {
                    Ok(Startup::WithFrontend(FrontendState { frontend_folder: p.clone() }))
                } else {
                    Err(StartupError::FrontendFolderNotFound { path: p.clone() })
                }
            },
        }
    }
}

impl Startup {
    pub open spec fn serves_frontend_spec(&self) -> bool {
        self is WithFrontend
    }

    /// Whether the frontend routes are registered.
    pub fn serves_frontend(&self) -> (r: bool)
        ensures
            r == self.serves_frontend_spec(),
    {
        match self {
            Startup::WithFrontend(_) => true,
            Startup::WithoutFrontend => false,
        }
    }

    /// The non-fatal warning that a server without frontend emits at startup.
    pub fn warning(&self) -> (r: Option<String>)
        ensures
            r.is_some() == !self.serves_frontend_spec(),
            r.is_some() ==> r.unwrap()@ == "Warning: Starting backend without serving static frontend files due to missing configuration."@,
    {
        match self {
            Startup::WithFrontend(_) => None,
            Startup::WithoutFrontend => Some(
                String::from_str(
                    "Warning: Starting backend without serving static frontend files due to missing configuration.",
                ),
            ),
        }
    }
}

impl StartupError {
    /// The human-readable message that names the missing directory.
    pub fn message(&self) -> (r: String)
        ensures
            match self {
                StartupError::FrontendFolderNotFound { path } => r@ == "Frontend folder not found: "@
                    + path@,
            },
    {
        match self {
            StartupError::FrontendFolderNotFound { path } => String::from_str(
                "Frontend folder not found: ",
            ).concat(path.as_str()),
        }
    }
}

} // verus!
