//! The release recipe, as handed over by a configuration loader.

use vstd::prelude::*;

verus! {

/// Top-level configuration.
pub struct Config {
    pub release: ReleaseConfig,
}

/// Release settings.
pub struct ReleaseConfig {
    /// Deploy in a fresh, uniquely named directory that is discarded afterwards.
    pub clean: bool,
    /// Git repository URL.
    pub repository: String,
    /// Branch to check out.
    pub branch: String,
    /// Fetch and merge upstream changes after checkout.
    pub merge: bool,
    /// Resource files to copy into the working copy, in order.
    pub resources: Vec<Resource>,
    /// Deployment tool to run inside the working copy.
    pub tool: ToolConfig,
    /// Declared, not acted upon.
    pub tag: bool,
}

/// The deployment tool: a bare command, or a command with arguments.
pub enum ToolConfig {
    Full { command: String, arguments: Vec<String> },
    Simple(String),
}

/// A resource file to copy into the working copy.
pub struct Resource {
    /// Source path, relative to the `resources` directory beside the config file.
    pub file: String,
    /// Destination path, relative to the working directory; `file` when absent.
    pub copy_path: Option<String>,
}

/// Why a configuration was rejected.
#[derive(Debug, Clone, Copy, PartialEq, Eq, Structural)]
pub enum ConfigError {
    EmptyRepository,
    EmptyBranch,
}

/// The words of `args`, each preceded by a space.
pub open spec fn spaced_words(args: Seq<String>) -> Seq<char>
    decreases args.len(),
{
    if args.len() == 0 {
        Seq::empty()
    } else {
        spaced_words(args.drop_last()) + seq![' '] + args.last()@
    }
}

impl ToolConfig {
    /// The configured command text, empty when none.
    pub open spec fn command_text(&self) -> Seq<char> {
        match self {
            ToolConfig::Full { command, .. } => command@,
            ToolConfig::Simple(command) => command@,
        }
    }

    /// The configured arguments.
    pub open spec fn argument_list(&self) -> Seq<String> {
        match self {
            ToolConfig::Full { arguments, .. } => arguments@,
            ToolConfig::Simple(_) => Seq::empty(),
        }
    }

    /// No tool is configured: the effective command is empty.
    pub open spec fn spec_is_empty(&self) -> bool {
        self.command_text().len() == 0
    }

    /// Human-readable form: the command followed by its arguments, space separated.
    pub open spec fn text(&self) -> Seq<char> {
        self.command_text() + spaced_words(self.argument_list())
    }

    /// The command, or `None` when it is empty.
    pub fn command(&self) -> (r: Option<&str>)
        ensures
            r is None <==> self.spec_is_empty(),
            r matches Some(c) ==> c@ == self.command_text(),
    {
        let c: &String = match self {
            ToolConfig::Full { command, .. } => command,
            ToolConfig::Simple(command) => command,
        };
        if c.as_str().is_empty() {
            None
        } else {
            Some(c.as_str())
        }
    }

    /// The arguments; none for a bare command.
    pub fn arguments(&self) -> (r: &[String])
        ensures
            r@ == self.argument_list(),
    {
        match self {
            ToolConfig::Full { arguments, .. } => arguments.as_slice(),
            ToolConfig::Simple(_) => &[],
        }
    }

    /// The command followed by its arguments, separated by spaces.
    pub fn describe(&self) -> (r: String)
        ensures
            r@ == self.text(),
    {
        let mut out = match self {
            ToolConfig::Full { command, .. } => command.clone(),
            ToolConfig::Simple(command) => command.clone(),
        };
        let args = self.arguments();
        let mut i: usize = 0;
        while i < args.len()
            invariant
                i <= args@.len(),
                args@ == self.argument_list(),
                out@ == self.command_text() + spaced_words(args@.subrange(0, i as int)),
            decreases args@.len() - i,
        {
            proof {
                reveal_strlit(" ");
                assert(args@.subrange(0, i + 1).drop_last() =~= args@.subrange(0, i as int));
            }
            out.append(" ");
            out.append(args[i].as_str());
            proof {
                assert(out@ =~= self.command_text() + spaced_words(args@.subrange(0, i + 1)));
            }
            i = i + 1;
        }
        proof {
            assert(args@.subrange(0, args@.len() as int) == args@);
        }
        out
    }

    /// Whether no tool is configured.
    pub fn is_empty(&self) -> (r: bool)
        ensures
            r == self.spec_is_empty(),
    {
        self.command().is_none()
    }
}

impl Default for ToolConfig {
    fn default() -> (r: Self)
        ensures
            r is Simple,
            r.spec_is_empty(),
    {
        ToolConfig::Simple(String::new())
    }
}

impl ReleaseConfig {
    /// The configuration carries both a repository and a branch.
    pub open spec fn is_valid(&self) -> bool {
        self.repository@.len() > 0 && self.branch@.len() > 0
    }
}

impl Config {
    /// Checks that the repository URL and the branch are set.
    pub fn validate(&self) -> (r: Result<(), ConfigError>)
        ensures
            r is Ok <==> self.release.is_valid(),
            r == Err::<(), ConfigError>(ConfigError::EmptyRepository) <==> self.release.repository@.len() == 0,
            r == Err::<(), ConfigError>(ConfigError::EmptyBranch) <==> (self.release.repository@.len() > 0
                && self.release.branch@.len() == 0),
    {
        if self.release.repository.as_str().is_empty() {
            return Err(ConfigError::EmptyRepository);
        }
        if self.release.branch.as_str().is_empty() {
            return Err(ConfigError::EmptyBranch);
        }
        Ok(())
    }
}

} // verus!
