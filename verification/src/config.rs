//! The container configuration: the immutable bundle of parameters the
//! supervisor validates once and the child then consumes.
//!
//! The command line handed in by the caller is split on ASCII whitespace
//! into `argv`; the first token is the executable path and becomes
//! `command`, so `argv[0] == command` and `argv` is never empty. Every
//! token must be free of NUL bytes, since each is later passed to `execve`
//! as a NUL-terminated string.

use vstd::prelude::*;

use crate::bytes::{clone_bytes, contains_byte, deep, split_whitespace, split_ws};

verus! {

/// All parameters the child needs, fixed before the clone.
#[derive(Debug, Clone)]
pub struct ContainerConfig {
    /// Absolute path of the target executable; equals `argv[0]`.
    pub command: Vec<u8>,
    /// Argument vector for `execve`, whitespace-split from the command line.
    pub argv: Vec<Vec<u8>>,
    /// Identity inside the container; also used as the gid.
    pub uid: u32,
    /// Host directory that becomes the container's root.
    pub mount_dir: Vec<u8>,
    /// Optional hostname, applied inside the new UTS namespace.
    pub hostname: Option<Vec<u8>>,
    /// Additional executables staged alongside `command`.
    pub commands_to_copy: Vec<Vec<u8>>,
}

/// Why a command line was rejected.
#[derive(Debug, Clone, Copy, PartialEq, Eq, Structural)]
pub enum ConfigError {
    /// The command line holds no token at all.
    EmptyCommand,
    /// A token holds a NUL byte and could not be passed to `execve`.
    NulInArgument,
}

/// Whether a token holds a NUL byte.
pub open spec fn has_nul(t: Seq<u8>) -> bool {
    exists|i: int| 0 <= i < t.len() && #[trigger] t[i] == 0
}

/// A token fit for `execve`: non-empty and free of NUL bytes.
pub open spec fn token_ok(t: Seq<u8>) -> bool {
    t.len() > 0 && !has_nul(t)
}

/// Well-formedness of a configuration: a non-empty argument vector of
/// `execve`-fit tokens whose head is the command.
pub open spec fn config_wf(c: ContainerConfig) -> bool {
    &&& c.argv@.len() >= 1
    &&& deep(c.argv@)[0] == c.command@
    &&& forall|j: int| 0 <= j < c.argv@.len() ==> token_ok(#[trigger] deep(c.argv@)[j])
}

impl ContainerConfig {
    /// Build a configuration from the raw command line and the validated
    /// caller parameters.
    ///
    /// The command line is split on ASCII whitespace; no token means there
    /// is nothing to execute, and a NUL byte anywhere in a token cannot
    /// survive the conversion to a NUL-terminated argument.
    pub fn new(
        command_line: &Vec<u8>,
        uid: u32,
        mount_dir: Vec<u8>,
        hostname: Option<Vec<u8>>,
        commands_to_copy: Vec<Vec<u8>>,
    ) -> (r: Result<ContainerConfig, ConfigError>)
        ensures
            r is Ok <==> split_ws(command_line@).len() >= 1 && forall|j: int|
                0 <= j < split_ws(command_line@).len() ==> token_ok(
                    #[trigger] split_ws(command_line@)[j],
                ),
            split_ws(command_line@).len() == 0 ==> r == Err::<ContainerConfig, ConfigError>(
                ConfigError::EmptyCommand,
            ),
            r is Err && split_ws(command_line@).len() >= 1 ==> r == Err::<
                ContainerConfig,
                ConfigError,
            >(ConfigError::NulInArgument),
            r matches Ok(c) ==> {
                &&& config_wf(c)
                &&& deep(c.argv@) == split_ws(command_line@)
                &&& c.command@ == split_ws(command_line@)[0]
                &&& c.uid == uid
                &&& c.mount_dir@ == mount_dir@
                &&& c.hostname == hostname
                &&& c.commands_to_copy@ == commands_to_copy@
            },
    {
        let argv = split_whitespace(command_line.as_slice());
        if argv.len() == 0 {
            return Err(ConfigError::EmptyCommand);
        }
        let mut j: usize = 0;
        while j < argv.len()
            invariant
                0 <= j <= argv.len(),
                argv.len() >= 1,
                deep(argv@) == split_ws(command_line@),
                forall|k: int| 0 <= k < j ==> !has_nul(#[trigger] deep(argv@)[k]),
            decreases argv.len() - j,
        {
            if contains_byte(&argv[j], 0) {
                proof {
                    assert(deep(argv@)[j as int] == argv@[j as int]@);
                    assert(has_nul(deep(argv@)[j as int]));
                    assert(!token_ok(deep(argv@)[j as int]));
                }
                return Err(ConfigError::NulInArgument);
            }
            proof {
                assert(deep(argv@)[j as int] == argv@[j as int]@);
            }
            j = j + 1;
        }
        proof {
            crate::bytes::lemma_split_ws_tokens_nonempty(command_line@);
            assert(forall|k: int| 0 <= k < argv@.len() ==> token_ok(#[trigger] deep(argv@)[k]));
        }
        let command = clone_bytes(&argv[0]);
        Ok(ContainerConfig { command, argv, uid, mount_dir, hostname, commands_to_copy })
    }
}

/// Law: constructing and consuming a configuration leaves a non-empty
/// argument vector whose head equals the command.
pub proof fn lemma_config_head(c: ContainerConfig)
    requires
        config_wf(c),
    ensures
        c.argv@.len() >= 1,
        c.argv@[0]@ == c.command@,
{
    assert(deep(c.argv@)[0] == c.argv@[0]@);
}

} // verus!
