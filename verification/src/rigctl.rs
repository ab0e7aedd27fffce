//! One-shot control: a batch of commands sent through `rigctl` or `rigctld`
//! as the configuration asks, without a registered commander.
use vstd::prelude::*;

use crate::common::config::{Config, ConfigControlMode, ConfigRigctl, ConfigRigctld};
use crate::common::error::HamlibPttError;
use crate::hamlib::rigctl::{decode_lossy, utf8_lossy};
use vstd::utf8::{valid_utf8, decode_utf8};

verus! {

/// The program that carries a batch of commands.
#[derive(Debug)]
pub enum RigCall {
    Rigctl(ConfigRigctl),
    Rigctld(ConfigRigctld),
}

/// What a batch of commands needs: nothing when there are no commands;
/// otherwise the program of the configured mode (a retained mode is served
/// like its one-shot form), or invalid data when its section is missing.
pub open spec fn call_plan(config: Config, commands: Option<Seq<String>>) -> Result<
    Option<RigCall>,
    HamlibPttError,
> {
    match commands {
        None => Ok(None),
        Some(c) => if c.len() == 0 {
            Ok(None)
        } else {
            match config.mode {
                ConfigControlMode::Rigctl | ConfigControlMode::RigctlRetained => match config.rigctl {
                    Some(r) => Ok(Some(RigCall::Rigctl(r))),
                    None => Err(HamlibPttError::ConfigDataInvalid),
                },
                ConfigControlMode::Rigctld | ConfigControlMode::RigctldRetained => match config.rigctld {
                    Some(d) => Ok(Some(RigCall::Rigctld(d))),
                    None => Err(HamlibPttError::ConfigDataInvalid),
                },
            }
        },
    }
}

/// Decides how a batch of commands is sent.
pub fn call(config: &Config, commands: Option<&Vec<String>>) -> (r: Result<
    Option<RigCall>,
    HamlibPttError,
>)
    ensures
        r == call_plan(
            *config,
            match commands {
                Some(c) => Some(c@),
                None => None,
            },
        ),
{
    let commands = match commands {
        None => {
            return Ok(None);
        },
        Some(c) => c,
    };
    if commands.len() == 0 {
        return Ok(None);
    }
    match config.mode {
        ConfigControlMode::Rigctl | ConfigControlMode::RigctlRetained => match &config.rigctl {
            Some(r) => Ok(Some(RigCall::Rigctl(r.clone()))),
            None => Err(HamlibPttError::ConfigDataInvalid),
        },
        ConfigControlMode::Rigctld | ConfigControlMode::RigctldRetained => match &config.rigctld {
            Some(d) => Ok(Some(RigCall::Rigctld(d.clone()))),
            None => Err(HamlibPttError::ConfigDataInvalid),
        },
    }
}

/// The outcome of a one-shot `rigctl` run: success, or an error that
/// carries the exit status as text and the error output read as UTF-8
/// with invalid sequences replaced.
pub fn call_rigctl_outcome(success: bool, status: String, stderr: &Vec<u8>) -> (r: Result<
    (),
    HamlibPttError,
>)
    ensures
        success ==> r is Ok,
        !success ==> (r matches Err(HamlibPttError::RigCtl(st, m)) && st == status && m@
            == utf8_lossy(stderr@) && (valid_utf8(stderr@) ==> m@ == decode_utf8(stderr@))),
{
    if success {
        Ok(())
    } else {
        let text = decode_lossy(stderr);
        Err(HamlibPttError::RigCtl(status, text))
    }
}

/// A batch of commands goes where the mode says: through `rigctl` with the
/// `rigctl` section for the `rigctl` modes, through `rigctld` with the
/// `rigctld` section for the `rigctld` modes; a missing section is invalid
/// data; no commands, or an empty list, need nothing.
pub proof fn lemma_call_follows_mode(config: Config, commands: Option<Seq<String>>)
    ensures
        commands is None || commands->0.len() == 0 ==> call_plan(config, commands) == Ok::<
            Option<RigCall>,
            HamlibPttError,
        >(None),
        commands is Some && commands->0.len() > 0 ==> {
            &&& (config.mode == ConfigControlMode::Rigctl || config.mode
                == ConfigControlMode::RigctlRetained) ==> call_plan(config, commands) == (
            match config.rigctl {
                Some(r) => Ok::<Option<RigCall>, HamlibPttError>(Some(RigCall::Rigctl(r))),
                None => Err(HamlibPttError::ConfigDataInvalid),
            })
            &&& (config.mode == ConfigControlMode::Rigctld || config.mode
                == ConfigControlMode::RigctldRetained) ==> call_plan(config, commands) == (
            match config.rigctld {
                Some(d) => Ok::<Option<RigCall>, HamlibPttError>(Some(RigCall::Rigctld(d))),
                None => Err(HamlibPttError::ConfigDataInvalid),
            })
        },
{
}

} // verus!
