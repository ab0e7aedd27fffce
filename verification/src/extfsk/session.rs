//! Opening and closing the EXTFSK interface. Both alternate I/O (reading the
//! configuration, starting processes, sending commands, opening the serial
//! port, showing a dialog) with decisions; the decisions are the sessions
//! here, which take the outcome of each I/O step as an event and answer
//! with the next step to perform.
use vstd::prelude::*;

use crate::common::config::{
    Config,
    ConfigCommands,
    ConfigControlMode,
    ConfigFsk,
    ConfigFskTarget,
    ConfigRigctl,
    ConfigRigctld,
};
use crate::common::error::HamlibPttError;
use crate::extfsk::parameter::{ExtfskParameter, ExtfskStopbit};
use crate::spinfsk::{FskParameter, FskStopbit, FskTarget};
use crate::text::{decimal, decimal_text};

verus! {

/// The commander that the configuration asks for, with its settings.
#[derive(Debug)]
pub enum CommanderPlan {
    Rigctl(ConfigRigctl),
    RetainedRigctl(ConfigRigctl),
    Rigctld(ConfigRigctld),
    RetainedRigctld(ConfigRigctld),
}

impl Clone for CommanderPlan {
    fn clone(&self) -> (r: Self)
        ensures
            r == *self,
    {
        match self {
            CommanderPlan::Rigctl(c) => CommanderPlan::Rigctl(c.clone()),
            CommanderPlan::RetainedRigctl(c) => CommanderPlan::RetainedRigctl(c.clone()),
            CommanderPlan::Rigctld(c) => CommanderPlan::Rigctld(c.clone()),
            CommanderPlan::RetainedRigctld(c) => CommanderPlan::RetainedRigctld(c.clone()),
        }
    }
}

/// The FSK keyer to start: its serial port and its keying parameters.
#[derive(Debug)]
pub struct FskPlan {
    pub device: String,
    pub parameter: FskParameter,
}

impl Clone for FskPlan {
    fn clone(&self) -> (r: Self)
        ensures
            r == *self,
    {
        FskPlan { device: self.device.clone(), parameter: self.parameter }
    }
}

fn clone_fsk_plan(p: &Option<FskPlan>) -> (r: Option<FskPlan>)
    ensures
        r == *p,
{
    match p {
        Some(f) => Some(f.clone()),
        None => None,
    }
}

/// The commander for the configured mode, where the configuration holds the
/// section that the mode needs.
pub open spec fn commander_plan(config: Config) -> Option<CommanderPlan> {
    match config.mode {
        ConfigControlMode::Rigctl => match config.rigctl {
            Some(r) => Some(CommanderPlan::Rigctl(r)),
            None => None,
        },
        ConfigControlMode::RigctlRetained => match config.rigctl {
            Some(r) => Some(CommanderPlan::RetainedRigctl(r)),
            None => None,
        },
        ConfigControlMode::Rigctld => match config.rigctld {
            Some(d) => Some(CommanderPlan::Rigctld(d)),
            None => None,
        },
        ConfigControlMode::RigctldRetained => match config.rigctld {
            Some(d) => Some(CommanderPlan::RetainedRigctld(d)),
            None => None,
        },
    }
}

/// Chooses the commander; a mode without its section is invalid data.
pub fn plan_commander(config: &Config) -> (r: Result<CommanderPlan, HamlibPttError>)
    ensures
        match commander_plan(*config) {
            Some(p) => r == Ok::<CommanderPlan, HamlibPttError>(p),
            None => r == Err::<CommanderPlan, HamlibPttError>(HamlibPttError::ConfigDataInvalid),
        },
{
    match config.mode {
        ConfigControlMode::Rigctl => match &config.rigctl {
            Some(r) => Ok(CommanderPlan::Rigctl(r.clone())),
            None => Err(HamlibPttError::ConfigDataInvalid),
        },
        ConfigControlMode::RigctlRetained => match &config.rigctl {
            Some(r) => Ok(CommanderPlan::RetainedRigctl(r.clone())),
            None => Err(HamlibPttError::ConfigDataInvalid),
        },
        ConfigControlMode::Rigctld => match &config.rigctld {
            Some(d) => Ok(CommanderPlan::Rigctld(d.clone())),
            None => Err(HamlibPttError::ConfigDataInvalid),
        },
        ConfigControlMode::RigctldRetained => match &config.rigctld {
            Some(d) => Ok(CommanderPlan::RetainedRigctld(d.clone())),
            None => Err(HamlibPttError::ConfigDataInvalid),
        },
    }
}

/// How a `rigctl` is described to the user.
pub open spec fn rigctl_description(r: ConfigRigctl) -> Seq<char> {
    r.rigctl_path@ + " (id="@ + decimal(r.model_id as nat) + ", device="@ + r.device@ + ")"@
}

/// How the commander is described to the user.
pub open spec fn ptt_message(plan: CommanderPlan) -> Seq<char> {
    match plan {
        CommanderPlan::Rigctl(r) => "rigctl at "@ + rigctl_description(r),
        CommanderPlan::RetainedRigctl(r) => "retained connection rigctl at "@ + rigctl_description(
            r,
        ),
        CommanderPlan::Rigctld(d) => "rigctld on "@ + d.address@,
        CommanderPlan::RetainedRigctld(d) => "retained connection rigctld on "@ + d.address@,
    }
}

fn rigctl_description_text(r: &ConfigRigctl) -> (s: String)
    ensures
        s@ == rigctl_description(*r),
{
    let mut s = r.rigctl_path.clone();
    s.append(" (id=");
    let id = decimal_text(r.model_id);
    s.append(id.as_str());
    s.append(", device=");
    s.append(r.device.as_str());
    s.append(")");
    s
}

/// Describes the commander for the user.
pub fn ptt_message_text(plan: &CommanderPlan) -> (s: String)
    ensures
        s@ == ptt_message(*plan),
{
    match plan {
        CommanderPlan::Rigctl(r) => {
            let d = rigctl_description_text(r);
            String::from_str("rigctl at ").concat(d.as_str())
        },
        CommanderPlan::RetainedRigctl(r) => {
            let d = rigctl_description_text(r);
            String::from_str("retained connection rigctl at ").concat(d.as_str())
        },
        CommanderPlan::Rigctld(d) => String::from_str("rigctld on ").concat(d.address.as_str()),
        CommanderPlan::RetainedRigctld(d) => String::from_str(
            "retained connection rigctld on ",
        ).concat(d.address.as_str()),
    }
}

/// The keying parameters: the host's character length, rate and stop bit,
/// the configured line, and no inversion unless configured.
pub open spec fn fsk_parameter_of(p: ExtfskParameter, fsk: ConfigFsk) -> FskParameter {
    FskParameter {
        data_bits: p.length as usize,
        baud: p.baud,
        stop_bit: match p.stop_bit {
            ExtfskStopbit::One => FskStopbit::One,
            ExtfskStopbit::OneHalf => FskStopbit::OneHalf,
            ExtfskStopbit::Two => FskStopbit::Two,
        },
        target: match fsk.target {
            ConfigFskTarget::Dtr => FskTarget::Dtr,
            ConfigFskTarget::Rts => FskTarget::Rts,
        },
        invert: match fsk.invert {
            Some(b) => b,
            None => false,
        },
    }
}

/// The FSK keyer to start: one when FSK is enabled; enabling it without an
/// `fsk` section is invalid data; otherwise none.
pub open spec fn fsk_plan(config: Config, p: ExtfskParameter) -> Result<
    Option<FskPlan>,
    HamlibPttError,
> {
    match config.enable_fsk {
        Some(true) => match config.fsk {
            Some(f) => Ok(Some(FskPlan { device: f.device, parameter: fsk_parameter_of(p, f) })),
            None => Err(HamlibPttError::ConfigDataInvalid),
        },
        _ => Ok(None),
    }
}

/// Builds the keying parameters from the host's and the configured ones.
pub fn fsk_parameter(p: ExtfskParameter, fsk: &ConfigFsk) -> (r: FskParameter)
    ensures
        r == fsk_parameter_of(p, *fsk),
{
    FskParameter {
        data_bits: p.length as usize,
        baud: p.baud,
        stop_bit: match p.stop_bit {
            ExtfskStopbit::One => FskStopbit::One,
            ExtfskStopbit::OneHalf => FskStopbit::OneHalf,
            ExtfskStopbit::Two => FskStopbit::Two,
        },
        target: match fsk.target {
            ConfigFskTarget::Dtr => FskTarget::Dtr,
            ConfigFskTarget::Rts => FskTarget::Rts,
        },
        invert: fsk.invert.unwrap_or(false),
    }
}

/// Decides whether and how FSK keying is started.
pub fn plan_fsk(config: &Config, p: ExtfskParameter) -> (r: Result<
    Option<FskPlan>,
    HamlibPttError,
>)
    ensures
        r == fsk_plan(*config, p),
{
    match config.enable_fsk {
        Some(true) => match &config.fsk {
            Some(f) => Ok(
                Some(FskPlan { device: f.device.clone(), parameter: fsk_parameter(p, f) }),
            ),
            None => Err(HamlibPttError::ConfigDataInvalid),
        },
        _ => Ok(None),
    }
}

/// How the FSK keyer is described to the user.
pub open spec fn fsk_message(fsk: Option<FskPlan>) -> Seq<char> {
    match fsk {
        Some(f) => "enabled on "@ + f.device@ + " ("@ + f.parameter.description() + ")"@,
        None => "disabled"@,
    }
}

/// The message shown once the interface is open.
pub open spec fn initialized_text(plan: CommanderPlan, fsk: Option<FskPlan>) -> Seq<char> {
    "Initialized successfully!\n\nPTT: "@ + ptt_message(plan) + "\n\nFSK: "@ + fsk_message(fsk)
}

/// Builds the message shown once the interface is open.
pub fn initialized_message(plan: &CommanderPlan, fsk: &Option<FskPlan>) -> (s: String)
    ensures
        s@ == initialized_text(*plan, *fsk),
{
    let mut s = String::from_str("Initialized successfully!\n\nPTT: ");
    let ptt = ptt_message_text(plan);
    s.append(ptt.as_str());
    s.append("\n\nFSK: ");
    match fsk {
        Some(f) => {
            s.append("enabled on ");
            s.append(f.device.as_str());
            s.append(" (");
            let d = f.parameter.describe();
            s.append(d.as_str());
            s.append(")");
        },
        None => {
            s.append("disabled");
        },
    }
    s
}

/// The steps of opening the interface.
#[derive(Debug)]
pub enum OpenPhase {
    /// Waiting for the configuration.
    Loading,
    /// Waiting for the commander to be created.
    CreatingCommander { config: Config, plan: CommanderPlan },
    /// Waiting for the commander and the commands to be registered.
    Registering { plan: CommanderPlan, fsk: Option<FskPlan> },
    /// Waiting for the `open` commands to be sent.
    Sending { plan: CommanderPlan, fsk: Option<FskPlan> },
    /// Waiting for the FSK keyer to start.
    StartingFsk { plan: CommanderPlan, keyer: FskPlan },
    /// Waiting for the message to be shown; showing it cannot fail, so
    /// whatever comes next, the open has succeeded.
    Showing,
    /// Done; nothing more is asked.
    Finished,
}

/// An open in progress: the host's keying parameters and the current step.
#[derive(Debug)]
pub struct OpenSession {
    pub parameter: ExtfskParameter,
    pub phase: OpenPhase,
}

/// The outcome of the last step performed.
#[derive(Debug)]
pub enum OpenEvent {
    /// The configuration was read.
    ConfigLoaded(Config),
    /// The step succeeded.
    Succeeded,
    /// The step failed.
    Failed(HamlibPttError),
}

/// The next step to perform.
#[derive(Debug)]
pub enum OpenAction {
    /// Read the configuration file that stands beside the DLL.
    LoadConfig,
    /// Create the commander.
    CreateCommander(CommanderPlan),
    /// Register the created commander with these commands.
    RegisterPtt(ConfigCommands),
    /// Send the `open` commands through the registered commander.
    SendOpenCommands,
    /// Open the serial port and start keying; register the keyer.
    StartFsk(FskPlan),
    /// Show the message `initialized_text(plan, fsk)`.
    ShowInfo { plan: CommanderPlan, fsk: Option<FskPlan> },
    /// Opening is over, with this outcome.
    Finish(Result<(), HamlibPttError>),
}

/// What a session does with an event: its next state and the step it asks
/// for.
pub open spec fn open_next(s: OpenSession, e: OpenEvent) -> (OpenSession, OpenAction) {
    let finished = OpenSession { parameter: s.parameter, phase: OpenPhase::Finished };
    let invalid = (finished, OpenAction::Finish(Err(HamlibPttError::InvalidState)));
    match s.phase {
        OpenPhase::Finished => invalid,
        OpenPhase::Showing => (finished, OpenAction::Finish(Ok(()))),
        _ => match e {
            OpenEvent::Failed(err) => (finished, OpenAction::Finish(Err(err))),
            OpenEvent::ConfigLoaded(config) => match s.phase {
                OpenPhase::Loading => match commander_plan(config) {
                    None => (
                        finished,
                        OpenAction::Finish(Err(HamlibPttError::ConfigDataInvalid)),
                    ),
                    Some(plan) => (
                        OpenSession {
                            parameter: s.parameter,
                            phase: OpenPhase::CreatingCommander { config, plan },
                        },
                        OpenAction::CreateCommander(plan),
                    ),
                },
                _ => invalid,
            },
            OpenEvent::Succeeded => match s.phase {
                OpenPhase::CreatingCommander { config, plan } => match fsk_plan(
                    config,
                    s.parameter,
                ) {
                    Err(err) => (finished, OpenAction::Finish(Err(err))),
                    Ok(fsk) => (
                        OpenSession {
                            parameter: s.parameter,
                            phase: OpenPhase::Registering { plan, fsk },
                        },
                        OpenAction::RegisterPtt(config.commands),
                    ),
                },
                OpenPhase::Registering { plan, fsk } => (
                    OpenSession { parameter: s.parameter, phase: OpenPhase::Sending { plan, fsk } },
                    OpenAction::SendOpenCommands,
                ),
                OpenPhase::Sending { plan, fsk } => match fsk {
                    Some(f) => (
                        OpenSession {
                            parameter: s.parameter,
                            phase: OpenPhase::StartingFsk { plan, keyer: f },
                        },
                        OpenAction::StartFsk(f),
                    ),
                    None => (
                        OpenSession { parameter: s.parameter, phase: OpenPhase::Showing },
                        OpenAction::ShowInfo { plan, fsk: None },
                    ),
                },
                OpenPhase::StartingFsk { plan, keyer } => (
                    OpenSession { parameter: s.parameter, phase: OpenPhase::Showing },
                    OpenAction::ShowInfo { plan, fsk: Some(keyer) },
                ),
                _ => invalid,
            },
        },
    }
}

/// Starts opening the interface with the host's keying parameters; the
/// first step is reading the configuration.
pub fn open(extfsk_parameter: ExtfskParameter) -> (r: (OpenSession, OpenAction))
    ensures
        r.0 == (OpenSession { parameter: extfsk_parameter, phase: OpenPhase::Loading }),
        r.1 == OpenAction::LoadConfig,
{
    (OpenSession { parameter: extfsk_parameter, phase: OpenPhase::Loading }, OpenAction::LoadConfig)
}

impl OpenSession {
    /// Takes the outcome of the last step and gives the next step.
    pub fn step(self, event: OpenEvent) -> (r: (OpenSession, OpenAction))
        ensures
            r == open_next(self, event),
    {
        let parameter = self.parameter;
        match self.phase {
            OpenPhase::Finished => (
                OpenSession { parameter, phase: OpenPhase::Finished },
                OpenAction::Finish(Err(HamlibPttError::InvalidState)),
            ),
            OpenPhase::Loading => match event {
                OpenEvent::Failed(err) => (
                    OpenSession { parameter, phase: OpenPhase::Finished },
                    OpenAction::Finish(Err(err)),
                ),
                OpenEvent::ConfigLoaded(config) => match plan_commander(&config) {
                    Err(err) => (
                        OpenSession { parameter, phase: OpenPhase::Finished },
                        OpenAction::Finish(Err(err)),
                    ),
                    Ok(plan) => {
                        let kept = plan.clone();
                        (
                            OpenSession {
                                parameter,
                                phase: OpenPhase::CreatingCommander { config, plan: kept },
                            },
                            OpenAction::CreateCommander(plan),
                        )
                    },
                },
                OpenEvent::Succeeded => (
                    OpenSession { parameter, phase: OpenPhase::Finished },
                    OpenAction::Finish(Err(HamlibPttError::InvalidState)),
                ),
            },
            OpenPhase::CreatingCommander { config, plan } => match event {
                OpenEvent::Failed(err) => (
                    OpenSession { parameter, phase: OpenPhase::Finished },
                    OpenAction::Finish(Err(err)),
                ),
                OpenEvent::Succeeded => match plan_fsk(&config, parameter) {
                    Err(err) => (
                        OpenSession { parameter, phase: OpenPhase::Finished },
                        OpenAction::Finish(Err(err)),
                    ),
                    Ok(fsk) => (
                        OpenSession { parameter, phase: OpenPhase::Registering { plan, fsk } },
                        OpenAction::RegisterPtt(config.commands),
                    ),
                },
                OpenEvent::ConfigLoaded(_) => (
                    OpenSession { parameter, phase: OpenPhase::Finished },
                    OpenAction::Finish(Err(HamlibPttError::InvalidState)),
                ),
            },
            OpenPhase::Registering { plan, fsk } => match event {
                OpenEvent::Failed(err) => (
                    OpenSession { parameter, phase: OpenPhase::Finished },
                    OpenAction::Finish(Err(err)),
                ),
                OpenEvent::Succeeded => (
                    OpenSession { parameter, phase: OpenPhase::Sending { plan, fsk } },
                    OpenAction::SendOpenCommands,
                ),
                OpenEvent::ConfigLoaded(_) => (
                    OpenSession { parameter, phase: OpenPhase::Finished },
                    OpenAction::Finish(Err(HamlibPttError::InvalidState)),
                ),
            },
            OpenPhase::Sending { plan, fsk } => match event {
                OpenEvent::Failed(err) => (
                    OpenSession { parameter, phase: OpenPhase::Finished },
                    OpenAction::Finish(Err(err)),
                ),
                OpenEvent::Succeeded => match fsk {
                    Some(f) => {
                        let kept = f.clone();
                        (
                            OpenSession {
                                parameter,
                                phase: OpenPhase::StartingFsk { plan, keyer: kept },
                            },
                            OpenAction::StartFsk(f),
                        )
                    },
                    None => (
                        OpenSession { parameter, phase: OpenPhase::Showing },
                        OpenAction::ShowInfo { plan, fsk: None },
                    ),
                },
                OpenEvent::ConfigLoaded(_) => (
                    OpenSession { parameter, phase: OpenPhase::Finished },
                    OpenAction::Finish(Err(HamlibPttError::InvalidState)),
                ),
            },
            OpenPhase::StartingFsk { plan, keyer } => match event {
                OpenEvent::Failed(err) => (
                    OpenSession { parameter, phase: OpenPhase::Finished },
                    OpenAction::Finish(Err(err)),
                ),
                OpenEvent::Succeeded => (
                    OpenSession { parameter, phase: OpenPhase::Showing },
                    OpenAction::ShowInfo { plan, fsk: Some(keyer) },
                ),
                OpenEvent::ConfigLoaded(_) => (
                    OpenSession { parameter, phase: OpenPhase::Finished },
                    OpenAction::Finish(Err(HamlibPttError::InvalidState)),
                ),
            },
            OpenPhase::Showing => (
                OpenSession { parameter, phase: OpenPhase::Finished },
                OpenAction::Finish(Ok(())),
            ),
        }
    }
}

/// The steps a session asks for while it takes `events` in turn.
pub open spec fn open_run(s: OpenSession, events: Seq<OpenEvent>) -> Seq<OpenAction>
    decreases events.len(),
{
    if events.len() == 0 {
        Seq::empty()
    } else {
        let (next, action) = open_next(s, events[0]);
        seq![action] + open_run(next, events.drop_first())
    }
}

/// A session that has just been started for `p`.
pub open spec fn fresh_open(p: ExtfskParameter) -> OpenSession {
    OpenSession { parameter: p, phase: OpenPhase::Loading }
}

/// When every step succeeds on a valid configuration, opening creates the
/// planned commander, registers it with the configured commands, sends the
/// `open` commands, starts the FSK keyer when FSK is enabled, shows the
/// message and ends successfully, in this order.
pub proof fn lemma_open_succeeds(p: ExtfskParameter, config: Config)
    requires
        commander_plan(config) is Some,
        fsk_plan(config, p) is Ok,
    ensures
        ({
            let plan = commander_plan(config)->0;
            let fsk = fsk_plan(config, p)->Ok_0;
            let events = seq![
                OpenEvent::ConfigLoaded(config),
                OpenEvent::Succeeded,
                OpenEvent::Succeeded,
                OpenEvent::Succeeded,
            ] + (if fsk is Some {
                seq![OpenEvent::Succeeded]
            } else {
                Seq::empty()
            }) + seq![OpenEvent::Succeeded];
            open_run(fresh_open(p), events) == seq![
                OpenAction::CreateCommander(plan),
                OpenAction::RegisterPtt(config.commands),
                OpenAction::SendOpenCommands,
            ] + (match fsk {
                Some(f) => seq![OpenAction::StartFsk(f)],
                None => Seq::empty(),
            }) + seq![OpenAction::ShowInfo { plan, fsk }, OpenAction::Finish(Ok(()))]
        }),
{
    let plan = commander_plan(config)->0;
    let fsk = fsk_plan(config, p)->Ok_0;
    let s0 = fresh_open(p);
    let s1 = OpenSession {
        parameter: p,
        phase: OpenPhase::CreatingCommander { config, plan },
    };
    let s2 = OpenSession { parameter: p, phase: OpenPhase::Registering { plan, fsk } };
    let s3 = OpenSession { parameter: p, phase: OpenPhase::Sending { plan, fsk } };
    let showing = OpenSession { parameter: p, phase: OpenPhase::Showing };
    let tail = seq![OpenEvent::Succeeded];
    let tail_actions = seq![OpenAction::ShowInfo { plan, fsk }, OpenAction::Finish(Ok(()))];
    match fsk {
        Some(f) => {
            let s4 = OpenSession { parameter: p, phase: OpenPhase::StartingFsk { plan, keyer: f } };
            let events = seq![
                OpenEvent::ConfigLoaded(config),
                OpenEvent::Succeeded,
                OpenEvent::Succeeded,
                OpenEvent::Succeeded,
                OpenEvent::Succeeded,
                OpenEvent::Succeeded,
            ];
            assert(events =~= seq![
                OpenEvent::ConfigLoaded(config),
                OpenEvent::Succeeded,
                OpenEvent::Succeeded,
                OpenEvent::Succeeded,
            ] + seq![OpenEvent::Succeeded] + tail);
            assert(open_run(showing, events.skip(5)) == seq![OpenAction::Finish(Ok(()))]) by {
                assert(events.skip(5) =~= seq![OpenEvent::Succeeded]);
                assert(events.skip(5).drop_first() =~= Seq::<OpenEvent>::empty());
                let fin = OpenSession { parameter: p, phase: OpenPhase::Finished };
                assert(open_run(fin, Seq::<OpenEvent>::empty()) == Seq::<OpenAction>::empty());
                assert(seq![OpenAction::Finish(Ok(()))] + Seq::<OpenAction>::empty() =~= seq![
                    OpenAction::Finish(Ok(())),
                ]);
            }
            assert(events.skip(4).drop_first() =~= events.skip(5));
            assert(events.skip(3).drop_first() =~= events.skip(4));
            assert(events.skip(2).drop_first() =~= events.skip(3));
            assert(events.skip(1).drop_first() =~= events.skip(2));
            assert(events.drop_first() =~= events.skip(1));
            assert(open_run(s4, events.skip(4)) =~= tail_actions);
            assert(open_run(s3, events.skip(3)) =~= seq![OpenAction::StartFsk(f)] + tail_actions);
            assert(open_run(s2, events.skip(2)) =~= seq![
                OpenAction::SendOpenCommands,
                OpenAction::StartFsk(f),
            ] + tail_actions);
            assert(open_run(s1, events.skip(1)) =~= seq![
                OpenAction::RegisterPtt(config.commands),
                OpenAction::SendOpenCommands,
                OpenAction::StartFsk(f),
            ] + tail_actions);
            assert(open_run(s0, events) =~= seq![
                OpenAction::CreateCommander(plan),
                OpenAction::RegisterPtt(config.commands),
                OpenAction::SendOpenCommands,
            ] + seq![OpenAction::StartFsk(f)] + tail_actions);
        },
        None => {
            let events = seq![
                OpenEvent::ConfigLoaded(config),
                OpenEvent::Succeeded,
                OpenEvent::Succeeded,
                OpenEvent::Succeeded,
                OpenEvent::Succeeded,
            ];
            assert(events =~= seq![
                OpenEvent::ConfigLoaded(config),
                OpenEvent::Succeeded,
                OpenEvent::Succeeded,
                OpenEvent::Succeeded,
            ] + Seq::<OpenEvent>::empty() + tail);
            assert(open_run(showing, events.skip(4)) == seq![OpenAction::Finish(Ok(()))]) by {
                assert(events.skip(4) =~= seq![OpenEvent::Succeeded]);
                assert(events.skip(4).drop_first() =~= Seq::<OpenEvent>::empty());
                let fin = OpenSession { parameter: p, phase: OpenPhase::Finished };
                assert(open_run(fin, Seq::<OpenEvent>::empty()) == Seq::<OpenAction>::empty());
                assert(seq![OpenAction::Finish(Ok(()))] + Seq::<OpenAction>::empty() =~= seq![
                    OpenAction::Finish(Ok(())),
                ]);
            }
            assert(events.skip(3).drop_first() =~= events.skip(4));
            assert(events.skip(2).drop_first() =~= events.skip(3));
            assert(events.skip(1).drop_first() =~= events.skip(2));
            assert(events.drop_first() =~= events.skip(1));
            assert(open_run(s3, events.skip(3)) =~= tail_actions);
            assert(open_run(s2, events.skip(2)) =~= seq![OpenAction::SendOpenCommands]
                + tail_actions);
            assert(open_run(s1, events.skip(1)) =~= seq![
                OpenAction::RegisterPtt(config.commands),
                OpenAction::SendOpenCommands,
            ] + tail_actions);
            assert(open_run(s0, events) =~= seq![
                OpenAction::CreateCommander(plan),
                OpenAction::RegisterPtt(config.commands),
                OpenAction::SendOpenCommands,
            ] + Seq::<OpenAction>::empty() + tail_actions);
        },
    }
}

/// A failed step ends the open with that step's error, whatever step it
/// was, up to showing the success message; nothing more is asked after it.
pub proof fn lemma_open_failure_ends(s: OpenSession, err: HamlibPttError)
    requires
        !(s.phase is Finished),
        !(s.phase is Showing),
    ensures
        open_next(s, OpenEvent::Failed(err)) == (
            OpenSession { parameter: s.parameter, phase: OpenPhase::Finished },
            OpenAction::Finish(Err(err)),
        ),
{
}

/// A configuration whose mode lacks its section is refused as invalid data
/// as soon as it is read, before any commander is created.
pub proof fn lemma_open_rejects_missing_section(p: ExtfskParameter, config: Config)
    requires
        commander_plan(config) is None,
    ensures
        open_next(fresh_open(p), OpenEvent::ConfigLoaded(config)).1 == OpenAction::Finish(
            Err(HamlibPttError::ConfigDataInvalid),
        ),
{
}

/// The FSK keyer is started only right after the `open` commands were sent
/// successfully, and the `open` commands are sent only right after the
/// commander was registered.
pub proof fn lemma_open_order(s: OpenSession, e: OpenEvent)
    ensures
        open_next(s, e).1 is StartFsk ==> s.phase is Sending && e is Succeeded,
        open_next(s, e).1 is SendOpenCommands ==> s.phase is Registering && e is Succeeded,
        open_next(s, e).1 is RegisterPtt ==> s.phase is CreatingCommander && e is Succeeded,
        open_next(s, e).1 is CreateCommander ==> s.phase is Loading && e is ConfigLoaded,
        open_next(s, e).1 is ShowInfo ==> e is Succeeded && (s.phase is Sending
            || s.phase is StartingFsk),
        open_next(s, e).1 == OpenAction::Finish(Ok(())) ==> s.phase is Showing,
{
}

/// Once the success message has been asked for, the open ends in success
/// whatever is reported next; an open that ends in success has asked for
/// that message as its last step.
pub proof fn lemma_open_message_means_success(s: OpenSession, e: OpenEvent)
    requires
        s.phase is Showing,
    ensures
        open_next(s, e) == (
            OpenSession { parameter: s.parameter, phase: OpenPhase::Finished },
            OpenAction::Finish(Ok(())),
        ),
{
}

/// Once finished, a session asks for nothing more: every event leaves it
/// finished and is answered with an end.
pub proof fn lemma_open_finished_stays(s: OpenSession, e: OpenEvent)
    requires
        s.phase is Finished,
    ensures
        open_next(s, e).0.phase is Finished,
        open_next(s, e).1 is Finish,
{
}

/// The steps of closing the interface.
#[derive(Debug)]
pub enum ClosePhase {
    /// Waiting for the `close` commands to be sent.
    Sending,
    /// Waiting for the commander to be closed.
    ClosingCommander,
    /// Waiting for the FSK keyer to be closed.
    ClosingFsk,
    /// Done.
    Finished,
}

/// A close in progress.
#[derive(Debug)]
pub struct CloseSession {
    pub phase: ClosePhase,
}

/// The outcome of the last step performed.
#[derive(Debug)]
pub enum CloseEvent {
    Succeeded,
    Failed(HamlibPttError),
}

/// The next step to perform.
#[derive(Debug)]
pub enum CloseAction {
    /// Send the `close` commands through the registered commander.
    SendCloseCommands,
    /// Close the registered commander.
    CloseCommander,
    /// Close the registered FSK keyer.
    CloseFsk,
    /// Closing is over, with this outcome.
    Finish(Result<(), HamlibPttError>),
}

/// What a close session does with an event.
pub open spec fn close_next(s: CloseSession, e: CloseEvent) -> (CloseSession, CloseAction) {
    let finished = CloseSession { phase: ClosePhase::Finished };
    match s.phase {
        ClosePhase::Finished => (finished, CloseAction::Finish(Err(HamlibPttError::InvalidState))),
        _ => match e {
            CloseEvent::Failed(err) => (finished, CloseAction::Finish(Err(err))),
            CloseEvent::Succeeded => match s.phase {
                ClosePhase::Sending => (
                    CloseSession { phase: ClosePhase::ClosingCommander },
                    CloseAction::CloseCommander,
                ),
                ClosePhase::ClosingCommander => (
                    CloseSession { phase: ClosePhase::ClosingFsk },
                    CloseAction::CloseFsk,
                ),
                _ => (finished, CloseAction::Finish(Ok(()))),
            },
        },
    }
}

/// Starts closing the interface; the first step sends the `close` commands.
pub fn close() -> (r: (CloseSession, CloseAction))
    ensures
        r.0 == (CloseSession { phase: ClosePhase::Sending }),
        r.1 == CloseAction::SendCloseCommands,
{
    (CloseSession { phase: ClosePhase::Sending }, CloseAction::SendCloseCommands)
}

impl CloseSession {
    /// Takes the outcome of the last step and gives the next step.
    pub fn step(self, event: CloseEvent) -> (r: (CloseSession, CloseAction))
        ensures
            r == close_next(self, event),
    {
        match self.phase {
            ClosePhase::Finished => (
                CloseSession { phase: ClosePhase::Finished },
                CloseAction::Finish(Err(HamlibPttError::InvalidState)),
            ),
            ClosePhase::Sending => match event {
                CloseEvent::Failed(err) => (
                    CloseSession { phase: ClosePhase::Finished },
                    CloseAction::Finish(Err(err)),
                ),
                CloseEvent::Succeeded => (
                    CloseSession { phase: ClosePhase::ClosingCommander },
                    CloseAction::CloseCommander,
                ),
            },
            ClosePhase::ClosingCommander => match event {
                CloseEvent::Failed(err) => (
                    CloseSession { phase: ClosePhase::Finished },
                    CloseAction::Finish(Err(err)),
                ),
                CloseEvent::Succeeded => (
                    CloseSession { phase: ClosePhase::ClosingFsk },
                    CloseAction::CloseFsk,
                ),
            },
            ClosePhase::ClosingFsk => match event {
                CloseEvent::Failed(err) => (
                    CloseSession { phase: ClosePhase::Finished },
                    CloseAction::Finish(Err(err)),
                ),
                CloseEvent::Succeeded => (
                    CloseSession { phase: ClosePhase::Finished },
                    CloseAction::Finish(Ok(())),
                ),
            },
        }
    }
}

/// Closing sends the `close` commands, closes the commander, closes the
/// FSK keyer and succeeds, in this order, when every step succeeds; when
/// sending the `close` commands fails, it ends with that error and closes
/// neither the commander nor the keyer; when closing the commander fails,
/// it ends with that error and leaves the keyer open.
pub proof fn lemma_close_order(err: HamlibPttError)
    ensures
        ({
            let (s1, a1) = close_next(
                CloseSession { phase: ClosePhase::Sending },
                CloseEvent::Succeeded,
            );
            let (s2, a2) = close_next(s1, CloseEvent::Succeeded);
            let (s3, a3) = close_next(s2, CloseEvent::Succeeded);
            &&& a1 == CloseAction::CloseCommander
            &&& a2 == CloseAction::CloseFsk
            &&& a3 == CloseAction::Finish(Ok(()))
            &&& s3.phase is Finished
        }),
        close_next(
            CloseSession { phase: ClosePhase::Sending },
            CloseEvent::Failed(err),
        ) == (CloseSession { phase: ClosePhase::Finished }, CloseAction::Finish(Err(err))),
        close_next(
            CloseSession { phase: ClosePhase::ClosingCommander },
            CloseEvent::Failed(err),
        ) == (CloseSession { phase: ClosePhase::Finished }, CloseAction::Finish(Err(err))),
{
}

/// The keyer is set up from what the host asked for and the `fsk` section:
/// it keys the configured line (DTR for `dtr`, RTS for `rts`), is inverted
/// exactly when the section says `invert = true`, sends the host's number of
/// data bits at the host's rate, and uses the host's stop bit length.
pub proof fn lemma_fsk_parameter_follows_request(p: ExtfskParameter, f: ConfigFsk)
    ensures
        ({
            let k = fsk_parameter_of(p, f);
            &&& (k.target == FskTarget::Dtr) == (f.target == ConfigFskTarget::Dtr)
            &&& (k.target == FskTarget::Rts) == (f.target == ConfigFskTarget::Rts)
            &&& k.invert == (f.invert == Some(true))
            &&& k.data_bits == p.length
            &&& k.baud == p.baud
            &&& (k.stop_bit == FskStopbit::One) == (p.stop_bit == ExtfskStopbit::One)
            &&& (k.stop_bit == FskStopbit::OneHalf) == (p.stop_bit == ExtfskStopbit::OneHalf)
            &&& (k.stop_bit == FskStopbit::Two) == (p.stop_bit == ExtfskStopbit::Two)
        }),
{
}

/// FSK is started exactly when it is enabled and the `fsk` section is
/// present, on the section's device with the parameter built from it;
/// enabled without a section is invalid data; otherwise FSK stays off.
pub proof fn lemma_fsk_plan_follows_config(config: Config, p: ExtfskParameter)
    ensures
        config.enable_fsk == Some(true) && config.fsk is Some ==> fsk_plan(config, p) == Ok::<
            Option<FskPlan>,
            HamlibPttError,
        >(Some(FskPlan { device: config.fsk->0.device, parameter: fsk_parameter_of(p, config.fsk->0) })),
        config.enable_fsk == Some(true) && config.fsk is None ==> fsk_plan(config, p) == Err::<
            Option<FskPlan>,
            HamlibPttError,
        >(HamlibPttError::ConfigDataInvalid),
        config.enable_fsk != Some(true) ==> fsk_plan(config, p) == Ok::<Option<FskPlan>, HamlibPttError>(None),
{
}

/// Each mode is served by its own section: the `rigctl` modes by the
/// `rigctl` section (a process per batch, or one kept), the `rigctld` modes
/// by the `rigctld` section (a connection per batch, or one kept); a mode
/// whose section is missing has no commander.
pub proof fn lemma_commander_plan_follows_mode(config: Config)
    ensures
        config.mode == ConfigControlMode::Rigctl ==> commander_plan(config) == (match config.rigctl {
            Some(r) => Some(CommanderPlan::Rigctl(r)),
            None => None,
        }),
        config.mode == ConfigControlMode::RigctlRetained ==> commander_plan(config) == (
        match config.rigctl {
            Some(r) => Some(CommanderPlan::RetainedRigctl(r)),
            None => None,
        }),
        config.mode == ConfigControlMode::Rigctld ==> commander_plan(config) == (
        match config.rigctld {
            Some(d) => Some(CommanderPlan::Rigctld(d)),
            None => None,
        }),
        config.mode == ConfigControlMode::RigctldRetained ==> commander_plan(config) == (
        match config.rigctld {
            Some(d) => Some(CommanderPlan::RetainedRigctld(d)),
            None => None,
        }),
{
}

} // verus!
