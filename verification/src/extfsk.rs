//! The EXTFSK interface: what the library holds between calls and what each
//! call decides.
pub mod fsk;
pub mod parameter;
pub mod ptt;
pub mod session;

use vstd::prelude::*;

use crate::common::config::{CommandKind, ConfigCommands};
use crate::common::error::HamlibPttError;
use crate::hamlib::HamlibError;

verus! {

/// What the EXTFSK interface holds between calls: the Hamlib commander, the
/// configured commands and the FSK keyer, each registered at most once.
#[derive(Debug)]
pub struct Extfsk<C, F> {
    pub commander: Option<C>,
    pub commands: Option<ConfigCommands>,
    pub fsk: Option<F>,
}

impl<C, F> Extfsk<C, F> {
    /// Nothing registered yet.
    pub fn new() -> (s: Self)
        ensures
            s.commander is None,
            s.commands is None,
            s.fsk is None,
    {
        Extfsk { commander: None, commands: None, fsk: None }
    }
}

/// The state after registering `commander` and `commands`: each is kept
/// only where nothing was registered before.
pub open spec fn with_ptt<C, F>(s: Extfsk<C, F>, commander: C, commands: ConfigCommands) -> Extfsk<
    C,
    F,
> {
    Extfsk {
        commander: if s.commander is None {
            Some(commander)
        } else {
            s.commander
        },
        commands: if s.commands is None {
            Some(commands)
        } else {
            s.commands
        },
        fsk: s.fsk,
    }
}

/// The state after registering the FSK keyer `fsk`, kept only where no
/// keyer was registered before.
pub open spec fn with_fsk<C, F>(s: Extfsk<C, F>, fsk: F) -> Extfsk<C, F> {
    Extfsk {
        commander: s.commander,
        commands: s.commands,
        fsk: if s.fsk is None {
            Some(fsk)
        } else {
            s.fsk
        },
    }
}

/// Registers the commander and the commands; a later registration leaves
/// an earlier one in place.
pub fn initialize_ptt<C, F>(state: &mut Extfsk<C, F>, commander: C, commands: ConfigCommands)
    ensures
        *final(state) == with_ptt(*old(state), commander, commands),
{
    if state.commander.is_none() {
        state.commander = Some(commander);
    }
    if state.commands.is_none() {
        state.commands = Some(commands);
    }
}

/// Registers the FSK keyer, unless one is registered already.
pub fn initialize_fsk<C, F>(state: &mut Extfsk<C, F>, fsk: F)
    ensures
        *final(state) == with_fsk(*old(state), fsk),
{
    if state.fsk.is_none() {
        state.fsk = Some(fsk);
    }
}

/// The commands to hand to the commander for `kind`: the configured list,
/// when a commander and commands are registered and the list is not empty.
pub open spec fn pending_commands<C, F>(state: Extfsk<C, F>, kind: CommandKind) -> Option<
    Vec<String>,
> {
    if state.commander is None {
        None
    } else {
        match state.commands {
            None => None,
            Some(c) => match c.list_for(kind) {
                Some(v) => if v.len() > 0 {
                    Some(v)
                } else {
                    None
                },
                None => None,
            },
        }
    }
}

/// Decides what `kind` sends to Hamlib: the commands to hand to the
/// registered commander's `send`, or nothing, in which case the call
/// succeeds without any I/O.
pub fn send_hamlib_command<C, F>(state: &Extfsk<C, F>, kind: CommandKind) -> (r: Option<
    &Vec<String>,
>)
    ensures
        match r {
            Some(v) => pending_commands(*state, kind) == Some(*v),
            None => pending_commands(*state, kind) is None,
        },
{
    if state.commander.is_none() {
        return None;
    }
    match &state.commands {
        None => None,
        Some(c) => match c.select(kind) {
            Some(v) => if v.len() > 0 {
                Some(v)
            } else {
                None
            },
            None => None,
        },
    }
}

/// Whether closing the commander has a commander to close (its `close` is
/// then called); without one the call succeeds at once.
pub fn close_commander<C, F>(state: &Extfsk<C, F>) -> (r: bool)
    ensures
        r == state.commander is Some,
{
    state.commander.is_some()
}

/// The outcome of sending to or closing the commander, given the
/// commander's answer: success, or its error as a Hamlib error.
pub fn commander_outcome(answer: Result<(), HamlibError>) -> (r: Result<(), HamlibPttError>)
    ensures
        match answer {
            Ok(()) => r is Ok,
            Err(e) => r == Err::<(), HamlibPttError>(HamlibPttError::Hamlib(e)),
        },
{
    match answer {
        Ok(()) => Ok(()),
        Err(e) => Err(HamlibPttError::Hamlib(e)),
    }
}

/// Whether closing FSK has a keyer to close.
pub fn close_fsk<C, F>(state: &Extfsk<C, F>) -> (r: bool)
    ensures
        r == state.fsk is Some,
{
    state.fsk.is_some()
}

/// Registration happens once: registering again changes nothing that the
/// first registration set, whatever the state was before it.
pub proof fn lemma_registration_is_once<C, F>(
    s: Extfsk<C, F>,
    c1: C,
    k1: ConfigCommands,
    c2: C,
    k2: ConfigCommands,
    f1: F,
    f2: F,
)
    ensures
        with_ptt(with_ptt(s, c1, k1), c2, k2) == with_ptt(s, c1, k1),
        with_fsk(with_fsk(s, f1), f2) == with_fsk(s, f1),
        with_ptt(s, c1, k1).commander is Some && with_ptt(s, c1, k1).commands is Some,
        with_fsk(s, f1).fsk is Some,
{
}

/// With a commander and commands `c` registered, each EXTFSK event hands the
/// commander its own list from `c`: `open` for Open, `close` for Close, `tx`
/// for Tx, `rx` for Rx; a missing or empty list sends nothing. Without a
/// commander or without commands nothing is sent.
pub proof fn lemma_pending_commands_by_kind<C, F>(s: Extfsk<C, F>)
    ensures
        s.commander is None || s.commands is None ==> forall|k: CommandKind|
            #[trigger] pending_commands(s, k) is None,
        s.commander is Some && s.commands is Some ==> {
            let c = s.commands->0;
            &&& pending_commands(s, CommandKind::Open) == (if c.open is Some && c.open->0.len() > 0 {
                c.open
            } else {
                None
            })
            &&& pending_commands(s, CommandKind::Close) == (if c.close is Some && c.close->0.len()
                > 0 {
                c.close
            } else {
                None
            })
            &&& pending_commands(s, CommandKind::Tx) == (if c.tx is Some && c.tx->0.len() > 0 {
                c.tx
            } else {
                None
            })
            &&& pending_commands(s, CommandKind::Rx) == (if c.rx is Some && c.rx->0.len() > 0 {
                c.rx
            } else {
                None
            })
        },
{
}

/// Registering on an empty registry keeps what was given, whole: the
/// commander `c` and the commands `k`; so the close commands that closing
/// later sends are exactly `k`'s close list (when it is not empty), and
/// likewise for every other event.
pub proof fn lemma_registration_keeps_what_is_given<C, F>(
    s: Extfsk<C, F>,
    c: C,
    k: ConfigCommands,
)
    ensures
        s.commander is None ==> with_ptt(s, c, k).commander == Some(c),
        s.commands is None ==> with_ptt(s, c, k).commands == Some(k),
        s.commander is None && s.commands is None ==> {
            &&& pending_commands(with_ptt(s, c, k), CommandKind::Close) == (if k.close is Some
                && k.close->0.len() > 0 {
                k.close
            } else {
                None
            })
            &&& pending_commands(with_ptt(s, c, k), CommandKind::Open) == (if k.open is Some
                && k.open->0.len() > 0 {
                k.open
            } else {
                None
            })
            &&& pending_commands(with_ptt(s, c, k), CommandKind::Tx) == (if k.tx is Some
                && k.tx->0.len() > 0 {
                k.tx
            } else {
                None
            })
            &&& pending_commands(with_ptt(s, c, k), CommandKind::Rx) == (if k.rx is Some
                && k.rx->0.len() > 0 {
                k.rx
            } else {
                None
            })
        },
{
    lemma_pending_commands_by_kind(with_ptt(s, c, k));
}

} // verus!
