//! The configuration read from `hamlibptt.toml`.
use vstd::prelude::*;

verus! {

/// The name of the configuration file, which stands beside the DLL.
pub const CONFIG_FILENAME: &'static str = "hamlibptt.toml";

/// How the rig is reached.
#[derive(Debug, Clone, Copy, PartialEq, Eq, Structural)]
pub enum ConfigControlMode {
    /// A new `rigctl` process for each batch of commands.
    Rigctl,
    /// One `rigctl` process kept open, fed commands on its input.
    RigctlRetained,
    /// A new connection to `rigctld` for each batch of commands.
    Rigctld,
    /// One connection to `rigctld` kept open.
    RigctldRetained,
}

/// Where `rigctl` is and which rig it drives.
#[derive(Debug)]
pub struct ConfigRigctl {
    pub rigctl_path: String,
    pub model_id: usize,
    pub device: String,
}

/// Where `rigctld` listens, as the text of a socket address.
#[derive(Debug)]
pub struct ConfigRigctld {
    pub address: String,
}

/// The modem line that keys FSK.
#[derive(Debug, Clone, Copy, PartialEq, Eq, Structural)]
pub enum ConfigFskTarget {
    Dtr,
    Rts,
}

/// The serial port used for FSK keying.
#[derive(Debug)]
pub struct ConfigFsk {
    pub device: String,
    pub target: ConfigFskTarget,
    pub invert: Option<bool>,
}

/// The Hamlib commands sent on each EXTFSK event.
#[derive(Debug)]
pub struct ConfigCommands {
    pub open: Option<Vec<String>>,
    pub close: Option<Vec<String>>,
    pub tx: Option<Vec<String>>,
    pub rx: Option<Vec<String>>,
}

/// The whole configuration.
#[derive(Debug)]
pub struct Config {
    pub mode: ConfigControlMode,
    pub rigctl: Option<ConfigRigctl>,
    pub rigctld: Option<ConfigRigctld>,
    pub enable_fsk: Option<bool>,
    pub fsk: Option<ConfigFsk>,
    pub commands: ConfigCommands,
}

/// The EXTFSK events that have a list of Hamlib commands.
#[derive(Debug, Clone, Copy, PartialEq, Eq, Structural)]
pub enum CommandKind {
    Open,
    Close,
    Tx,
    Rx,
}

/// A copy of a list of strings.
pub fn clone_strings(v: &Vec<String>) -> (r: Vec<String>)
    ensures
        r@ == v@,
{
    let mut r: Vec<String> = Vec::new();
    let n = v.len();
    let mut i: usize = 0;
    while i < n
        invariant
            n == v.len(),
            i <= n,
            r@ == v@.take(i as int),
        decreases n - i,
    {
        r.push(v[i].clone());
        assert(r@ =~= v@.take(i + 1));
        i = i + 1;
    }
    assert(v@.take(n as int) =~= v@);
    r
}

/// The contents of an optional list of strings.
pub open spec fn optional_view(v: Option<Vec<String>>) -> Option<Seq<String>> {
    match v {
        Some(list) => Some(list@),
        None => None,
    }
}

fn clone_optional_strings(v: &Option<Vec<String>>) -> (r: Option<Vec<String>>)
    ensures
        optional_view(r) == optional_view(*v),
{
    match v {
        Some(list) => Some(clone_strings(list)),
        None => None,
    }
}

impl Clone for ConfigRigctl {
    fn clone(&self) -> (r: Self)
        ensures
            r == *self,
    {
        ConfigRigctl {
            rigctl_path: self.rigctl_path.clone(),
            model_id: self.model_id,
            device: self.device.clone(),
        }
    }
}

impl Clone for ConfigRigctld {
    fn clone(&self) -> (r: Self)
        ensures
            r == *self,
    {
        ConfigRigctld { address: self.address.clone() }
    }
}

impl Clone for ConfigFsk {
    fn clone(&self) -> (r: Self)
        ensures
            r == *self,
    {
        ConfigFsk { device: self.device.clone(), target: self.target, invert: self.invert }
    }
}

impl Clone for ConfigCommands {
    fn clone(&self) -> (r: Self)
        ensures
            r.same_lists(*self),
    {
        ConfigCommands {
            open: clone_optional_strings(&self.open),
            close: clone_optional_strings(&self.close),
            tx: clone_optional_strings(&self.tx),
            rx: clone_optional_strings(&self.rx),
        }
    }
}

impl ConfigCommands {
    /// Both hold the same lists.
    pub open spec fn same_lists(self, other: ConfigCommands) -> bool {
        &&& optional_view(self.open) == optional_view(other.open)
        &&& optional_view(self.close) == optional_view(other.close)
        &&& optional_view(self.tx) == optional_view(other.tx)
        &&& optional_view(self.rx) == optional_view(other.rx)
    }

    /// The list configured for `kind`, if any.
    pub open spec fn list_for(self, kind: CommandKind) -> Option<Vec<String>> {
        match kind {
            CommandKind::Open => self.open,
            CommandKind::Close => self.close,
            CommandKind::Tx => self.tx,
            CommandKind::Rx => self.rx,
        }
    }

    /// The list configured for `kind`, if any.
    pub fn select(&self, kind: CommandKind) -> (r: Option<&Vec<String>>)
        ensures
            match r {
                Some(v) => self.list_for(kind) == Some(*v),
                None => self.list_for(kind) is None,
            },
    {
        let list = match kind {
            CommandKind::Open => &self.open,
            CommandKind::Close => &self.close,
            CommandKind::Tx => &self.tx,
            CommandKind::Rx => &self.rx,
        };
        match list {
            Some(v) => Some(v),
            None => None,
        }
    }
}

} // verus!
