//! Control through the `rigctl` program.
use vstd::prelude::*;
use vstd::utf8::{valid_utf8, decode_utf8};

use crate::common::config::ConfigRigctl;
use crate::hamlib::HamlibError;
use crate::text::{decimal, decimal_text, lemma_decimal_reads_back, numeral_value, texts};

verus! {

/// The text that `String::from_utf8_lossy` makes of `bytes`: their UTF-8
/// decoding, with each invalid sequence replaced by U+FFFD.
pub uninterp spec fn utf8_lossy(bytes: Seq<u8>) -> Seq<char>;

/// Calls `String::from_utf8_lossy`. Claimed: the result is the name
/// `utf8_lossy` of the bytes, and for valid UTF-8 it is their decoding.
/// How invalid sequences are replaced is not stated.
#[verifier::external_body]
pub(crate) fn decode_lossy(bytes: &Vec<u8>) -> (s: String)
    ensures
        s@ == utf8_lossy(bytes@),
        valid_utf8(bytes@) ==> s@ == decode_utf8(bytes@),
{
    String::from_utf8_lossy(bytes.as_slice()).into_owned()
}

/// The arguments of a `rigctl` run: the rig model, the device, then the
/// commands.
pub open spec fn rigctl_arguments(config: ConfigRigctl, commands: Seq<Seq<char>>) -> Seq<
    Seq<char>,
> {
    seq!["-m"@, decimal(config.model_id as nat), "-r"@, config.device@] + commands
}

/// Builds the arguments of a `rigctl` run that sends `commands`.
pub fn rigctl_argument_list(config: &ConfigRigctl, commands: &Vec<String>) -> (args: Vec<String>)
    ensures
        texts(args@) == rigctl_arguments(*config, texts(commands@)),
{
    let mut args: Vec<String> = Vec::new();
    args.push(String::from_str("-m"));
    args.push(decimal_text(config.model_id));
    args.push(String::from_str("-r"));
    args.push(config.device.clone());
    let ghost head = texts(args@);
    let n = commands.len();
    let mut i: usize = 0;
    while i < n
        invariant
            n == commands.len(),
            i <= n,
            head == seq!["-m"@, decimal(config.model_id as nat), "-r"@, config.device@],
            texts(args@) == head + texts(commands@).take(i as int),
        decreases n - i,
    {
        let ghost before = args@;
        let c = commands[i].clone();
        args.push(c);
        assert(texts(args@) =~= texts(before).push(commands@[i as int]@));
        assert(texts(commands@).take(i + 1) =~= texts(commands@).take(i as int).push(
            commands@[i as int]@,
        ));
        assert(texts(args@) =~= head + texts(commands@).take(i + 1));
        i = i + 1;
    }
    assert(texts(commands@).take(n as int) =~= texts(commands@));
    args
}

/// Sends commands by running `rigctl` once per batch.
#[derive(Debug)]
pub struct RigctlCommander {
    pub config: ConfigRigctl,
}

impl RigctlCommander {
    /// A commander for the `rigctl` that `config` describes.
    pub fn new(config: &ConfigRigctl) -> (c: RigctlCommander)
        ensures
            c.config == *config,
    {
        RigctlCommander { config: config.clone() }
    }

    /// The arguments of the run that sends `commands`.
    pub fn arguments(&self, commands: &Vec<String>) -> (args: Vec<String>)
        ensures
            texts(args@) == rigctl_arguments(self.config, texts(commands@)),
    {
        rigctl_argument_list(&self.config, commands)
    }
}

/// The outcome of a finished `rigctl` run, given its error output as text:
/// success, or a control error that carries the text.
pub fn run_result(success: bool, stderr_text: String) -> (r: Result<(), HamlibError>)
    ensures
        success ==> r is Ok,
        !success ==> r == Err::<(), HamlibError>(HamlibError::Control(stderr_text)),
{
    if success {
        Ok(())
    } else {
        Err(HamlibError::Control(stderr_text))
    }
}

/// The outcome of a finished `rigctl` run, given its error output as bytes,
/// which are read as UTF-8 with invalid sequences replaced.
pub fn run_outcome(success: bool, stderr: &Vec<u8>) -> (r: Result<(), HamlibError>)
    ensures
        success ==> r is Ok,
        !success ==> (r matches Err(HamlibError::Control(m)) && m@ == utf8_lossy(stderr@) && (
        valid_utf8(stderr@) ==> m@ == decode_utf8(stderr@))),
{
    let text = decode_lossy(stderr);
    run_result(success, text)
}

/// The line that makes a retained `rigctl` process quit.
pub fn quit_line() -> (line: String)
    ensures
        line@ == seq!['q', '\n'],
{
    proof {
        reveal_strlit("q\n");
    }
    String::from_str("q\n")
}

/// A `rigctl` run names the configured rig: its arguments are `-m`, a
/// numeral that reads back as the model id, `-r`, the device, and then
/// exactly the commands, in order.
pub proof fn lemma_rigctl_arguments_name_the_rig(config: ConfigRigctl, commands: Seq<Seq<char>>)
    ensures
        ({
            let args = rigctl_arguments(config, commands);
            &&& args.len() == commands.len() + 4
            &&& args[0] == seq!['-', 'm']
            &&& numeral_value(args[1]) == config.model_id
            &&& forall|i: int| 0 <= i < args[1].len() ==> '0' <= #[trigger] args[1][i] && args[1][i] <= '9'
            &&& args[2] == seq!['-', 'r']
            &&& args[3] == config.device@
            &&& forall|i: int| 0 <= i < commands.len() ==> #[trigger] args[i + 4] == commands[i]
        }),
{
    reveal_strlit("-m");
    reveal_strlit("-r");
    lemma_decimal_reads_back(config.model_id as nat);
    let args = rigctl_arguments(config, commands);
    assert("-m"@ =~= seq!['-', 'm']);
    assert("-r"@ =~= seq!['-', 'r']);
    assert forall|i: int| 0 <= i < commands.len() implies #[trigger] args[i + 4] == commands[i] by {
    }
}

} // verus!
