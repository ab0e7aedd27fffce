//! The FSK calls of the EXTFSK interface.
use vstd::prelude::*;

use crate::common::error::HamlibPttError;
use crate::extfsk::Extfsk;

verus! {

/// Whether the keyer is sending: what the registered keyer reports, or
/// `false` when none is registered. The call never fails.
pub fn is_busy(keyer_busy: Option<bool>) -> (r: Result<bool, HamlibPttError>)
    ensures
        r == Ok::<bool, HamlibPttError>(
            match keyer_busy {
                Some(b) => b,
                None => false,
            },
        ),
{
    Ok(keyer_busy.unwrap_or(false))
}

/// The character to hand to the registered keyer, if there is one. The
/// call succeeds whether or not the keyer takes the character.
pub fn put_char<C, F>(state: &Extfsk<C, F>, c: u8) -> (r: Option<u8>)
    ensures
        r == (if state.fsk is Some {
            Some(c)
        } else {
            None
        }),
{
    if state.fsk.is_some() {
        Some(c)
    } else {
        None
    }
}

} // verus!
