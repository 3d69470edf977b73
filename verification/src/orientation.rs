//! Discrete behavioural states of characters and zombies.

use vstd::prelude::*;

verus! {

/// The behavioural state of a character or zombie; it selects which bounded
/// animation counter advances when an animation cooldown fires.
/// `NormalDeath` and `CriticalDeath` are terminal for zombies.
#[derive(Clone, Copy, Debug, PartialEq, Eq, Structural)]
pub enum Stance {
    Still,
    Walking,
    Running,
    Firing,
    NormalDeath,
    CriticalDeath,
}

} // verus!
