//! State and piece kinds of the quantum-flavoured game variant: pieces may
//! stand in superposition or entangled pairs, and the game itself moves
//! through observation-driven phases.

use vstd::prelude::*;

verus! {

/// The phases of the quantum game variant.
#[derive(Debug, Clone, Copy, PartialEq, Eq, Structural)]
pub enum QuantumGameState {
    QuantumSuperposition,
    QuantumCollapse,
    EntanglementMode,
    TunnelingMode,
    ObserverMode,
    QuantumGameOver,
}

/// The piece kinds of the quantum game variant: the seven classical
/// shapes plus the two purely quantum ones.
#[derive(Debug, Clone, Copy, PartialEq, Eq, Structural)]
pub enum QuantumTetrominoType {
    QuantumI,
    QuantumO,
    QuantumT,
    QuantumS,
    QuantumZ,
    QuantumJ,
    QuantumL,
    EntangledPair,
    SuperpositionBlock,
}

} // verus!
