//! Character records: the loaded combat statistics and attack set of one
//! character. A record is valid only with a non-empty attack list, which is
//! enforced at construction time, so damage application never meets an
//! empty list.

use vstd::prelude::*;
use crate::errors::CoreError;

verus! {

/// Base statistics of a character: the display name (the catalog lookup
/// key), hit points (signed; damage may drive them negative) and speed
/// (the ordinal that decides turn order).
#[derive(Debug)]
pub struct CharaBase {
    pub name: String,
    pub hp: i64,
    pub speed: u64,
}

/// One attack a character can use, carrying its damage amount.
#[derive(Debug, Clone, Copy, PartialEq, Eq, Structural)]
pub struct CharaAttack {
    pub damage: u32,
}

/// A full character record: base statistics and a non-empty ordered attack
/// list.
#[derive(Debug)]
pub struct CharaConfig {
    pub charabase: CharaBase,
    pub attack: Vec<CharaAttack>,
}

impl CharaConfig {
    /// A record is well formed when it has at least one attack.
    pub open spec fn wf(self) -> bool {
        self.attack.len() >= 1
    }

    /// Two records carry the same data: equal base statistics and equal
    /// attack sequences.
    pub open spec fn eqv(self, other: Self) -> bool {
        self.charabase == other.charabase && self.attack@ == other.attack@
    }

    /// Builds a record, rejecting an empty attack list so that a
    /// well-formed record can always attack.
    pub fn new(charabase: CharaBase, attack: Vec<CharaAttack>) -> (r: Result<Self, CoreError>)
        ensures
            attack.len() == 0 <==> r == Err::<Self, CoreError>(CoreError::EmptyAttackList),
            attack.len() > 0 <==> (r matches Ok(c) && c.wf() && c.charabase == charabase
                && c.attack == attack),
    {
        if attack.len() == 0 {
            Err(CoreError::EmptyAttackList)
        } else {
            Ok(CharaConfig { charabase, attack })
        }
    }
}

impl Clone for CharaBase {
    /// A clone is equal to the original, field for field.
    fn clone(&self) -> (res: Self)
        ensures
            res == *self,
    {
        CharaBase { name: self.name.clone(), hp: self.hp, speed: self.speed }
    }
}

impl Clone for CharaConfig {
    /// A clone carries the same data as the original.
    fn clone(&self) -> (res: Self)
        ensures
            res.eqv(*self),
    {
        let attack = self.attack.clone();
        assert(attack@ =~= self.attack@);
        CharaConfig { charabase: self.charabase.clone(), attack }
    }
}

} // verus!
