//! Role taxonomy: a closed, ordered set of ranks where a smaller numeric
//! rank means more privilege (Admin = 1 is the highest).

use vstd::prelude::*;

verus! {

#[derive(Clone, Copy, Debug, PartialEq, Eq, Structural)]
pub enum UserRole {
    Admin,
    Mannager,
    Operator,
    Viewer,
}

/// A rank code names a role of the closed set only when it lies in 1..=4;
/// authorization rejects every other code.
pub open spec fn valid_rank(rank: u8) -> bool {
    1 <= rank <= 4
}

/// The authorization comparison: `rank` passes a gate of minimum tier
/// `tier` when it is a known rank at least as privileged, i.e. numerically
/// lower or equal. An unknown rank never passes, whatever the tier.
pub open spec fn rank_authorized(rank: u8, tier: u8) -> bool {
    valid_rank(rank) && rank <= tier
}

/// Authorization is monotonic in privilege: if `rank` passes a tier-`tier`
/// check, then every known rank that is more or equally privileged (a
/// numerically lower or equal rank) passes the same check.
pub proof fn lemma_authorization_monotonic(rank: u8, higher_rank: u8, tier: u8)
    requires
        rank_authorized(rank, tier),
        valid_rank(higher_rank),
        higher_rank <= rank,
    ensures
        rank_authorized(higher_rank, tier),
{
}

impl UserRole {
    /// The numeric rank of each role.
    pub open spec fn spec_code(user_role: UserRole) -> u8 {
        match user_role {
            UserRole::Admin => 1,
            UserRole::Mannager => 2,
            UserRole::Operator => 3,
            UserRole::Viewer => 4,
        }
    }

    pub fn to_code(user_role: UserRole) -> (code: u8)
        ensures
            code == UserRole::spec_code(user_role),
            valid_rank(code),
    {
        match user_role {
            UserRole::Admin => 1,
            UserRole::Mannager => 2,
            UserRole::Operator => 3,
            UserRole::Viewer => 4,
        }
    }

    /// Display label of a rank code. Any code outside the closed set maps
    /// to the least-privilege label: a fail-safe for display only, never
    /// consulted by the authorization comparison (`rank_authorized`).
    pub open spec fn spec_label(code: u8) -> Seq<char> {
        if code == 1 {
            "Administrador"@
        } else if code == 2 {
            "Gerente"@
        } else if code == 3 {
            "Operador"@
        } else {
            "Visualizador"@
        }
    }

    pub fn code_to_string(user_role: u8) -> (label: String)
        ensures
            label@ == UserRole::spec_label(user_role),
    {
        match user_role {
            1 => "Administrador".to_owned(),
            2 => "Gerente".to_owned(),
            3 => "Operador".to_owned(),
            _ => "Visualizador".to_owned(),
        }
    }
}

} // verus!
