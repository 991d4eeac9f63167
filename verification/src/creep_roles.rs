//! Agent roles and the record under which a role is persisted.

use vstd::prelude::*;

verus! {

/// The category an agent is produced with. It decides which tasks the agent
/// prefers and how many agents of its kind the colony wants to keep alive.
#[derive(Clone, Copy, Debug, PartialEq, Eq, Structural)]
pub enum Role {
    Unknown,
    Harvester,
    Upgrader,
    Builder,
    /// Reserved: no agent is produced with it, and it has no rule for
    /// spending energy. Such an agent gathers while it is empty and stays
    /// idle once it carries.
    Repairer,
}

impl Role {
    /// The integer under which the role is persisted.
    pub open spec fn code(self) -> int {
        match self {
            Role::Unknown => 0,
            Role::Harvester => 1,
            Role::Upgrader => 2,
            Role::Builder => 3,
            Role::Repairer => 4,
        }
    }

    /// The role that a persisted integer names, if it names one.
    pub open spec fn from_code(n: int) -> Option<Role> {
        if n == 0 {
            Some(Role::Unknown)
        } else if n == 1 {
            Some(Role::Harvester)
        } else if n == 2 {
            Some(Role::Upgrader)
        } else if n == 3 {
            Some(Role::Builder)
        } else if n == 4 {
            Some(Role::Repairer)
        } else {
            None
        }
    }

    /// Reading a persisted integer never fails: what names no role reads as
    /// `Unknown`.
    pub open spec fn decode(n: int) -> Role {
        match Role::from_code(n) {
            Some(role) => role,
            None => Role::Unknown,
        }
    }

    /// The order in which the roles are considered when the population is
    /// balanced: the order of declaration.
    pub open spec fn order() -> Seq<Role> {
        seq![Role::Unknown, Role::Harvester, Role::Upgrader, Role::Builder, Role::Repairer]
    }

    /// How many live agents of the role the colony wants.
    pub open spec fn quota(self) -> int {
        match self {
            Role::Harvester => 2,
            Role::Upgrader => 3,
            Role::Builder => 3,
            Role::Unknown => 0,
            Role::Repairer => 0,
        }
    }

    /// Whether the role is a recognised one. An agent whose role reads as
    /// `Unknown` cannot be given work and is retired.
    pub open spec fn recognised(self) -> bool {
        self != Role::Unknown
    }

    /// Whether the role has a rule for spending carried energy. An agent of
    /// a recognised role without one only gathers.
    pub open spec fn spends(self) -> bool {
        self == Role::Harvester || self == Role::Upgrader || self == Role::Builder
    }

    pub fn to_int(self) -> (n: i32)
        ensures
            n == self.code(),
    {
        match self {
            Role::Unknown => 0,
            Role::Harvester => 1,
            Role::Upgrader => 2,
            Role::Builder => 3,
            Role::Repairer => 4,
        }
    }

    pub fn from_int(n: i32) -> (role: Option<Role>)
        ensures
            role == Role::from_code(n as int),
    {
        if n == 0 {
            Some(Role::Unknown)
        } else if n == 1 {
            Some(Role::Harvester)
        } else if n == 2 {
            Some(Role::Upgrader)
        } else if n == 3 {
            Some(Role::Builder)
        } else if n == 4 {
            Some(Role::Repairer)
        } else {
            None
        }
    }

    /// All roles, in the order of `Role::order`.
    pub fn all() -> (roles: Vec<Role>)
        ensures
            roles@ == Role::order(),
    {
        let mut roles: Vec<Role> = Vec::new();
        roles.push(Role::Unknown);
        roles.push(Role::Harvester);
        roles.push(Role::Upgrader);
        roles.push(Role::Builder);
        roles.push(Role::Repairer);
        assert(roles@ =~= Role::order());
        roles
    }

    pub fn is_recognised(self) -> (yes: bool)
        ensures
            yes == self.recognised(),
    {
        match self {
            Role::Unknown => false,
            _ => true,
        }
    }

    pub fn is_spender(self) -> (yes: bool)
        ensures
            yes == self.spends(),
    {
        match self {
            Role::Harvester | Role::Upgrader | Role::Builder => true,
            Role::Unknown | Role::Repairer => false,
        }
    }
}

/// What is persisted for one agent: the integer of its role.
#[derive(Clone, Copy, Debug, PartialEq, Eq, Structural)]
pub struct CreepMemory {
    pub role: i32,
}

/// The integer that an agent's persisted record holds. `None` stands for a
/// record that could not be read, which counts as holding 0.
pub open spec fn stored_code(memory: Option<CreepMemory>) -> int {
    match memory {
        Some(record) => record.role as int,
        None => 0,
    }
}

/// The role that an agent's persisted record gives it.
pub open spec fn stored_role(memory: Option<CreepMemory>) -> Role {
    Role::decode(stored_code(memory))
}

/// Reads the integer of an agent's persisted record, 0 if the record could
/// not be read (`None`).
pub fn role_code(memory: &Option<CreepMemory>) -> (code: i32)
    ensures
        code == stored_code(*memory),
{
    match memory {
        Some(record) => record.role,
        None => 0,
    }
}

/// Reads an agent's role from its persisted record. A record that could not
/// be read (`None`), or that holds an integer that names no role, gives
/// `Unknown`; the caller never fails.
pub fn get_creep_role(memory: &Option<CreepMemory>) -> (role: Role)
    ensures
        role == stored_role(*memory),
{
    match Role::from_int(role_code(memory)) {
        Some(role) => role,
        None => Role::Unknown,
    }
}

/// Reads the roles of many agents, each from its persisted record.
pub fn roles_of(records: &Vec<Option<CreepMemory>>) -> (roles: Vec<Role>)
    ensures
        roles@.len() == records@.len(),
        forall|i: int| 0 <= i < records@.len() ==> roles@[i] == stored_role(#[trigger] records@[i]),
{
    let mut roles: Vec<Role> = Vec::new();
    let mut i: usize = 0;
    while i < records.len()
        invariant
            i <= records.len(),
            roles@.len() == i,
            forall|j: int| 0 <= j < i ==> roles@[j] == stored_role(#[trigger] records@[j]),
        decreases records.len() - i,
    {
        roles.push(get_creep_role(&records[i]));
        i = i + 1;
    }
    roles
}

/// Gives an existing agent's record a new role.
pub fn set_creep_role(memory: &mut CreepMemory, new_role: Role)
    ensures
        *final(memory) == (CreepMemory { role: new_role.code() as i32 }),
        stored_role(Some(*final(memory))) == new_role,
{
    memory.role = new_role.to_int();
}

/// The record to attach to an agent that is about to be produced with the
/// given role.
pub fn set_creep_role_2(new_role: Role) -> (memory: CreepMemory)
    ensures
        memory == (CreepMemory { role: new_role.code() as i32 }),
        stored_role(Some(memory)) == new_role,
{
    CreepMemory { role: new_role.to_int() }
}

/// How many live agents of the role the colony wants.
pub fn get_expected_count(role: Role) -> (count: i32)
    ensures
        count == role.quota(),
{
    match role {
        Role::Unknown => 0,
        Role::Harvester => 2,
        Role::Upgrader => 3,
        Role::Builder => 3,
        Role::Repairer => 0,
    }
}

/// Every role is read back from the integer it is persisted under, and no
/// two roles share an integer.
pub proof fn lemma_code_round_trip(role: Role, other: Role)
    ensures
        Role::from_code(role.code()) == Some(role),
        Role::decode(role.code()) == role,
        role.code() == other.code() ==> role == other,
{
}

/// An integer that names no role reads as `Unknown`, and so does a record
/// that could not be read.
pub proof fn lemma_corrupt_record_is_unknown(n: i32)
    requires
        n < 0 || n > 4,
    ensures
        stored_role(Some(CreepMemory { role: n })) == Role::Unknown,
        stored_role(None) == Role::Unknown,
{
}

/// Exactly the roles that have a rule for spending energy have a quota. So
/// the colony never asks for an agent that it would retire, nor for one
/// that could only gather.
pub proof fn lemma_quota_only_for_spenders(role: Role)
    ensures
        0 <= role.quota() <= 3,
        role.quota() > 0 <==> role.spends(),
        role.spends() ==> role.recognised(),
{
}

} // verus!
