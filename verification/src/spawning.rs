//! Keeping the population at its quotas.
//!
//! Once per cycle and production facility the live agents are counted by
//! role. The first role, in the fixed order of the roles, that has fewer
//! agents than its quota gets one new agent, if the energy at hand pays for
//! the standard body. At most one agent is asked for: the population comes
//! up to its quotas over the cycles.

use vstd::prelude::*;
use crate::creep_roles::{get_expected_count, set_creep_role_2, CreepMemory, Role};

verus! {

/// A part of an agent's body.
#[derive(Clone, Copy, Debug, PartialEq, Eq, Structural)]
pub enum BodyPart {
    Move,
    Work,
    Carry,
    Attack,
    RangedAttack,
    Tough,
    Heal,
    Claim,
}

impl BodyPart {
    /// The energy that the part costs.
    pub open spec fn cost(self) -> nat {
        match self {
            BodyPart::Move => 50,
            BodyPart::Work => 100,
            BodyPart::Carry => 50,
            BodyPart::Attack => 80,
            BodyPart::RangedAttack => 150,
            BodyPart::Tough => 10,
            BodyPart::Heal => 250,
            BodyPart::Claim => 600,
        }
    }
}

/// Trusted: `screeps::Part::cost`, the game's table of body part costs. The
/// part is handed over as the game's own `Part`; the contract repeats the
/// table as that function holds it.
#[verifier::external_body]
fn part_cost(part: BodyPart) -> (cost: u32)
    ensures
        cost == part.cost(),
{
    let outside = match part {
        BodyPart::Move => screeps::Part::Move,
        BodyPart::Work => screeps::Part::Work,
        BodyPart::Carry => screeps::Part::Carry,
        BodyPart::Attack => screeps::Part::Attack,
        BodyPart::RangedAttack => screeps::Part::RangedAttack,
        BodyPart::Tough => screeps::Part::Tough,
        BodyPart::Heal => screeps::Part::Heal,
        BodyPart::Claim => screeps::Part::Claim,
    };
    outside.cost()
}

/// The energy that a body costs: the sum over its parts.
pub open spec fn total_cost(body: Seq<BodyPart>) -> nat
    decreases body.len(),
{
    if body.len() == 0 {
        0
    } else {
        total_cost(body.drop_last()) + body.last().cost()
    }
}

/// The body that every agent is produced with.
pub open spec fn standard_body_parts() -> Seq<BodyPart> {
    seq![BodyPart::Move, BodyPart::Move, BodyPart::Carry, BodyPart::Work]
}

/// What the standard body costs.
pub const STANDARD_COST: u32 = 250;

/// The standard body costs 250.
pub proof fn lemma_standard_cost()
    ensures
        total_cost(standard_body_parts()) == STANDARD_COST,
{
    let body = standard_body_parts();
    let three = body.drop_last();
    let two = three.drop_last();
    let one = two.drop_last();
    assert(total_cost(one.drop_last()) == 0);
    assert(one.last() == BodyPart::Move);
    assert(total_cost(one) == 50);
    assert(two.last() == BodyPart::Move);
    assert(total_cost(two) == 100);
    assert(three.last() == BodyPart::Carry);
    assert(total_cost(three) == 150);
    assert(body.last() == BodyPart::Work);
}

/// A prefix of a body costs no more than the body.
pub proof fn lemma_prefix_costs_less(body: Seq<BodyPart>, n: int)
    requires
        0 <= n <= body.len(),
    ensures
        total_cost(body.take(n)) <= total_cost(body),
    decreases body.len(),
{
    if n == body.len() {
        assert(body.take(n) =~= body);
    } else {
        assert(body.drop_last().take(n) =~= body.take(n));
        lemma_prefix_costs_less(body.drop_last(), n);
    }
}

/// Adds up the cost of a body, or returns `None` if the sum does not fit
/// the integer type.
pub fn body_cost(body: &Vec<BodyPart>) -> (cost: Option<u32>)
    ensures
        cost == (if total_cost(body@) <= u32::MAX {
            Some(total_cost(body@) as u32)
        } else {
            None
        }),
{
    let mut sum: u32 = 0;
    let mut i: usize = 0;
    assert(body@.take(0).len() == 0);
    while i < body.len()
        invariant
            i <= body.len(),
            sum == total_cost(body@.take(i as int)),
        decreases body.len() - i,
    {
        let part = part_cost(body[i]);
        proof {
            assert(body@.take(i + 1).drop_last() =~= body@.take(i as int));
            assert(body@.take(i + 1).last() == body@[i as int]);
            lemma_prefix_costs_less(body@, i + 1);
        }
        match sum.checked_add(part) {
            Some(more) => {
                sum = more;
            },
            None => {
                return None;
            },
        }
        i = i + 1;
    }
    assert(body@.take(i as int) =~= body@);
    Some(sum)
}

/// The body that every agent is produced with.
pub fn standard_body() -> (body: Vec<BodyPart>)
    ensures
        body@ == standard_body_parts(),
{
    let mut body: Vec<BodyPart> = Vec::new();
    body.push(BodyPart::Move);
    body.push(BodyPart::Move);
    body.push(BodyPart::Carry);
    body.push(BodyPart::Work);
    assert(body@ =~= standard_body_parts());
    body
}

/// How many of the agents have the role.
pub open spec fn count_of(population: Seq<Role>, role: Role) -> nat
    decreases population.len(),
{
    if population.len() == 0 {
        0
    } else {
        count_of(population.drop_last(), role) + if population.last() == role {
            1nat
        } else {
            0nat
        }
    }
}

/// Whether fewer agents have the role than the colony wants.
pub open spec fn under_quota(population: Seq<Role>, role: Role) -> bool {
    count_of(population, role) < role.quota()
}

/// The first role under its quota among those at `start` and later in the
/// order of the roles.
pub open spec fn first_under_from(population: Seq<Role>, start: int) -> Option<Role>
    decreases Role::order().len() - start,
{
    if start < 0 || start >= Role::order().len() {
        None
    } else if under_quota(population, Role::order()[start]) {
        Some(Role::order()[start])
    } else {
        first_under_from(population, start + 1)
    }
}

/// The role that the colony is most in want of: the first under its quota.
pub open spec fn first_under_quota(population: Seq<Role>) -> Option<Role> {
    first_under_from(population, 0)
}

/// The role of the agent to produce, if one is to be produced: none while
/// the energy at hand does not pay for the standard body.
pub open spec fn production_role(population: Seq<Role>, energy_available: u32) -> Option<Role> {
    if energy_available < STANDARD_COST {
        None
    } else {
        first_under_quota(population)
    }
}

/// The energy that is left of a pool once the decision has been paid for:
/// a produced agent costs the standard body, no agent costs nothing.
pub open spec fn energy_after(energy_available: u32, asked: Option<Role>) -> int {
    if asked is Some && energy_available >= STANDARD_COST {
        energy_available - STANDARD_COST
    } else if asked is Some {
        0
    } else {
        energy_available as int
    }
}

/// Counts the agents that have the role.
pub fn live_count(population: &Vec<Role>, role: Role) -> (count: usize)
    ensures
        count == count_of(population@, role),
{
    let mut count: usize = 0;
    let mut i: usize = 0;
    assert(population@.take(0).len() == 0);
    while i < population.len()
        invariant
            i <= population.len(),
            count <= i,
            count == count_of(population@.take(i as int), role),
        decreases population.len() - i,
    {
        proof {
            assert(population@.take(i + 1).drop_last() =~= population@.take(i as int));
            assert(population@.take(i + 1).last() == population@[i as int]);
        }
        if population[i] == role {
            count = count + 1;
        }
        i = i + 1;
    }
    assert(population@.take(i as int) =~= population@);
    count
}

/// A request to produce one agent.
#[derive(Debug, PartialEq, Eq)]
pub struct ProductionRequest {
    /// The role that the agent is produced with.
    pub role: Role,
    /// The agent's body.
    pub body: Vec<BodyPart>,
    /// What the body costs.
    pub cost: u32,
    /// The agent's name: the role's integer, a dash, and the cycle's number.
    pub name: String,
    /// The record to attach to the agent, which holds its role.
    pub memory: CreepMemory,
}

/// The decimal digit for a number below ten.
pub open spec fn digit(d: int) -> char {
    if d == 0 {
        '0'
    } else if d == 1 {
        '1'
    } else if d == 2 {
        '2'
    } else if d == 3 {
        '3'
    } else if d == 4 {
        '4'
    } else if d == 5 {
        '5'
    } else if d == 6 {
        '6'
    } else if d == 7 {
        '7'
    } else if d == 8 {
        '8'
    } else {
        '9'
    }
}

/// A natural number in decimal, without leading zeros.
pub open spec fn decimal(n: nat) -> Seq<char>
    decreases n,
{
    if n < 10 {
        seq![digit(n as int)]
    } else {
        decimal(n / 10).push(digit((n % 10) as int))
    }
}

/// An integer in decimal, with a minus sign if it is negative.
pub open spec fn signed_decimal(n: int) -> Seq<char> {
    if n < 0 {
        seq!['-'] + decimal((-n) as nat)
    } else {
        decimal(n as nat)
    }
}

/// The name of an agent that is produced with the role in the cycle.
pub open spec fn name_for(role: Role, time: u32) -> Seq<char> {
    signed_decimal(role.code()) + seq!['-'] + decimal(time as nat)
}

/// Trusted: `format!` of two integers with `{}`, which writes each in
/// decimal as `Display` does for the integer types, here with a dash
/// between them.
#[verifier::external_body]
fn dashed(left: i32, right: u32) -> (text: String)
    ensures
        text@ == signed_decimal(left as int) + seq!['-'] + decimal(right as nat),
{
    format!("{}-{}", left, right)
}

/// The name of an agent that is produced with the role in the cycle.
pub fn creep_name(role: Role, time: u32) -> (name: String)
    ensures
        name@ == name_for(role, time),
{
    dashed(role.to_int(), time)
}

/// Decides whether a facility produces an agent in this cycle, and which.
///
/// `population` holds the role of every live agent, `energy_available` the
/// energy that the facility can spend, and `time` the cycle's number.
/// Nothing is asked for while the energy does not pay for the standard
/// body, or while no role is under its quota. Otherwise one agent is asked
/// for, of the first role under its quota, with the standard body.
pub fn plan_production(population: &Vec<Role>, energy_available: u32, time: u32) -> (request:
    Option<ProductionRequest>)
    ensures
        request is Some <==> production_role(population@, energy_available) is Some,
        request matches Some(asked) ==> {
            &&& Some(asked.role) == production_role(population@, energy_available)
            &&& asked.body@ == standard_body_parts()
            &&& asked.cost == STANDARD_COST
            &&& asked.cost <= energy_available
            &&& asked.name@ == name_for(asked.role, time)
            &&& asked.memory == (CreepMemory { role: asked.role.code() as i32 })
        },
{
    let body = standard_body();
    proof {
        lemma_standard_cost();
    }
    let cost = match body_cost(&body) {
        Some(cost) => cost,
        None => {
            return None;
        },
    };
    if energy_available < cost {
        return None;
    }
    let roles = Role::all();
    let mut i: usize = 0;
    while i < roles.len()
        invariant
            i <= roles.len(),
            roles@ == Role::order(),
            body@ == standard_body_parts(),
            cost == STANDARD_COST,
            cost <= energy_available,
            first_under_quota(population@) == first_under_from(population@, i as int),
        decreases roles.len() - i,
    {
        let role = roles[i];
        let expected = get_expected_count(role);
        let current = live_count(population, role);
        if current < expected as usize {
            return Some(
                ProductionRequest {
                    role,
                    body,
                    cost,
                    name: creep_name(role, time),
                    memory: set_creep_role_2(role),
                },
            );
        }
        i = i + 1;
    }
    None
}

/// Debits a pool of energy with what a decision costs. Facilities that draw
/// on one pool decide one after the other, each on what the others have
/// left: so the pool is never spent twice in a cycle.
pub fn energy_left(energy_available: u32, request: &Option<ProductionRequest>) -> (left: u32)
    ensures
        left == match *request {
            Some(asked) => if asked.cost <= energy_available {
                energy_available - asked.cost
            } else {
                0
            },
            None => energy_available as int,
        },
        (*request matches Some(asked) ==> asked.cost == STANDARD_COST) ==> left == energy_after(
            energy_available,
            match *request {
                Some(asked) => Some(asked.role),
                None => None,
            },
        ),
{
    match request {
        Some(asked) => if asked.cost <= energy_available {
            energy_available - asked.cost
        } else {
            0
        },
        None => energy_available,
    }
}

/// What `first_under_quota` names is under its quota, and no role before it
/// in the order of the roles is; it names none only if no role is under its
/// quota.
pub proof fn lemma_first_under_quota(population: Seq<Role>)
    ensures
        match first_under_quota(population) {
            Some(role) => exists|i: int|
                0 <= i < Role::order().len() && #[trigger] Role::order()[i] == role && under_quota(
                    population,
                    role,
                ) && forall|j: int| 0 <= j < i ==> !under_quota(population, #[trigger] Role::order()[j]),
            None => forall|role: Role| !under_quota(population, role),
        },
{
    let order = Role::order();
    assert(first_under_from(population, 5) is None);
    match first_under_quota(population) {
        Some(role) => {
            let i: int = if under_quota(population, order[0]) {
                0
            } else if under_quota(population, order[1]) {
                1
            } else if under_quota(population, order[2]) {
                2
            } else if under_quota(population, order[3]) {
                3
            } else {
                4
            };
            reveal_with_fuel(first_under_from, 6);
            assert(order[i] == role);
        },
        None => {
            reveal_with_fuel(first_under_from, 6);
            assert forall|role: Role| !under_quota(population, role) by {
                assert(role == order[0] || role == order[1] || role == order[2] || role == order[3]
                    || role == order[4]);
            }
        },
    }
}

/// Deciding twice in one cycle asks for one agent at most, where the energy
/// pays for one body only: once the first request has been paid for, the
/// same population gets no second one. And a decision that asks for nothing
/// leaves the pool as it was, so that deciding again gives the same answer.
pub proof fn lemma_one_request_per_cycle(population: Seq<Role>, energy_available: u32)
    requires
        energy_available < 2 * STANDARD_COST,
    ensures
        ({
            let first = production_role(population, energy_available);
            let left = energy_after(energy_available, first);
            &&& 0 <= left <= energy_available
            &&& first is Some ==> production_role(population, left as u32) is None
            &&& first is None ==> left == energy_available
        }),
{
}

/// One agent more raises the count of its own role by one and leaves the
/// count of every other role as it was.
pub proof fn lemma_count_of_push(population: Seq<Role>, newcomer: Role, role: Role)
    ensures
        count_of(population.push(newcomer), role) == count_of(population, role) + if newcomer
            == role {
            1nat
        } else {
            0nat
        },
{
    assert(population.push(newcomer).drop_last() =~= population);
}

/// How many agents of the role are missing.
pub open spec fn shortfall(population: Seq<Role>, role: Role) -> nat {
    if under_quota(population, role) {
        (role.quota() - count_of(population, role)) as nat
    } else {
        0
    }
}

/// How many agents are missing over all roles.
pub open spec fn total_shortfall(population: Seq<Role>) -> nat {
    shortfall(population, Role::Unknown) + shortfall(population, Role::Harvester) + shortfall(
        population,
        Role::Upgrader,
    ) + shortfall(population, Role::Builder) + shortfall(population, Role::Repairer)
}

/// The population comes up to its quotas: an agent is wanted exactly while
/// agents are missing, and once the wanted agent has joined the population
/// one agent less is missing.
pub proof fn lemma_production_closes_the_gap(population: Seq<Role>)
    ensures
        first_under_quota(population) is None <==> total_shortfall(population) == 0,
        first_under_quota(population) matches Some(role) ==> total_shortfall(population.push(role))
            == total_shortfall(population) - 1,
{
    lemma_first_under_quota(population);
    match first_under_quota(population) {
        Some(role) => {
            lemma_count_of_push(population, role, Role::Unknown);
            lemma_count_of_push(population, role, Role::Harvester);
            lemma_count_of_push(population, role, Role::Upgrader);
            lemma_count_of_push(population, role, Role::Builder);
            lemma_count_of_push(population, role, Role::Repairer);
        },
        None => {},
    }
}

} // verus!
