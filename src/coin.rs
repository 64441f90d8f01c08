use rand::Rng;
use vstd::prelude::*;

verus! {

/// One of the fifty states a quarter can commemorate, in alphabetical order,
/// plus `NoState` for an index that names none of them.
#[derive(Debug, Clone, Copy, PartialEq, Eq, Structural)]
pub enum UsState {
    Alabama,
    Alaska,
    Arizona,
    Arkansas,
    California,
    Colorado,
    Connecticut,
    Delaware,
    Florida,
    Georgia,
    Hawaii,
    Idaho,
    Illinois,
    Indiana,
    Iowa,
    Kansas,
    Kentucky,
    Louisiana,
    Maine,
    Maryland,
    Massachusetts,
    Michigan,
    Minnesota,
    Mississippi,
    Missouri,
    Montana,
    Nebraska,
    Nevada,
    NewHampshire,
    NewJersey,
    NewMexico,
    NewYork,
    NorthCarolina,
    NorthDakota,
    Ohio,
    Oklahoma,
    Oregon,
    Pennsylvania,
    RhodeIsland,
    SouthCarolina,
    SouthDakota,
    Tennessee,
    Texas,
    Utah,
    Vermont,
    Virginia,
    Washington,
    WestVirginia,
    Wisconsin,
    Wyoming,
    NoState,
}

/// The state at position `i` of the alphabetical order; `NoState` off that range.
pub open spec fn state_at(i: u8) -> UsState {
    match i {
        0 => UsState::Alabama,
        1 => UsState::Alaska,
        2 => UsState::Arizona,
        3 => UsState::Arkansas,
        4 => UsState::California,
        5 => UsState::Colorado,
        6 => UsState::Connecticut,
        7 => UsState::Delaware,
        8 => UsState::Florida,
        9 => UsState::Georgia,
        10 => UsState::Hawaii,
        11 => UsState::Idaho,
        12 => UsState::Illinois,
        13 => UsState::Indiana,
        14 => UsState::Iowa,
        15 => UsState::Kansas,
        16 => UsState::Kentucky,
        17 => UsState::Louisiana,
        18 => UsState::Maine,
        19 => UsState::Maryland,
        20 => UsState::Massachusetts,
        21 => UsState::Michigan,
        22 => UsState::Minnesota,
        23 => UsState::Mississippi,
        24 => UsState::Missouri,
        25 => UsState::Montana,
        26 => UsState::Nebraska,
        27 => UsState::Nevada,
        28 => UsState::NewHampshire,
        29 => UsState::NewJersey,
        30 => UsState::NewMexico,
        31 => UsState::NewYork,
        32 => UsState::NorthCarolina,
        33 => UsState::NorthDakota,
        34 => UsState::Ohio,
        35 => UsState::Oklahoma,
        36 => UsState::Oregon,
        37 => UsState::Pennsylvania,
        38 => UsState::RhodeIsland,
        39 => UsState::SouthCarolina,
        40 => UsState::SouthDakota,
        41 => UsState::Tennessee,
        42 => UsState::Texas,
        43 => UsState::Utah,
        44 => UsState::Vermont,
        45 => UsState::Virginia,
        46 => UsState::Washington,
        47 => UsState::WestVirginia,
        48 => UsState::Wisconsin,
        49 => UsState::Wyoming,
        _ => UsState::NoState,
    }
}

/// Position of a state in the alphabetical order; 50 for `NoState`.
pub open spec fn state_index(s: UsState) -> int {
    match s {
        UsState::Alabama => 0,
        UsState::Alaska => 1,
        UsState::Arizona => 2,
        UsState::Arkansas => 3,
        UsState::California => 4,
        UsState::Colorado => 5,
        UsState::Connecticut => 6,
        UsState::Delaware => 7,
        UsState::Florida => 8,
        UsState::Georgia => 9,
        UsState::Hawaii => 10,
        UsState::Idaho => 11,
        UsState::Illinois => 12,
        UsState::Indiana => 13,
        UsState::Iowa => 14,
        UsState::Kansas => 15,
        UsState::Kentucky => 16,
        UsState::Louisiana => 17,
        UsState::Maine => 18,
        UsState::Maryland => 19,
        UsState::Massachusetts => 20,
        UsState::Michigan => 21,
        UsState::Minnesota => 22,
        UsState::Mississippi => 23,
        UsState::Missouri => 24,
        UsState::Montana => 25,
        UsState::Nebraska => 26,
        UsState::Nevada => 27,
        UsState::NewHampshire => 28,
        UsState::NewJersey => 29,
        UsState::NewMexico => 30,
        UsState::NewYork => 31,
        UsState::NorthCarolina => 32,
        UsState::NorthDakota => 33,
        UsState::Ohio => 34,
        UsState::Oklahoma => 35,
        UsState::Oregon => 36,
        UsState::Pennsylvania => 37,
        UsState::RhodeIsland => 38,
        UsState::SouthCarolina => 39,
        UsState::SouthDakota => 40,
        UsState::Tennessee => 41,
        UsState::Texas => 42,
        UsState::Utah => 43,
        UsState::Vermont => 44,
        UsState::Virginia => 45,
        UsState::Washington => 46,
        UsState::WestVirginia => 47,
        UsState::Wisconsin => 48,
        UsState::Wyoming => 49,
        UsState::NoState => 50,
    }
}

/// The name a state is shown under.
pub open spec fn state_name(s: UsState) -> Seq<char> {
    match s {
        UsState::Alabama => "Alabama"@,
        UsState::Alaska => "Alaska"@,
        UsState::Arizona => "Arizona"@,
        UsState::Arkansas => "Arkansas"@,
        UsState::California => "California"@,
        UsState::Colorado => "Colorado"@,
        UsState::Connecticut => "Connecticut"@,
        UsState::Delaware => "Delaware"@,
        UsState::Florida => "Florida"@,
        UsState::Georgia => "Georgia"@,
        UsState::Hawaii => "Hawaii"@,
        UsState::Idaho => "Idaho"@,
        UsState::Illinois => "Illinois"@,
        UsState::Indiana => "Indiana"@,
        UsState::Iowa => "Iowa"@,
        UsState::Kansas => "Kansas"@,
        UsState::Kentucky => "Kentucky"@,
        UsState::Louisiana => "Louisiana"@,
        UsState::Maine => "Maine"@,
        UsState::Maryland => "Maryland"@,
        UsState::Massachusetts => "Massachusetts"@,
        UsState::Michigan => "Michigan"@,
        UsState::Minnesota => "Minnesota"@,
        UsState::Mississippi => "Mississippi"@,
        UsState::Missouri => "Missouri"@,
        UsState::Montana => "Montana"@,
        UsState::Nebraska => "Nebraska"@,
        UsState::Nevada => "Nevada"@,
        UsState::NewHampshire => "NewHampshire"@,
        UsState::NewJersey => "NewJersey"@,
        UsState::NewMexico => "NewMexico"@,
        UsState::NewYork => "NewYork"@,
        UsState::NorthCarolina => "NorthCarolina"@,
        UsState::NorthDakota => "NorthDakota"@,
        UsState::Ohio => "Ohio"@,
        UsState::Oklahoma => "Oklahoma"@,
        UsState::Oregon => "Oregon"@,
        UsState::Pennsylvania => "Pennsylvania"@,
        UsState::RhodeIsland => "RhodeIsland"@,
        UsState::SouthCarolina => "SouthCarolina"@,
        UsState::SouthDakota => "SouthDakota"@,
        UsState::Tennessee => "Tennessee"@,
        UsState::Texas => "Texas"@,
        UsState::Utah => "Utah"@,
        UsState::Vermont => "Vermont"@,
        UsState::Virginia => "Virginia"@,
        UsState::Washington => "Washington"@,
        UsState::WestVirginia => "WestVirginia"@,
        UsState::Wisconsin => "Wisconsin"@,
        UsState::Wyoming => "Wyoming"@,
        UsState::NoState => "NoState"@,
    }
}

impl UsState {
    /// The name this state is shown under.
    pub fn name(&self) -> (r: &'static str)
        ensures
            r@ == state_name(*self),
    {
        match self {
            UsState::Alabama => "Alabama",
            UsState::Alaska => "Alaska",
            UsState::Arizona => "Arizona",
            UsState::Arkansas => "Arkansas",
            UsState::California => "California",
            UsState::Colorado => "Colorado",
            UsState::Connecticut => "Connecticut",
            UsState::Delaware => "Delaware",
            UsState::Florida => "Florida",
            UsState::Georgia => "Georgia",
            UsState::Hawaii => "Hawaii",
            UsState::Idaho => "Idaho",
            UsState::Illinois => "Illinois",
            UsState::Indiana => "Indiana",
            UsState::Iowa => "Iowa",
            UsState::Kansas => "Kansas",
            UsState::Kentucky => "Kentucky",
            UsState::Louisiana => "Louisiana",
            UsState::Maine => "Maine",
            UsState::Maryland => "Maryland",
            UsState::Massachusetts => "Massachusetts",
            UsState::Michigan => "Michigan",
            UsState::Minnesota => "Minnesota",
            UsState::Mississippi => "Mississippi",
            UsState::Missouri => "Missouri",
            UsState::Montana => "Montana",
            UsState::Nebraska => "Nebraska",
            UsState::Nevada => "Nevada",
            UsState::NewHampshire => "NewHampshire",
            UsState::NewJersey => "NewJersey",
            UsState::NewMexico => "NewMexico",
            UsState::NewYork => "NewYork",
            UsState::NorthCarolina => "NorthCarolina",
            UsState::NorthDakota => "NorthDakota",
            UsState::Ohio => "Ohio",
            UsState::Oklahoma => "Oklahoma",
            UsState::Oregon => "Oregon",
            UsState::Pennsylvania => "Pennsylvania",
            UsState::RhodeIsland => "RhodeIsland",
            UsState::SouthCarolina => "SouthCarolina",
            UsState::SouthDakota => "SouthDakota",
            UsState::Tennessee => "Tennessee",
            UsState::Texas => "Texas",
            UsState::Utah => "Utah",
            UsState::Vermont => "Vermont",
            UsState::Virginia => "Virginia",
            UsState::Washington => "Washington",
            UsState::WestVirginia => "WestVirginia",
            UsState::Wisconsin => "Wisconsin",
            UsState::Wyoming => "Wyoming",
            UsState::NoState => "NoState",
        }
    }
}

/// The state drawn for index `idx`: positional for `idx` in `0..50`,
/// `NoState` for any larger index.
pub fn state_gen(idx: u8) -> (r: UsState)
    ensures
        r == state_at(idx),
{
    match idx {
        0 => UsState::Alabama,
        1 => UsState::Alaska,
        2 => UsState::Arizona,
        3 => UsState::Arkansas,
        4 => UsState::California,
        5 => UsState::Colorado,
        6 => UsState::Connecticut,
        7 => UsState::Delaware,
        8 => UsState::Florida,
        9 => UsState::Georgia,
        10 => UsState::Hawaii,
        11 => UsState::Idaho,
        12 => UsState::Illinois,
        13 => UsState::Indiana,
        14 => UsState::Iowa,
        15 => UsState::Kansas,
        16 => UsState::Kentucky,
        17 => UsState::Louisiana,
        18 => UsState::Maine,
        19 => UsState::Maryland,
        20 => UsState::Massachusetts,
        21 => UsState::Michigan,
        22 => UsState::Minnesota,
        23 => UsState::Mississippi,
        24 => UsState::Missouri,
        25 => UsState::Montana,
        26 => UsState::Nebraska,
        27 => UsState::Nevada,
        28 => UsState::NewHampshire,
        29 => UsState::NewJersey,
        30 => UsState::NewMexico,
        31 => UsState::NewYork,
        32 => UsState::NorthCarolina,
        33 => UsState::NorthDakota,
        34 => UsState::Ohio,
        35 => UsState::Oklahoma,
        36 => UsState::Oregon,
        37 => UsState::Pennsylvania,
        38 => UsState::RhodeIsland,
        39 => UsState::SouthCarolina,
        40 => UsState::SouthDakota,
        41 => UsState::Tennessee,
        42 => UsState::Texas,
        43 => UsState::Utah,
        44 => UsState::Vermont,
        45 => UsState::Virginia,
        46 => UsState::Washington,
        47 => UsState::WestVirginia,
        48 => UsState::Wisconsin,
        49 => UsState::Wyoming,
        _ => UsState::NoState,
    }
}

/// Every index in `0..50` names a real state, and no two of them the same one;
/// every other index gives `NoState`.
pub proof fn lemma_state_at_bijective(i: u8, j: u8)
    ensures
        i < 50 ==> state_at(i) != UsState::NoState && state_index(state_at(i)) == i as int,
        i < 50 && j < 50 && i != j ==> state_at(i) != state_at(j),
        !(i < 50) ==> state_at(i) == UsState::NoState,
{
    if i < 50 {
        assert(state_index(state_at(i)) == i as int);
    }
}

/// Every state other than `NoState` is reached from its own index.
pub proof fn lemma_state_at_onto(s: UsState)
    requires
        s != UsState::NoState,
    ensures
        0 <= state_index(s) < 50,
        state_at(state_index(s) as u8) == s,
{
}

/// A coin drawn from the purse; only a quarter carries a state.
#[derive(Debug, Clone, Copy, PartialEq, Eq, Structural)]
pub enum Coin {
    Penny,
    Nickel,
    Dime,
    Quarter(UsState),
}

/// What a coin is worth, in cents.
pub open spec fn cents_of(c: Coin) -> nat {
    match c {
        Coin::Penny => 1,
        Coin::Nickel => 5,
        Coin::Dime => 10,
        Coin::Quarter(_) => 25,
    }
}

/// The text that comes with a quarter from state `s`.
pub open spec fn quarter_message(s: UsState) -> Seq<char> {
    "State quarter from "@ + state_name(s) + "!"@
}

/// The message that comes with a coin: empty but for a quarter.
pub open spec fn message_of(c: Coin) -> Seq<char> {
    match c {
        Coin::Quarter(s) => quarter_message(s),
        _ => Seq::empty(),
    }
}

/// The coin drawn for index `idx`, with `state_idx` picking the state of a quarter.
pub open spec fn coin_at(idx: u8, state_idx: u8) -> Coin {
    if idx == 0 {
        Coin::Penny
    } else if idx == 1 {
        Coin::Nickel
    } else if idx == 2 {
        Coin::Dime
    } else {
        Coin::Quarter(state_at(state_idx))
    }
}

/// A coin as a draw makes it: a quarter, if any, from a real state.
pub open spec fn well_drawn(c: Coin) -> bool {
    match c {
        Coin::Quarter(s) => s != UsState::NoState,
        _ => true,
    }
}

/// The value of a coin in cents, and the message that comes with it.
pub fn value_in_cents(coin: Coin) -> (r: (u8, String))
    ensures
        r.0 as nat == cents_of(coin),
        r.1@ == message_of(coin),
{
    match coin {
        Coin::Penny => (1, String::new()),
        Coin::Nickel => (5, String::new()),
        Coin::Dime => (10, String::new()),
        Coin::Quarter(state) => {
            let mut msg = String::from_str("State quarter from ");
            msg.append(state.name());
            msg.append("!");
            (25, msg)
        },
    }
}

/// Every coin is worth one of 1, 5, 10 or 25 cents.
pub proof fn lemma_cents_denominations(c: Coin)
    ensures
        cents_of(c) == 1 || cents_of(c) == 5 || cents_of(c) == 10 || cents_of(c) == 25,
{
}

/// A quarter's message is non-empty and holds its state's name;
/// every other coin comes with an empty message.
pub proof fn lemma_message_names_state(c: Coin)
    ensures
        match c {
            Coin::Quarter(s) => {
                &&& message_of(c).len() > 0
                &&& message_of(c).subrange(19, 19 + state_name(s).len() as int) == state_name(s)
            },
            _ => message_of(c).len() == 0,
        },
{
    reveal_strlit("State quarter from ");
    if let Coin::Quarter(s) = c {
        let p = "State quarter from "@;
        let m = p + state_name(s) + "!"@;
        assert(p.len() == 19);
        assert(m.subrange(19, 19 + state_name(s).len() as int) =~= state_name(s));
    }
}

/// The coin for draw `idx`, where `state_idx` is the draw for a quarter's state:
/// 0 is a penny, 1 a nickel, 2 a dime, anything else a quarter.
pub fn draw_coin(idx: u8, state_idx: u8) -> (r: Coin)
    ensures
        r == coin_at(idx, state_idx),
{
    match idx {
        0 => Coin::Penny,
        1 => Coin::Nickel,
        2 => Coin::Dime,
        _ => Coin::Quarter(state_gen(state_idx)),
    }
}

/// Draw 0 is a penny, 1 a nickel, 2 a dime, and every larger draw a quarter,
/// whose state is a real one whenever its own draw is in `0..50`.
pub proof fn lemma_coin_at_kinds(idx: u8, state_idx: u8)
    ensures
        idx == 0 ==> coin_at(idx, state_idx) == Coin::Penny,
        idx == 1 ==> coin_at(idx, state_idx) == Coin::Nickel,
        idx == 2 ==> coin_at(idx, state_idx) == Coin::Dime,
        idx >= 3 ==> coin_at(idx, state_idx) is Quarter,
        state_idx < 50 ==> well_drawn(coin_at(idx, state_idx)),
{
    lemma_state_at_bijective(state_idx, state_idx);
}

/// Relies on rand's `thread_rng().gen_range(low, high)`, which returns a value in
/// `[low, high)` and panics when `low >= high`.
#[verifier::external_body]
pub(crate) fn random_below(high: u8) -> (r: u8)
    requires
        0 < high,
    ensures
        r < high,
{
    rand::thread_rng().gen_range(0, high)
}

/// The coin for draw `idx`; a quarter's state is drawn at random, uniformly
/// from the fifty.
pub fn coin_gen(idx: u8) -> (r: Coin)
    ensures
        well_drawn(r),
        exists|s: u8| s < 50 && r == coin_at(idx, s),
{
    let state_idx = random_below(50);
    proof {
        lemma_coin_at_kinds(idx, state_idx);
    }
    draw_coin(idx, state_idx)
}

} // verus!
