//! Artillery units, the registry of a commander's units, and the rules for
//! the commander's artillery tools.
use vstd::prelude::*;
use arma_rs::FromArmaError;
use crate::text::{compact_grid, grid_compact};

verus! {

#[verifier::external_type_specification]
#[verifier::external_body]
pub struct ExFromArmaError(FromArmaError);

/// Whether a text is framed as an Arma array: `[` first and `]` last.
pub open spec fn is_arma_array(s: Seq<char>) -> bool {
    s.len() >= 2 && s[0] == '[' && s[s.len() - 1] == ']'
}

/// The character of a decimal digit.
pub open spec fn digit_char(d: int) -> char {
    (48 + d) as char
}

/// The decimal numeral of a byte, without leading zeros.
pub open spec fn decimal(n: u8) -> Seq<char> {
    let v = n as int;
    if v < 10 {
        seq![digit_char(v)]
    } else if v < 100 {
        seq![digit_char(v / 10), digit_char(v % 10)]
    } else {
        seq![digit_char(v / 100), digit_char((v / 10) % 10), digit_char(v % 10)]
    }
}

/// Whether a text can stand inside an Arma string as it is: it holds no
/// quote and no bracket.
pub open spec fn is_plain_text(a: Seq<char>) -> bool {
    forall|i: int| 0 <= i < a.len() ==> a[i] != '"' && a[i] != '[' && a[i] != ']'
}

/// Arma's text for a round: `["classname","display name",quantity]`.
pub open spec fn arma_round_text(classname: Seq<char>, display_name: Seq<char>, quantity: u8) -> Seq<char> {
    "[\""@ + classname + "\",\""@ + display_name + "\","@ + decimal(quantity) + "]"@
}

/// Whether a read of `s` gives, for a plain round text `["a","b",n]`, the
/// values `(a, b, n)`.
pub open spec fn plain_round_read(s: Seq<char>, r: Result<(String, String, u8), FromArmaError>) -> bool {
    forall|a: Seq<char>, b: Seq<char>, n: u8|
        is_plain_text(a) && is_plain_text(b) && #[trigger] arma_round_text(a, b, n) == s
            ==> (r matches Ok(f) && f.0@ == a && f.1@ == b && f.2 == n)
}

/// Whether a round read from `s` is, for a plain round text `["a","b",n]`,
/// the round `(a, b, n)`.
pub open spec fn plain_round_of(s: Seq<char>, r: Result<Round, ArmaParseError>) -> bool {
    forall|a: Seq<char>, b: Seq<char>, n: u8|
        is_plain_text(a) && is_plain_text(b) && #[trigger] arma_round_text(a, b, n) == s
            ==> (r matches Ok(round) && round.classname@ == a && round.display_name@ == b
                && round.quantity == n)
}

/// `<(String, String, u8) as arma_rs::FromArma>::from_arma`: reads an Arma
/// array of a string, a string and a number.
/// - arma-rs strips the array's brackets first and fails where either is
///   missing, so success needs a bracketed text.
/// - For a text `["a","b",n]` with `a` and `b` free of quotes and brackets
///   and `n` a plain decimal numeral of a byte, it splits the three parts at
///   the commas outside the strings, takes the strings between their quotes
///   and the number as written, and gives `(a, b, n)`.
/// Nothing more is stated of its result: arma-rs reads a number written
/// with an exponent through `f64::powi`, whose precision the standard
/// library leaves open, and its debug and release builds read unquoted
/// strings differently.
#[verifier::external_body]
fn parse_arma_triple(s: String) -> (r: Result<(String, String, u8), FromArmaError>)
    ensures
        r is Ok ==> is_arma_array(s@),
        plain_round_read(s@, r),
{
    <(String, String, u8) as arma_rs::FromArma>::from_arma(s)
}

/// The message that arma-rs gives for a parse error (its `Display`).
#[verifier::external_body]
fn arma_error_message(e: &FromArmaError) -> String {
    e.to_string()
}

/// Why a value handed over by Arma could not be read: arma-rs's error and
/// its message.
pub struct ArmaParseError {
    pub message: String,
    pub error: FromArmaError,
}

/// The content of a round type: its class name, display name and quantity.
pub struct RoundModel {
    pub classname: Seq<char>,
    pub display_name: Seq<char>,
    pub quantity: u8,
}

/// A type of round that an artillery unit has.
pub struct Round {
    /// The classname of the round
    pub classname: String,
    /// The display name of the round
    pub display_name: String,
    /// The quantity of rounds available
    pub quantity: u8,
}

impl Round {
    /// The round described by its three fields, in the order Arma sends them.
    pub fn from_fields(fields: (String, String, u8)) -> (r: Round)
        ensures
            r.classname == fields.0,
            r.display_name == fields.1,
            r.quantity == fields.2,
    {
        let (classname, display_name, quantity) = fields;
        Round { classname, display_name, quantity }
    }

    /// The round that a read of Arma's array gives: its three fields where
    /// the read succeeded, the read's error otherwise.
    pub fn from_parsed(parsed: Result<(String, String, u8), ArmaParseError>) -> (r: Result<Round, ArmaParseError>)
        ensures
            parsed matches Ok(f) ==> (r matches Ok(round) && round.classname == f.0
                && round.display_name == f.1 && round.quantity == f.2),
            parsed matches Err(e) ==> (r matches Err(e2) && e2 == e),
    {
        match parsed {
            Ok(fields) => Ok(Round::from_fields(fields)),
            Err(e) => Err(e),
        }
    }

    /// Reads a round from Arma's text for `[classname, display name, quantity]`:
    /// the values that arma-rs reads go through `from_parsed`. A plain
    /// `["classname","display name",quantity]` gives that round; a text that
    /// is not bracketed as an array is refused.
    pub fn from_arma(s: String) -> (r: Result<Round, ArmaParseError>)
        ensures
            !is_arma_array(s@) ==> r is Err,
            plain_round_of(s@, r),
    {
        let parsed = match parse_arma_triple(s) {
            Ok(fields) => Ok(fields),
            Err(e) => {
                let message = arma_error_message(&e);
                Err(ArmaParseError { message, error: e })
            },
        };
        Round::from_parsed(parsed)
    }
}

impl View for Round {
    type V = RoundModel;

    open spec fn view(&self) -> RoundModel {
        RoundModel { classname: self.classname@, display_name: self.display_name@, quantity: self.quantity }
    }
}

/// The content of an artillery unit.
pub struct ArtilleryModel {
    pub id: Seq<char>,
    pub name: Seq<char>,
    pub rounds: Seq<RoundModel>,
}

/// An artillery unit that a commander can order to fire.
pub struct Artillery {
    /// The Arma netid of the artillery unit
    pub id: String,
    /// The display name of the artillery unit
    pub name: String,
    /// The type of rounds available to the artillery unit
    pub rounds: Vec<Round>,
}

impl View for Artillery {
    type V = ArtilleryModel;

    open spec fn view(&self) -> ArtilleryModel {
        ArtilleryModel {
            id: self.id@,
            name: self.name@,
            rounds: self.rounds@.map_values(|r: Round| r@),
        }
    }
}

/// The units of a sequence, by their ids; a later unit wins over an earlier one.
pub open spec fn units_by_id(s: Seq<Artillery>) -> Map<Seq<char>, ArtilleryModel>
    decreases s.len(),
{
    if s.len() == 0 {
        Map::empty()
    } else {
        units_by_id(s.drop_last()).insert(s.last().id@, s.last()@)
    }
}

/// No two units of the sequence share an id.
pub open spec fn ids_unique(s: Seq<Artillery>) -> bool {
    forall|i: int, j: int| 0 <= i < j < s.len() ==> #[trigger] s[i].id@ != #[trigger] s[j].id@
}

/// A key is in `units_by_id(s)` exactly when some unit of `s` has it as id.
pub proof fn lemma_units_by_id_domain(s: Seq<Artillery>, k: Seq<char>)
    ensures
        units_by_id(s).contains_key(k) <==> exists|i: int| 0 <= i < s.len() && #[trigger] s[i].id@ == k,
    decreases s.len(),
{
    if s.len() > 0 {
        lemma_units_by_id_domain(s.drop_last(), k);
        if units_by_id(s.drop_last()).contains_key(k) {
            let i = choose|i: int| 0 <= i < s.drop_last().len() && #[trigger] s.drop_last()[i].id@ == k;
            assert(s[i].id@ == k);
        }
        if exists|i: int| 0 <= i < s.len() && #[trigger] s[i].id@ == k {
            let i = choose|i: int| 0 <= i < s.len() && #[trigger] s[i].id@ == k;
            if i < s.len() - 1 {
                assert(s.drop_last()[i].id@ == k);
            }
        }
    }
}

/// With unique ids, each unit is found under its own id.
pub proof fn lemma_units_by_id_value(s: Seq<Artillery>, i: int)
    requires
        ids_unique(s),
        0 <= i < s.len(),
    ensures
        units_by_id(s).contains_key(s[i].id@),
        units_by_id(s)[s[i].id@] == s[i]@,
    decreases s.len(),
{
    if i < s.len() - 1 {
        assert(s.drop_last()[i] == s[i]);
        assert(ids_unique(s.drop_last()));
        lemma_units_by_id_value(s.drop_last(), i);
        assert(s[i].id@ != s.last().id@);
    }
}

/// With unique ids, dropping the unit at `j` drops its id from the map.
pub proof fn lemma_units_by_id_remove(s: Seq<Artillery>, j: int)
    requires
        ids_unique(s),
        0 <= j < s.len(),
    ensures
        units_by_id(s.remove(j)) == units_by_id(s).remove(s[j].id@),
    decreases s.len(),
{
    let last = s.last();
    let init = s.drop_last();
    assert(ids_unique(init));
    if j == s.len() - 1 {
        assert(s.remove(j) =~= init);
        assert(!units_by_id(init).contains_key(last.id@)) by {
            lemma_units_by_id_domain(init, last.id@);
            if exists|i: int| 0 <= i < init.len() && #[trigger] init[i].id@ == last.id@ {
                let i = choose|i: int| 0 <= i < init.len() && #[trigger] init[i].id@ == last.id@;
                assert(s[i].id@ != s[s.len() - 1].id@);
            }
        }
        assert(units_by_id(s.remove(j)) =~= units_by_id(s).remove(s[j].id@));
    } else {
        lemma_units_by_id_remove(init, j);
        assert(s.remove(j) =~= init.remove(j).push(last));
        assert(s.remove(j).drop_last() =~= init.remove(j));
        assert(init[j] == s[j]);
        assert(s[j].id@ != last.id@);
        assert(units_by_id(s.remove(j)) =~= units_by_id(s).remove(s[j].id@));
    }
}

/// The artillery units registered with one commander, keyed by their ids.
/// They are kept in a `Vec` whose ids are unique, not in a `HashMap`: vstd
/// specifies `HashMap` only for keys whose hashing it models, and `String`
/// is not among them, so nothing about a `String`-keyed map could be proved.
pub struct ArtilleryRegistry {
    units: Vec<Artillery>,
}

impl ArtilleryRegistry {
    #[verifier::type_invariant]
    spec fn ids_distinct(self) -> bool {
        ids_unique(self.units@)
    }

    /// The registered units, by id.
    pub closed spec fn units_map(self) -> Map<Seq<char>, ArtilleryModel> {
        units_by_id(self.units@)
    }
}

impl ArtilleryRegistry {
    /// A registry with no units.
    pub fn new() -> (r: ArtilleryRegistry)
        ensures
            r@ == Map::<Seq<char>, ArtilleryModel>::empty(),
    {
        ArtilleryRegistry { units: Vec::new() }
    }

    /// The position of the unit with the given id, if there is one.
    fn position(&self, id: &str) -> (r: Option<usize>)
        ensures
            r matches Some(j) ==> j < self.units@.len() && self.units@[j as int].id@ == id@,
            r is None ==> forall|i: int| 0 <= i < self.units@.len() ==> #[trigger] self.units@[i].id@ != id@,
    {
        let mut i: usize = 0;
        while i < self.units.len()
            invariant
                i <= self.units@.len(),
                forall|k: int| 0 <= k < i ==> #[trigger] self.units@[k].id@ != id@,
            decreases self.units@.len() - i,
        {
            if crate::text::same_text(self.units[i].id.as_str(), id) {
                return Some(i);
            }
            i = i + 1;
        }
        None
    }

    /// Removes the unit with the given id and hands it back, if there was one.
    pub fn remove(&mut self, id: &str) -> (r: Option<Artillery>)
        ensures
            final(self)@ == old(self)@.remove(id@),
            r is Some <==> old(self)@.contains_key(id@),
            r matches Some(a) ==> a@ == old(self)@[id@],
    {
        proof {
            use_type_invariant(&*self);
        }
        match self.position(id) {
            Some(j) => {
                proof {
                    lemma_units_by_id_remove(self.units@, j as int);
                    lemma_units_by_id_value(self.units@, j as int);
                }
                let mut units: Vec<Artillery> = Vec::new();
                std::mem::swap(&mut units, &mut self.units);
                let a = units.remove(j);
                assert(ids_unique(units@)) by {
                    assert forall|x: int, y: int| 0 <= x < y < units@.len() implies
                        #[trigger] units@[x].id@ != #[trigger] units@[y].id@ by {
                        let xo = if x < j { x } else { x + 1 };
                        let yo = if y < j { y } else { y + 1 };
                        assert(units@[x] == old(self).units@[xo]);
                        assert(units@[y] == old(self).units@[yo]);
                    }
                }
                self.units = units;
                Some(a)
            },
            None => {
                proof {
                    lemma_units_by_id_domain(self.units@, id@);
                }
                assert(self@.remove(id@) =~= self@);
                None
            },
        }
    }

    /// Registers a unit under its id, replacing any unit with that id.
    pub fn insert(&mut self, unit: Artillery)
        ensures
            final(self)@ == old(self)@.insert(unit.id@, unit@),
    {
        let _ = self.remove(unit.id.as_str());
        proof {
            use_type_invariant(&*self);
            lemma_units_by_id_domain(self.units@, unit.id@);
        }
        let ghost before = self.units@;
        let mut units: Vec<Artillery> = Vec::new();
        std::mem::swap(&mut units, &mut self.units);
        units.push(unit);
        assert(units@.drop_last() =~= before);
        assert(ids_unique(units@)) by {
            assert forall|x: int, y: int| 0 <= x < y < units@.len() implies
                #[trigger] units@[x].id@ != #[trigger] units@[y].id@ by {
                if y == units@.len() - 1 {
                    assert(before[x] == units@[x]);
                    if units@[x].id@ == units@[y].id@ {
                        assert(units_by_id(before).contains_key(unit.id@));
                    }
                } else {
                    assert(before[x] == units@[x] && before[y] == units@[y]);
                }
            }
        }
        self.units = units;
        assert(self@ =~= old(self)@.remove(unit.id@).insert(unit.id@, unit@));
    }

    /// The unit registered under the given id, if any.
    pub fn get(&self, id: &str) -> (r: Option<&Artillery>)
        ensures
            r is Some <==> self@.contains_key(id@),
            r matches Some(a) ==> a@ == self@[id@],
    {
        proof {
            use_type_invariant(self);
        }
        match self.position(id) {
            Some(j) => {
                proof {
                    lemma_units_by_id_value(self.units@, j as int);
                }
                Some(&self.units[j])
            },
            None => {
                proof {
                    lemma_units_by_id_domain(self.units@, id@);
                }
                None
            },
        }
    }

    /// All registered units, each once.
    pub fn units(&self) -> (r: &Vec<Artillery>)
        ensures
            ids_unique(r@),
            units_by_id(r@) == self@,
    {
        proof {
            use_type_invariant(self);
        }
        &self.units
    }
}

impl View for ArtilleryRegistry {
    type V = Map<Seq<char>, ArtilleryModel>;

    open spec fn view(&self) -> Map<Seq<char>, ArtilleryModel> {
        self.units_map()
    }
}

/// Registering a unit under an id that is already taken replaces the
/// earlier unit: only the latest registration counts.
pub proof fn lemma_register_replaces(units: Map<Seq<char>, ArtilleryModel>, first: ArtilleryModel, second: ArtilleryModel)
    requires
        first.id == second.id,
    ensures
        units.insert(first.id, first).insert(second.id, second) == units.insert(second.id, second),
{
    assert(units.insert(first.id, first).insert(second.id, second) =~= units.insert(second.id, second));
}

/// Removing a unit that was just registered under a new id gives back the
/// units as they were before.
pub proof fn lemma_remove_undoes_register(units: Map<Seq<char>, ArtilleryModel>, unit: ArtilleryModel)
    requires
        !units.contains_key(unit.id),
    ensures
        units.insert(unit.id, unit).remove(unit.id) == units,
{
    assert(units.insert(unit.id, unit).remove(unit.id) =~= units);
}

/// A fire order as the commander's model states it.
pub struct FireOrder {
    pub target: String,
    pub round: String,
    pub quantity: u8,
    pub unit: String,
    pub spread: Option<u32>,
}

/// What the extension hands to Arma to fire: the target without separators
/// and the spread, 0 where none was given.
pub struct FireRequest {
    pub target: String,
    pub round: String,
    pub quantity: u8,
    pub unit: String,
    pub spread: u32,
}

/// The request that a fire order makes of Arma.
pub fn fire_request(order: FireOrder) -> (r: FireRequest)
    ensures
        r.target@ == grid_compact(order.target@),
        r.round == order.round,
        r.quantity == order.quantity,
        r.unit == order.unit,
        r.spread == (match order.spread {
            Some(s) => s,
            None => 0u32,
        }),
{
    let target = compact_grid(order.target.as_str());
    let spread = match order.spread {
        Some(s) => s,
        None => 0,
    };
    FireRequest { target, round: order.round, quantity: order.quantity, unit: order.unit, spread }
}

/// The fire tool's answer to the model, by whether Arma took the request.
pub fn fire_reply(delivered: bool) -> (r: String)
    ensures
        delivered ==> r@ == "{\"success\": true}"@,
        !delivered ==> r@ == "Error requesting artillery fire"@,
{
    if delivered {
        String::from_str("{\"success\": true}")
    } else {
        String::from_str("Error requesting artillery fire")
    }
}

/// An ETA question as the commander's model states it.
pub struct EtaOrder {
    pub target: String,
    pub round: String,
    pub unit: String,
}

/// What the extension asks Arma for an ETA (beside the reply channel's id).
pub struct EtaRequest {
    pub target: String,
    pub round: String,
    pub unit: String,
}

/// The request that an ETA question makes of Arma.
pub fn eta_request(order: EtaOrder) -> (r: EtaRequest)
    ensures
        r.target@ == grid_compact(order.target@),
        r.round == order.round,
        r.unit == order.unit,
{
    let target = compact_grid(order.target.as_str());
    EtaRequest { target, round: order.round, unit: order.unit }
}

/// How an ETA question went.
pub enum EtaOutcome {
    /// Arma did not take the request.
    NotDelivered,
    /// Arma answered with a number, given by its decimal text.
    Eta(String),
    /// Arma answered with something other than a number.
    Invalid,
    /// The reply channel closed without an answer.
    NoResponse,
}

/// The ETA tool's answer to the model.
pub fn eta_reply(outcome: EtaOutcome) -> (r: String)
    ensures
        outcome is NotDelivered ==> r@ == "Error requesting artillery fire"@,
        outcome matches EtaOutcome::Eta(t) ==> r@ == "{\"eta\": "@ + t@ + "}"@,
        outcome is Invalid ==> r@ == "{\"error\": \"Invalid response\"}"@,
        outcome is NoResponse ==> r@ == "{\"error\": \"No response received\"}"@,
{
    match outcome {
        EtaOutcome::NotDelivered => String::from_str("Error requesting artillery fire"),
        EtaOutcome::Eta(t) => {
            let mut r = String::from_str("{\"eta\": ");
            r.append(t.as_str());
            r.append("}");
            r
        },
        EtaOutcome::Invalid => String::from_str("{\"error\": \"Invalid response\"}"),
        EtaOutcome::NoResponse => String::from_str("{\"error\": \"No response received\"}"),
    }
}

} // verus!
