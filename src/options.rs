//! The options that apply to the requests of every service, and the
//! option table: the ordered `(name, value)` pairs of a query string.

use vstd::prelude::*;

use crate::common::Hint;
use crate::decimal::Decimal;
use crate::text::{decimal_text, join_wire, multi, u64_text, WireForm};

verus! {

/// Which service a request goes to.
#[derive(Debug, Clone, Copy, PartialEq, Eq, Structural)]
pub enum Service {
    /// Finds the fastest route between coordinates
    Route,
    /// Snaps coordinates to the street network and returns the nearest matches
    Nearest,
    /// Computes the duration or distances of the fastest route between all pairs of supplied coordinates
    Table,
    /// Snaps noisy GPS traces to the road network in the most plausible way
    Match,
    /// Solves the Traveling Salesman Problem using a greedy heuristic
    Trip,
    /// Generates Mapbox Vector Tiles with internal routing metadata
    Tile,
}

/// The name of each service in a URL.
pub open spec fn service_token(s: Service) -> Seq<char> {
    match s {
        Service::Route => "route"@,
        Service::Nearest => "nearest"@,
        Service::Table => "table"@,
        Service::Match => "match"@,
        Service::Trip => "trip"@,
        Service::Tile => "tile"@,
    }
}

impl Service {
    /// The name of this service in a URL.
    pub fn token(self) -> (r: &'static str)
        ensures
            r@ == service_token(self),
    {
        match self {
            Service::Route => "route",
            Service::Nearest => "nearest",
            Service::Table => "table",
            Service::Match => "match",
            Service::Trip => "trip",
            Service::Tile => "tile",
        }
    }
}

impl WireForm for Service {
    open spec fn wire_spec(&self) -> Seq<char> {
        service_token(*self)
    }

    fn wire(&self) -> (r: String) {
        String::from_str(self.token())
    }
}

/// Mode of transportation of a routing graph.
#[derive(Debug, Clone, Copy, PartialEq, Eq, Structural)]
pub enum Profile {
    /// Traveling by driving a car
    Car,
    /// Traveling by riding a bike
    Bike,
    /// Traveling on bare foot
    Foot,
}

impl WireForm for Profile {
    open spec fn wire_spec(&self) -> Seq<char> {
        match *self {
            Profile::Car => "car"@,
            Profile::Bike => "bike"@,
            Profile::Foot => "foot"@,
        }
    }

    fn wire(&self) -> (r: String) {
        match self {
            Profile::Car => String::from_str("car"),
            Profile::Bike => String::from_str("bike"),
            Profile::Foot => String::from_str("foot"),
        }
    }
}

/// Limits the search to segments with a given bearing, in degrees towards
/// true north, clockwise.
#[derive(Debug, Clone, Copy, PartialEq, Eq, Structural)]
pub struct BearingRequest {
    /// A value in the range 0..360
    pub value: u16,
    /// A value in the range 0..180
    pub range: u16,
}

impl WireForm for BearingRequest {
    open spec fn wire_spec(&self) -> Seq<char> {
        decimal_text(self.value as nat) + seq![','] + decimal_text(self.range as nat)
    }

    fn wire(&self) -> (r: String) {
        let mut s = u64_text(self.value as u64);
        let range = u64_text(self.range as u64);
        proof {
            reveal_strlit(",");
        }
        s.append(",");
        s.append(range.as_str());
        s
    }
}

/// Limits the search to a given radius in meters.
#[derive(Debug)]
pub enum Radius {
    /// The default value
    Unlimited,
    /// Limits the search to a radius of that many meters (at least 0)
    Limited(Decimal),
}

impl Default for Radius {
    fn default() -> (r: Radius)
        ensures
            r is Unlimited,
    {
        Radius::Unlimited
    }
}

impl WireForm for Radius {
    open spec fn wire_spec(&self) -> Seq<char> {
        match self {
            Radius::Unlimited => "unlimited"@,
            Radius::Limited(x) => x@,
        }
    }

    fn wire(&self) -> (r: String) {
        match self {
            Radius::Unlimited => String::from_str("unlimited"),
            Radius::Limited(x) => x.wire(),
        }
    }
}

/// Keep waypoints on curb side.
#[derive(Debug, Clone, Copy, PartialEq, Eq, Structural)]
pub enum Approach {
    Unrestricted,
    Curb,
}

impl Default for Approach {
    fn default() -> (r: Approach)
        ensures
            r == Approach::Unrestricted,
    {
        Approach::Unrestricted
    }
}

impl WireForm for Approach {
    open spec fn wire_spec(&self) -> Seq<char> {
        match *self {
            Approach::Unrestricted => "unrestricted"@,
            Approach::Curb => "curb"@,
        }
    }

    fn wire(&self) -> (r: String) {
        match self {
            Approach::Unrestricted => String::from_str("unrestricted"),
            Approach::Curb => String::from_str("curb"),
        }
    }
}

/// `Default` snapping avoids `is_startpoint` edges; `Any` snaps to any edge
/// of the graph.
#[derive(Debug, Clone, Copy, PartialEq, Eq, Structural)]
pub enum Snapping {
    Default,
    Any,
}

impl Default for Snapping {
    fn default() -> (r: Snapping)
        ensures
            r == Snapping::Default,
    {
        Snapping::Default
    }
}

impl WireForm for Snapping {
    open spec fn wire_spec(&self) -> Seq<char> {
        match *self {
            Snapping::Default => "default"@,
            Snapping::Any => "any"@,
        }
    }

    fn wire(&self) -> (r: String) {
        match self {
            Snapping::Default => String::from_str("default"),
            Snapping::Any => String::from_str("any"),
        }
    }
}

/// One `(name, value)` pair of an option table, as text.
pub type OptionPair = (Seq<char>, Seq<char>);

/// The text of an option table.
pub open spec fn pairs_view(v: Seq<(&'static str, String)>) -> Seq<OptionPair> {
    v.map_values(|p: (&'static str, String)| (p.0@, p.1@))
}

/// An option that is always sent, with its boolean text.
pub open spec fn flag_entry(name: Seq<char>, b: bool) -> Seq<OptionPair> {
    seq![(name, b.wire_spec())]
}

/// An option that is sent only where it is set, with its wire text.
pub open spec fn opt_entry<T: WireForm>(name: Seq<char>, v: Option<T>) -> Seq<OptionPair> {
    match v {
        Some(x) => seq![(name, x.wire_spec())],
        None => Seq::empty(),
    }
}

/// A list option that is sent only where it is set, its elements joined by
/// `;`; an empty list is sent with an empty value.
pub open spec fn list_entry<T: WireForm>(name: Seq<char>, v: Option<Vec<T>>) -> Seq<OptionPair> {
    match v {
        Some(xs) => seq![(name, join_wire(xs@))],
        None => Seq::empty(),
    }
}

proof fn lemma_pairs_view_push(v: Seq<(&'static str, String)>, p: (&'static str, String))
    ensures
        pairs_view(v.push(p)) == pairs_view(v).push((p.0@, p.1@)),
{
    assert(pairs_view(v.push(p)) =~= pairs_view(v).push((p.0@, p.1@)));
}

/// Appends an option that is always sent.
pub fn push_flag(opts: &mut Vec<(&'static str, String)>, name: &'static str, b: bool)
    ensures
        pairs_view(final(opts)@) == pairs_view(old(opts)@) + flag_entry(name@, b),
{
    let value = b.wire();
    let ghost before = opts@;
    opts.push((name, value));
    proof {
        lemma_pairs_view_push(before, (name, value));
        assert(pairs_view(before) + flag_entry(name@, b) =~= pairs_view(before).push((name@, value@)));
    }
}

/// Appends an option where it is set.
pub fn push_opt<T: WireForm>(opts: &mut Vec<(&'static str, String)>, name: &'static str, v: &Option<T>)
    ensures
        pairs_view(final(opts)@) == pairs_view(old(opts)@) + opt_entry(name@, *v),
{
    let ghost before = opts@;
    match v {
        Some(x) => {
            let value = x.wire();
            opts.push((name, value));
            proof {
                lemma_pairs_view_push(before, (name, value));
                assert(pairs_view(before) + opt_entry(name@, *v) =~= pairs_view(before).push((name@, value@)));
            }
        },
        None => {
            assert(pairs_view(before) + opt_entry(name@, *v) =~= pairs_view(before));
        },
    }
}

/// Appends a list option where it is set.
pub fn push_list<T: WireForm>(
    opts: &mut Vec<(&'static str, String)>,
    name: &'static str,
    v: &Option<Vec<T>>,
)
    ensures
        pairs_view(final(opts)@) == pairs_view(old(opts)@) + list_entry(name@, *v),
{
    let ghost before = opts@;
    match v {
        Some(xs) => {
            let value = multi(xs.as_slice());
            opts.push((name, value));
            proof {
                lemma_pairs_view_push(before, (name, value));
                assert(pairs_view(before) + list_entry(name@, *v) =~= pairs_view(before).push((name@, value@)));
            }
        },
        None => {
            assert(pairs_view(before) + list_entry(name@, *v) =~= pairs_view(before));
        },
    }
}

/// The options that every request may carry.
#[derive(Debug)]
pub struct GeneralOptions {
    /// Limits the search to segments with given bearing in degrees towards true north in clockwise direction.
    pub bearings: Option<Vec<BearingRequest>>,
    /// Limits the search to given radius in meters.
    pub radiuses: Option<Vec<Radius>>,
    /// Adds a hint to the response which can be used in subsequent requests.
    pub generate_hints: bool,
    /// Hints from an earlier request to derive positions in the street network.
    pub hints: Option<Vec<Hint>>,
    /// Keep waypoints on curb side.
    pub approaches: Option<Vec<Approach>>,
    /// Additive list of classes to avoid, order does not matter.
    pub exclude: Option<Vec<String>>,
    /// Which edges the coordinates may snap to.
    pub snapping: Option<Snapping>,
    /// Removes waypoints from the response; they are still computed.
    pub skip_waypoints: bool,
}

impl Default for GeneralOptions {
    fn default() -> (r: GeneralOptions)
        ensures
            r.bearings is None,
            r.radiuses is None,
            r.generate_hints,
            r.hints is None,
            r.approaches is None,
            r.exclude is None,
            r.snapping is None,
            !r.skip_waypoints,
    {
        GeneralOptions {
            bearings: None,
            radiuses: None,
            generate_hints: true,
            hints: None,
            approaches: None,
            exclude: None,
            snapping: None,
            skip_waypoints: false,
        }
    }
}

/// The option table of the general options, in order.
pub open spec fn general_options_spec(g: GeneralOptions) -> Seq<OptionPair> {
    list_entry("bearings"@, g.bearings) + list_entry("radiuses"@, g.radiuses) + flag_entry(
        "generate_hints"@,
        g.generate_hints,
    ) + list_entry("hints"@, g.hints) + list_entry("approaches"@, g.approaches) + list_entry(
        "exclude"@,
        g.exclude,
    ) + opt_entry("snapping"@, g.snapping) + flag_entry("skip_waypoints"@, g.skip_waypoints)
}

impl GeneralOptions {
    /// Appends the option table of these options to `opts`.
    pub fn add_general_options(&self, opts: &mut Vec<(&'static str, String)>)
        ensures
            pairs_view(final(opts)@) == pairs_view(old(opts)@) + general_options_spec(*self),
    {
        let ghost start = pairs_view(opts@);
        push_list(opts, "bearings", &self.bearings);
        push_list(opts, "radiuses", &self.radiuses);
        push_flag(opts, "generate_hints", self.generate_hints);
        push_list(opts, "hints", &self.hints);
        push_list(opts, "approaches", &self.approaches);
        push_list(opts, "exclude", &self.exclude);
        push_opt(opts, "snapping", &self.snapping);
        push_flag(opts, "skip_waypoints", self.skip_waypoints);
        assert(pairs_view(opts@) =~= start + general_options_spec(*self));
    }
}

/// The number of pairs named `n` in an option table.
#[verifier::opaque]
pub open spec fn count_name(s: Seq<OptionPair>, n: Seq<char>) -> nat
    decreases s.len(),
{
    if s.len() == 0 {
        0
    } else {
        count_name(s.drop_last(), n) + if s.last().0 == n {
            1nat
        } else {
            0nat
        }
    }
}

/// Counting the pairs of a name splits over concatenation.
pub broadcast proof fn lemma_count_name_concat(a: Seq<OptionPair>, b: Seq<OptionPair>, n: Seq<char>)
    ensures
        #[trigger] count_name(a + b, n) == count_name(a, n) + count_name(b, n),
    decreases b.len(),
{
    reveal(count_name);
    if b.len() > 0 {
        assert((a + b).drop_last() == a + b.drop_last());
        lemma_count_name_concat(a, b.drop_last(), n);
    } else {
        assert(a + b == a);
    }
}

/// A table of one pair counts that pair's name once.
pub broadcast proof fn lemma_count_name_single(p: OptionPair, n: Seq<char>)
    ensures
        #[trigger] count_name(seq![p], n) == if p.0 == n {
            1nat
        } else {
            0nat
        },
{
    reveal(count_name);
    assert(seq![p].drop_last() =~= Seq::<OptionPair>::empty());
    assert(count_name(Seq::<OptionPair>::empty(), n) == 0);
    assert(seq![p].last() == p);
}

/// An option that is always sent counts its name once.
pub broadcast proof fn lemma_count_flag_entry(k: Seq<char>, b: bool, n: Seq<char>)
    ensures
        #[trigger] count_name(flag_entry(k, b), n) == if k == n {
            1nat
        } else {
            0nat
        },
{
    lemma_count_name_single((k, b.wire_spec()), n);
}

/// An option sent only where it is set counts its name once where it is set.
pub broadcast proof fn lemma_count_opt_entry<T: WireForm>(k: Seq<char>, v: Option<T>, n: Seq<char>)
    ensures
        #[trigger] count_name(opt_entry(k, v), n) == if v is Some && k == n {
            1nat
        } else {
            0nat
        },
{
    reveal(count_name);
    if let Some(x) = v {
        lemma_count_name_single((k, x.wire_spec()), n);
    }
}

/// A list option counts its name once where it is set.
pub broadcast proof fn lemma_count_list_entry<T: WireForm>(
    k: Seq<char>,
    v: Option<Vec<T>>,
    n: Seq<char>,
)
    ensures
        #[trigger] count_name(list_entry(k, v), n) == if v is Some && k == n {
            1nat
        } else {
            0nat
        },
{
    reveal(count_name);
    if let Some(xs) = v {
        lemma_count_name_single((k, join_wire(xs@)), n);
    }
}

/// 1 where `c` holds, else 0.
pub open spec fn one_if(c: bool) -> nat {
    if c {
        1
    } else {
        0
    }
}

/// The number of pairs named `n` in the general option table.
pub proof fn lemma_general_count(g: GeneralOptions, n: Seq<char>)
    ensures
        count_name(general_options_spec(g), n) == one_if(g.bearings is Some && n == "bearings"@)
            + one_if(g.radiuses is Some && n == "radiuses"@) + one_if(n == "generate_hints"@)
            + one_if(g.hints is Some && n == "hints"@) + one_if(
            g.approaches is Some && n == "approaches"@,
        ) + one_if(g.exclude is Some && n == "exclude"@) + one_if(
            g.snapping is Some && n == "snapping"@,
        ) + one_if(n == "skip_waypoints"@),
{
    broadcast use lemma_count_name_concat, lemma_count_flag_entry, lemma_count_opt_entry, lemma_count_list_entry;
}

/// The general option names differ from each other.
pub proof fn lemma_general_names_distinct()
    ensures
        "bearings"@ != "radiuses"@,
        "bearings"@ != "generate_hints"@,
        "bearings"@ != "hints"@,
        "bearings"@ != "approaches"@,
        "bearings"@ != "exclude"@,
        "bearings"@ != "snapping"@,
        "bearings"@ != "skip_waypoints"@,
        "radiuses"@ != "generate_hints"@,
        "radiuses"@ != "hints"@,
        "radiuses"@ != "approaches"@,
        "radiuses"@ != "exclude"@,
        "radiuses"@ != "snapping"@,
        "radiuses"@ != "skip_waypoints"@,
        "generate_hints"@ != "hints"@,
        "generate_hints"@ != "approaches"@,
        "generate_hints"@ != "exclude"@,
        "generate_hints"@ != "snapping"@,
        "generate_hints"@ != "skip_waypoints"@,
        "hints"@ != "approaches"@,
        "hints"@ != "exclude"@,
        "hints"@ != "snapping"@,
        "hints"@ != "skip_waypoints"@,
        "approaches"@ != "exclude"@,
        "approaches"@ != "snapping"@,
        "approaches"@ != "skip_waypoints"@,
        "exclude"@ != "snapping"@,
        "exclude"@ != "skip_waypoints"@,
        "snapping"@ != "skip_waypoints"@,
{
    reveal_strlit("bearings");
    reveal_strlit("radiuses");
    reveal_strlit("generate_hints");
    reveal_strlit("hints");
    reveal_strlit("approaches");
    reveal_strlit("exclude");
    reveal_strlit("snapping");
    reveal_strlit("skip_waypoints");
    assert("bearings"@[0] != "radiuses"@[0]);
    assert("bearings"@.len() != "generate_hints"@.len());
    assert("bearings"@.len() != "hints"@.len());
    assert("bearings"@.len() != "approaches"@.len());
    assert("bearings"@.len() != "exclude"@.len());
    assert("bearings"@[0] != "snapping"@[0]);
    assert("bearings"@.len() != "skip_waypoints"@.len());
    assert("radiuses"@.len() != "generate_hints"@.len());
    assert("radiuses"@.len() != "hints"@.len());
    assert("radiuses"@.len() != "approaches"@.len());
    assert("radiuses"@.len() != "exclude"@.len());
    assert("radiuses"@[0] != "snapping"@[0]);
    assert("radiuses"@.len() != "skip_waypoints"@.len());
    assert("generate_hints"@.len() != "hints"@.len());
    assert("generate_hints"@.len() != "approaches"@.len());
    assert("generate_hints"@.len() != "exclude"@.len());
    assert("generate_hints"@.len() != "snapping"@.len());
    assert("generate_hints"@[0] != "skip_waypoints"@[0]);
    assert("hints"@.len() != "approaches"@.len());
    assert("hints"@.len() != "exclude"@.len());
    assert("hints"@.len() != "snapping"@.len());
    assert("hints"@.len() != "skip_waypoints"@.len());
    assert("approaches"@.len() != "exclude"@.len());
    assert("approaches"@.len() != "snapping"@.len());
    assert("approaches"@.len() != "skip_waypoints"@.len());
    assert("exclude"@.len() != "snapping"@.len());
    assert("exclude"@.len() != "skip_waypoints"@.len());
    assert("snapping"@.len() != "skip_waypoints"@.len());
}

/// In the general options, a field left unset never appears, and
/// `generate_hints` and `skip_waypoints` appear exactly once.
pub proof fn lemma_general_options_presence(g: GeneralOptions)
    ensures
        g.bearings is None ==> count_name(general_options_spec(g), "bearings"@) == 0,
        g.radiuses is None ==> count_name(general_options_spec(g), "radiuses"@) == 0,
        count_name(general_options_spec(g), "generate_hints"@) == 1,
        g.hints is None ==> count_name(general_options_spec(g), "hints"@) == 0,
        g.approaches is None ==> count_name(general_options_spec(g), "approaches"@) == 0,
        g.exclude is None ==> count_name(general_options_spec(g), "exclude"@) == 0,
        g.snapping is None ==> count_name(general_options_spec(g), "snapping"@) == 0,
        count_name(general_options_spec(g), "skip_waypoints"@) == 1,
{
    lemma_general_names_distinct();
    lemma_general_count(g, "bearings"@);
    lemma_general_count(g, "radiuses"@);
    lemma_general_count(g, "generate_hints"@);
    lemma_general_count(g, "hints"@);
    lemma_general_count(g, "approaches"@);
    lemma_general_count(g, "exclude"@);
    lemma_general_count(g, "snapping"@);
    lemma_general_count(g, "skip_waypoints"@);
}

} // verus!
