use rand::Rng;
use std::collections::{HashMap, HashSet};
use vstd::prelude::*;

verus! {

broadcast use vstd::std_specs::hash::group_hash_axioms;

/// The lowest port handed out to a container that names no host port.
pub const FIRST_PORT: i32 = 30000;

/// One past the highest port handed out to a container that names no host port.
pub const END_PORT: i32 = 32768;

/// How many ports lie between `FIRST_PORT` and `END_PORT`.
pub const PORT_COUNT: usize = 2768;

/// Whether `port` can be handed out to a container that names no host port.
pub open spec fn in_port_range(port: i32) -> bool {
    FIRST_PORT <= port < END_PORT
}

/// No port is left for a container.
#[derive(Debug, Clone, Copy, PartialEq, Eq, Structural)]
pub struct PortAllocationError {}

impl PortAllocationError {
    /// The one value of this type.
    pub fn new() -> (error: PortAllocationError)
        ensures
            error == (PortAllocationError {  }),
    {
        PortAllocationError {  }
    }

    /// What the error says.
    pub fn description(&self) -> (text: &'static str)
        ensures
            text@ == "all ports are currently in use"@,
    {
        "all ports are currently in use"
    }
}

/// The ports of the node that are in use, each with the name of the pod that holds it.
pub struct PortMap {
    ports: HashMap<i32, String>,
}

impl View for PortMap {
    type V = Map<i32, Seq<char>>;

    closed spec fn view(&self) -> Map<i32, Seq<char>> {
        self.ports@.map_values(|name: String| name@)
    }
}

impl PortMap {
    /// Only finitely many ports are in use.
    pub proof fn lemma_finite(&self)
        ensures
            self@.dom().finite(),
    {
        assert(self@.dom() =~= self.ports@.dom());
    }

    /// A map in which every port is free.
    pub fn new() -> (map: PortMap)
        ensures
            map@ == Map::<i32, Seq<char>>::empty(),
    {
        let map = PortMap { ports: HashMap::new() };
        assert(map@ =~= Map::<i32, Seq<char>>::empty());
        map
    }

    /// Whether some pod holds `port`.
    pub fn is_taken(&self, port: i32) -> (taken: bool)
        ensures
            taken == self@.contains_key(port),
    {
        self.ports.contains_key(&port)
    }

    /// The name of the pod that holds `port`.
    pub fn holder(&self, port: i32) -> (name: Option<&String>)
        ensures
            match name {
                Some(name) => self@.contains_key(port) && self@[port] == name@,
                None => !self@.contains_key(port),
            },
    {
        self.ports.get(&port)
    }

    /// Gives `port` to the pod, whoever held it.
    pub fn insert(&mut self, port: i32, pod_name: String)
        ensures
            final(self)@ == old(self)@.insert(port, pod_name@),
    {
        self.ports.insert(port, pod_name);
        assert(self@ =~= old(self)@.insert(port, pod_name@));
    }

    /// Frees one port of the pod and returns it. A pod that holds several ports keeps the others;
    /// which of its ports is freed is not determined. For a pod that holds none, port 0 is freed.
    pub fn release(&mut self, pod_name: &String) -> (port: i32)
        ensures
            port_released(old(self)@, pod_name@, port, final(self)@),
    {
        let mut delete_key: i32 = 0;
        let ghost held = self@;
        let ghost mut found = false;
        for entry in entries: self.ports.iter()
            invariant
                held == self@,
                entries.seq() == vstd::std_specs::iter::IteratorSpec::remaining(&self.ports.iter()),
                found ==> held.contains_key(delete_key) && held[delete_key] == pod_name@,
                !found ==> delete_key == 0,
                !found ==> forall|i: int|
                    0 <= i < entries.index() ==> (#[trigger] entries.seq()[i]).1@ != pod_name@,
        {
            let (key, val) = entry;
            assert(entry == entries.seq()[entries.index()]);
            if *val == *pod_name {
                delete_key = *key;
                proof {
                    found = true;
                    assert(self.ports@.contains_key(*entries.seq()[entries.index()].0));
                }
            }
        }
        proof {
            let seen = vstd::std_specs::iter::IteratorSpec::remaining(&self.ports.iter());
            assert forall|port: i32| #[trigger] held.contains_key(port) && held[port]
                == pod_name@ implies found by {
                assert(seen.contains((&port, &self.ports@[port])));
            }
        }
        self.ports.remove(&delete_key);
        assert(self@ =~= held.remove(delete_key));
        delete_key
    }
}

/// Whether some port is held by the pod.
pub open spec fn holds_port(held: Map<i32, Seq<char>>, pod_name: Seq<char>) -> bool {
    exists|port: i32| #[trigger] held.contains_key(port) && held[port] == pod_name
}

/// Whether freeing `port` for the pod leads from `before` to `after`: one of the pod's ports is
/// free again, or port 0 if the pod holds none.
pub open spec fn port_released(
    before: Map<i32, Seq<char>>,
    pod_name: Seq<char>,
    port: i32,
    after: Map<i32, Seq<char>>,
) -> bool {
    &&& if holds_port(before, pod_name) {
        before.contains_key(port) && before[port] == pod_name
    } else {
        port == 0
    }
    &&& after == before.remove(port)
}

/// A search for a free port, one port at a time.
pub struct PortSearch {
    /// The ports looked at so far.
    pub tried: HashSet<i32>,
    /// The port looked at last.
    pub port: Option<i32>,
    /// Whether the port looked at last was free.
    pub found: bool,
}

impl PortSearch {
    /// Whether the search has ended: on a free port, or after as many different ports as there are.
    pub open spec fn over(&self) -> bool {
        self.found || self.tried@.len() >= PORT_COUNT
    }

    /// A search that has not looked at any port.
    pub fn new() -> (search: PortSearch)
        ensures
            search.tried@ == Set::<i32>::empty(),
            search.port == None::<i32>,
            !search.found,
    {
        PortSearch { tried: HashSet::new(), port: None, found: false }
    }

    /// Whether the search has ended.
    pub fn is_over(&self) -> (over: bool)
        ensures
            over == self.over(),
    {
        self.found || self.tried.len() >= PORT_COUNT
    }

    /// Looks at one port, and gives it to the pod if it is free.
    pub fn probe(&mut self, port_map: &mut PortMap, generated_port: i32, pod_name: &String)
        ensures
            final(self).tried@ == old(self).tried@.insert(generated_port),
            final(self).port == Some(generated_port),
            final(self).found == !old(port_map)@.contains_key(generated_port),
            final(port_map)@ == if old(port_map)@.contains_key(generated_port) {
                old(port_map)@
            } else {
                old(port_map)@.insert(generated_port, pod_name@)
            },
    {
        self.port = Some(generated_port);
        self.tried.insert(generated_port);
        self.found = !port_map.is_taken(generated_port);
        if self.found {
            port_map.insert(generated_port, pod_name.clone());
        }
    }

    /// The port looked at last if it was free, or else the error.
    pub fn outcome(&self) -> (outcome: Result<i32, PortAllocationError>)
        ensures
            outcome == match self.port {
                Some(port) if self.found => Ok::<i32, PortAllocationError>(port),
                _ => Err(PortAllocationError {  }),
            },
    {
        match self.port {
            Some(port) if self.found => Ok(port),
            _ => Err(PortAllocationError::new()),
        }
    }
}

/// Whether a search through `draws` ends with the one before position `count`.
pub open spec fn search_ends(held: Map<i32, Seq<char>>, draws: Seq<i32>, count: int) -> bool {
    0 < count && (!held.contains_key(draws[count - 1]) || draws.take(count).to_set().len()
        >= PORT_COUNT)
}

/// Whether a search through `draws` looks at exactly the first `count` of them.
pub open spec fn search_looks_at(held: Map<i32, Seq<char>>, draws: Seq<i32>, count: int) -> bool {
    &&& 0 <= count <= draws.len()
    &&& count == draws.len() || search_ends(held, draws, count)
    &&& forall|earlier: int|
        0 <= earlier < count ==> !#[trigger] search_ends(held, draws, earlier)
}

/// Whether a search through `draws` for the pod leads from `before` to `after` with this outcome: a
/// free port at which the search has ended now belongs to the pod, and else nothing is given away.
pub open spec fn searched(
    before: Map<i32, Seq<char>>,
    pod_name: Seq<char>,
    draws: Seq<i32>,
    outcome: Result<i32, PortAllocationError>,
    after: Map<i32, Seq<char>>,
) -> bool {
    exists|count: int|
        {
            &&& #[trigger] search_looks_at(before, draws, count)
            &&& match outcome {
                Ok(port) => {
                    &&& 0 < count && port == draws[count - 1]
                    &&& !before.contains_key(port)
                    &&& after == before.insert(port, pod_name)
                },
                Err(_) => {
                    &&& 0 < count ==> before.contains_key(draws[count - 1])
                    &&& after == before
                },
            }
        }
}

/// What a search knows once it has looked at each of `draws` and did not end before the last one.
spec fn looked_at(
    search: PortSearch,
    held: Map<i32, Seq<char>>,
    pod_name: Seq<char>,
    draws: Seq<i32>,
    now: Map<i32, Seq<char>>,
) -> bool {
    &&& search.tried@ == draws.to_set()
    &&& search.port == if draws.len() == 0 {
        None::<i32>
    } else {
        Some(draws.last())
    }
    &&& search.found == (0 < draws.len() && !held.contains_key(draws.last()))
    &&& now == if search.found {
        held.insert(draws.last(), pod_name)
    } else {
        held
    }
    &&& forall|earlier: int|
        0 <= earlier < draws.len() ==> !#[trigger] search_ends(held, draws, earlier)
}

/// A search ends at a place or not, whatever is drawn after it.
proof fn lemma_search_prefix(held: Map<i32, Seq<char>>, draws: Seq<i32>, length: int, count: int)
    requires
        0 <= count <= length <= draws.len(),
    ensures
        search_ends(held, draws.take(length), count) == search_ends(held, draws, count),
{
    assert(draws.take(length).take(count) =~= draws.take(count));
}

/// A search that has looked at each of `draws` is over if it ends there.
proof fn lemma_over(
    search: PortSearch,
    held: Map<i32, Seq<char>>,
    pod_name: Seq<char>,
    draws: Seq<i32>,
    now: Map<i32, Seq<char>>,
)
    requires
        looked_at(search, held, pod_name, draws, now),
    ensures
        search.over() == search_ends(held, draws, draws.len() as int),
{
    assert(draws.take(draws.len() as int) =~= draws);
    if draws.len() == 0 {
        assert(draws.to_set() =~= Set::<i32>::empty());
    }
}

/// A search that is not over looks at one more port.
proof fn lemma_probed(
    before: PortSearch,
    held: Map<i32, Seq<char>>,
    pod_name: Seq<char>,
    draws: Seq<i32>,
    now: Map<i32, Seq<char>>,
    port: i32,
    after: PortSearch,
    then_held: Map<i32, Seq<char>>,
)
    requires
        looked_at(before, held, pod_name, draws, now),
        !before.over(),
        after.tried@ == before.tried@.insert(port),
        after.port == Some(port),
        after.found == !held.contains_key(port),
        then_held == if held.contains_key(port) {
            held
        } else {
            held.insert(port, pod_name)
        },
    ensures
        looked_at(after, held, pod_name, draws.push(port), then_held),
{
    let longer = draws.push(port);
    draws.lemma_push_to_set_commute(port);
    lemma_over(before, held, pod_name, draws, now);
    assert(longer.take(draws.len() as int) =~= draws);
    assert forall|earlier: int| 0 <= earlier < longer.len() implies !#[trigger] search_ends(
        held,
        longer,
        earlier,
    ) by {
        lemma_search_prefix(held, longer, draws.len() as int, earlier);
        assert(!search_ends(held, draws, earlier));
    }
}

/// Looks at the drawn ports in turn and gives the first free one to the pod. The search ends early
/// once it has seen `PORT_COUNT` different ports.
pub fn find_port_among(port_map: &mut PortMap, pod_name: &String, draws: &Vec<i32>) -> (outcome:
    Result<i32, PortAllocationError>)
    ensures
        searched(old(port_map)@, pod_name@, draws@, outcome, final(port_map)@),
{
    let mut search = PortSearch::new();
    let mut count: usize = 0;
    let ghost held = port_map@;
    assert(draws@.take(0).to_set() =~= Set::<i32>::empty());
    while count < draws.len() && !search.is_over()
        invariant
            held == old(port_map)@,
            0 <= count <= draws@.len(),
            looked_at(search, held, pod_name@, draws@.take(count as int), port_map@),
        decreases draws@.len() - count,
    {
        let ghost before = search;
        let ghost now = port_map@;
        search.probe(port_map, draws[count], pod_name);
        proof {
            let shorter = draws@.take(count as int);
            assert(draws@.take(count + 1) =~= shorter.push(draws@[count as int]));
            lemma_probed(
                before,
                held,
                pod_name@,
                shorter,
                now,
                draws@[count as int],
                search,
                port_map@,
            );
        }
        count = count + 1;
    }
    proof {
        let seen = draws@.take(count as int);
        lemma_over(search, held, pod_name@, seen, port_map@);
        assert forall|earlier: int| 0 <= earlier < count implies !#[trigger] search_ends(
            held,
            draws@,
            earlier,
        ) by {
            lemma_search_prefix(held, draws@, count as int, earlier);
            assert(!search_ends(held, seen, earlier));
        }
        lemma_search_prefix(held, draws@, count as int, count as int);
        assert(search_looks_at(held, draws@, count as int));
    }
    search.outcome()
}

/// Draws a number with `rand::Rng::gen_range` from the generator of `rand::thread_rng`. Of the
/// number it is only claimed that it is at least `low` and below `high`: which one it is, is left
/// to chance. An empty range, on which `gen_range` panics, is ruled out. That the system has the
/// entropy to seed the generator, without which `thread_rng` panics, no argument decides.
#[verifier::external_body]
fn draw_between(low: i32, high: i32) -> (drawn: i32)
    requires
        low < high,
    ensures
        low <= drawn < high,
{
    rand::thread_rng().gen_range(low, high)
}

/// Whether every port that can be handed out is in use.
pub open spec fn all_ports_taken(held: Map<i32, Seq<char>>) -> bool {
    forall|port: i32| in_port_range(port) ==> #[trigger] held.contains_key(port)
}

/// Whether handing out `port` to the pod leads from `before` to `after`: a port that was free now
/// belongs to the pod.
pub open spec fn port_granted(
    before: Map<i32, Seq<char>>,
    pod_name: Seq<char>,
    port: i32,
    after: Map<i32, Seq<char>>,
) -> bool {
    &&& in_port_range(port)
    &&& !before.contains_key(port)
    &&& after == before.insert(port, pod_name)
}

/// Whether each of the draws is a port that can be handed out.
pub open spec fn all_in_port_range(draws: Seq<i32>) -> bool {
    forall|i: int| 0 <= i < draws.len() ==> in_port_range(#[trigger] draws[i])
}

/// Finds a free port by drawing ports at random, and gives it to the pod; if every port is in use,
/// there is none to be found. Should the draws not come across every port, the ports are looked at
/// in order.
pub fn find_available_port(port_map: &mut PortMap, pod_name: String) -> (outcome: Result<
    i32,
    PortAllocationError,
>)
    ensures
        match outcome {
            Ok(port) => port_granted(old(port_map)@, pod_name@, port, final(port_map)@),
            Err(_) => all_ports_taken(old(port_map)@) && final(port_map)@ == old(port_map)@,
        },
        exists|draws: Seq<i32>|
            {
                &&& all_in_port_range(draws)
                &&& search_ends(old(port_map)@, draws, draws.len() as int)
                &&& #[trigger] searched(
                    old(port_map)@,
                    pod_name@,
                    draws,
                    outcome,
                    final(port_map)@,
                )
            },
{
    let mut search = PortSearch::new();
    let mut draws_left: u64 = u64::MAX;
    let ghost held = port_map@;
    let ghost mut draws: Seq<i32> = seq![];
    assert(draws.to_set() =~= Set::<i32>::empty());
    while draws_left > 0 && !search.is_over()
        invariant
            all_in_port_range(draws),
            looked_at(search, held, pod_name@, draws, port_map@),
        decreases draws_left,
    {
        let ghost before = search;
        let ghost now = port_map@;
        let generated_port: i32 = draw_between(FIRST_PORT, END_PORT);
        search.probe(port_map, generated_port, &pod_name);
        proof {
            lemma_probed(
                before,
                held,
                pod_name@,
                draws,
                now,
                generated_port,
                search,
                port_map@,
            );
            draws = draws.push(generated_port);
        }
        draws_left = draws_left - 1;
    }
    let mut next_port: i32 = FIRST_PORT;
    while next_port < END_PORT && !search.is_over()
        invariant
            FIRST_PORT <= next_port <= END_PORT,
            all_in_port_range(draws),
            looked_at(search, held, pod_name@, draws, port_map@),
            forall|port: i32|
                FIRST_PORT <= port < next_port ==> #[trigger] search.tried@.contains(port)
                    || search.over(),
        decreases END_PORT - next_port,
    {
        let ghost before = search;
        let ghost now = port_map@;
        search.probe(port_map, next_port, &pod_name);
        proof {
            lemma_probed(before, held, pod_name@, draws, now, next_port, search, port_map@);
            draws = draws.push(next_port);
        }
        next_port = next_port + 1;
    }
    proof {
        lemma_port_range();
        let range = Set::new(|port: i32| in_port_range(port));
        assert(search.tried@.subset_of(range)) by {
            assert forall|port: i32| #[trigger] search.tried@.contains(port) implies range.contains(
                port,
            ) by {
                let i = choose|i: int| 0 <= i < draws.len() && draws[i] == port;
                assert(in_port_range(draws[i]));
            }
        }
        if !search.over() {
            assert(search.tried@ =~= range);
        }
        lemma_over(search, held, pod_name@, draws, port_map@);
        if !search.found {
            vstd::set_lib::lemma_len_subset(search.tried@, range);
            vstd::set_lib::lemma_subset_equality(search.tried@, range);
            assert forall|port: i32| in_port_range(port) implies #[trigger] held.contains_key(
                port,
            ) by {
                assert(search.tried@.contains(port));
                let i = choose|i: int| 0 <= i < draws.len() && draws[i] == port;
                if i < draws.len() - 1 {
                    assert(!search_ends(held, draws, i + 1));
                }
            }
        }
        assert(search_looks_at(held, draws, draws.len() as int));
        assert(search.found ==> in_port_range(draws[draws.len() - 1]));
    }
    let outcome = search.outcome();
    assert(searched(held, pod_name@, draws, outcome, port_map@));
    outcome
}

/// There are `PORT_COUNT` ports that can be handed out.
pub proof fn lemma_port_range()
    ensures
        Set::new(|port: i32| in_port_range(port)).finite(),
        Set::new(|port: i32| in_port_range(port)).len() == PORT_COUNT,
{
    let range = Set::new(|port: i32| in_port_range(port));
    let ints = vstd::set_lib::set_int_range(FIRST_PORT as int, END_PORT as int);
    let narrow = |i: int| i as i32;
    vstd::set_lib::lemma_int_range(FIRST_PORT as int, END_PORT as int);
    assert forall|port: i32| #[trigger] range.contains(port) implies ints.map(narrow).contains(
        port,
    ) by {
        assert(ints.contains(port as int) && narrow(port as int) == port);
    }
    assert(ints.map(narrow) =~= range);
    vstd::set_lib::lemma_map_size(ints, range, narrow);
}

} // verus!
