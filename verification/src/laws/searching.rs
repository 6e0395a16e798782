use crate::ports::PortAllocationError;
use vstd::prelude::*;

verus! {

/// A port that is handed out lies between 30000 and 32767 and was free. It belongs to the pod from
/// then on, and nothing changes for any other port.
pub proof fn law_port_handed_out_was_free(
    before: Map<i32, Seq<char>>,
    pod_name: Seq<char>,
    port: i32,
    after: Map<i32, Seq<char>>,
)
    requires
        crate::ports::port_granted(before, pod_name, port, after),
    ensures
        30000 <= port < 32768,
        !before.contains_key(port),
        after.contains_key(port) && after[port] == pod_name,
        forall|other: i32|
            other != port ==> {
                &&& #[trigger] after.contains_key(other) == before.contains_key(other)
                &&& after.contains_key(other) ==> after[other] == before[other]
            },
{
}

/// A free port between 30000 and 32767 can be handed out, to any pod.
pub proof fn law_free_port_can_be_handed_out(
    held: Map<i32, Seq<char>>,
    pod_name: Seq<char>,
    port: i32,
)
    requires
        30000 <= port < 32768,
        !held.contains_key(port),
    ensures
        !crate::ports::all_ports_taken(held),
        crate::ports::port_granted(held, pod_name, port, held.insert(port, pod_name)),
{
}

/// The ports are used up if and only if every one between 30000 and 32767 is held.
pub proof fn law_ports_are_used_up_when_all_are_held(held: Map<i32, Seq<char>>)
    ensures
        crate::ports::all_ports_taken(held) <==> forall|port: i32|
            30000 <= port < 32768 ==> #[trigger] held.contains_key(port),
{
    if forall|port: i32| 30000 <= port < 32768 ==> #[trigger] held.contains_key(port) {
        assert(crate::ports::all_ports_taken(held));
    }
    if crate::ports::all_ports_taken(held) {
        assert forall|port: i32| 30000 <= port < 32768 implies #[trigger] held.contains_key(
            port,
        ) by {
            assert(crate::ports::in_port_range(port));
        }
    }
}

/// A search gives the first free port that is drawn to the pod, and takes nothing from anyone. It
/// fails only if no free port is drawn, or none within the first 2768 different ones.
pub proof fn law_search_takes_the_first_free_port(
    before: Map<i32, Seq<char>>,
    pod_name: Seq<char>,
    draws: Seq<i32>,
    outcome: Result<i32, PortAllocationError>,
    after: Map<i32, Seq<char>>,
)
    requires
        crate::ports::searched(before, pod_name, draws, outcome, after),
    ensures
        outcome matches Ok(port) ==> {
            &&& exists|k: int|
                {
                    &&& 0 <= k < draws.len()
                    &&& #[trigger] draws[k] == port
                    &&& forall|j: int| 0 <= j < k ==> before.contains_key(#[trigger] draws[j])
                }
            &&& !before.contains_key(port)
            &&& after == before.insert(port, pod_name)
        },
        outcome is Err ==> {
            &&& after == before
            &&& forall|k: int|
                0 <= k < draws.len() && !before.contains_key(#[trigger] draws[k])
                    ==> draws.take(k).to_set().len() >= 2768
        },
{
    let count = choose|count: int|
        {
            &&& #[trigger] crate::ports::search_looks_at(before, draws, count)
            &&& match outcome {
                Ok(port) => {
                    &&& 0 < count && port == draws[count - 1]
                    &&& !before.contains_key(port)
                    &&& after == before.insert(port, pod_name)
                },
                Err(_) => {
                    &&& 0 < count ==> before.contains_key(draws[count - 1])
                    &&& after == before
                },
            }
        };
    assert forall|j: int| 0 <= j < count - 1 implies before.contains_key(#[trigger] draws[j]) by {
        assert(!crate::ports::search_ends(before, draws, j + 1));
    }
    if outcome is Ok {
        assert(draws[count - 1] == outcome->Ok_0);
    } else {
        assert forall|k: int|
            0 <= k < draws.len() && !before.contains_key(#[trigger] draws[k]) implies draws.take(
            k,
        ).to_set().len() >= 2768 by {
            assert(k >= count);
            assert(crate::ports::search_ends(before, draws, count));
            let seen = draws.take(count).to_set();
            let more = draws.take(k).to_set();
            broadcast use vstd::seq_lib::seq_to_set_is_finite;

            assert forall|port: i32| #[trigger] seen.contains(port) implies more.contains(port) by {
                let i = choose|i: int|
                    0 <= i < draws.take(count).len() && draws.take(count)[i] == port;
                assert(draws.take(k)[i] == port);
            }
            vstd::set_lib::lemma_len_subset(seen, more);
        }
    }
}

/// Deleting a pod that holds some port frees a port of this pod.
pub proof fn law_release_frees_a_port_of_the_pod(
    before: Map<i32, Seq<char>>,
    pod_name: Seq<char>,
    freed: i32,
    after: Map<i32, Seq<char>>,
    held: i32,
)
    requires
        crate::ports::port_released(before, pod_name, freed, after),
        before.contains_key(held),
        before[held] == pod_name,
    ensures
        before.contains_key(freed),
        before[freed] == pod_name,
        after == before.remove(freed),
{
    assert(crate::ports::holds_port(before, pod_name));
}

/// Deleting a pod that holds no port leaves every port but 0 as it is.
pub proof fn law_release_without_ports_spares_the_others(
    before: Map<i32, Seq<char>>,
    pod_name: Seq<char>,
    freed: i32,
    after: Map<i32, Seq<char>>,
)
    requires
        crate::ports::port_released(before, pod_name, freed, after),
        forall|port: i32| #[trigger] before.contains_key(port) ==> before[port] != pod_name,
    ensures
        freed == 0,
        after == before.remove(0),
{
}

} // verus!
