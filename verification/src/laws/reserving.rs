use crate::assignment::assign_ports;
use crate::error::ProviderError;
use crate::pod::{Container, ContainerPort, Pod};
use crate::ports::{find_available_port, find_port_among, PortAllocationError, PortMap};
use crate::provider::WasccProvider;
use vstd::prelude::*;

verus! {

/// `find_available_port` gives a free port between 30000 and 32767 to the pod, and changes nothing
/// else; it fails, and changes nothing, if and only if all of these ports are held.
pub proof fn law_available_port_is_found(
    port_map: &mut PortMap,
    pod_name: String,
    outcome: Result<i32, PortAllocationError>,
)
    requires
        call_ensures(find_available_port, (port_map, pod_name), outcome),
    ensures
        outcome matches Ok(port) ==> {
            &&& 30000 <= port < 32768
            &&& !old(port_map)@.contains_key(port)
            &&& final(port_map)@ == old(port_map)@.insert(port, pod_name@)
        },
        outcome is Err ==> final(port_map)@ == old(port_map)@,
        outcome is Err <==> forall|port: i32|
            30000 <= port < 32768 ==> #[trigger] old(port_map)@.contains_key(port),
{
    crate::laws::searching::law_ports_are_used_up_when_all_are_held(old(port_map)@);
}

/// `find_port_among` gives the first free one of the draws to the pod. It fails, and changes
/// nothing, only if none of them is free, or none within the first 2768 different ones.
pub proof fn law_first_free_draw_is_taken(
    port_map: &mut PortMap,
    pod_name: &String,
    draws: &Vec<i32>,
    outcome: Result<i32, PortAllocationError>,
)
    requires
        call_ensures(find_port_among, (port_map, pod_name, draws), outcome),
    ensures
        outcome matches Ok(port) ==> {
            &&& exists|k: int|
                {
                    &&& 0 <= k < draws@.len()
                    &&& #[trigger] draws@[k] == port
                    &&& forall|j: int|
                        0 <= j < k ==> old(port_map)@.contains_key(#[trigger] draws@[j])
                }
            &&& !old(port_map)@.contains_key(port)
            &&& final(port_map)@ == old(port_map)@.insert(port, pod_name@)
        },
        outcome is Err ==> {
            &&& final(port_map)@ == old(port_map)@
            &&& forall|k: int|
                0 <= k < draws@.len() && !old(port_map)@.contains_key(#[trigger] draws@[k])
                    ==> draws@.take(k).to_set().len() >= 2768
        },
{
    crate::laws::searching::law_search_takes_the_first_free_port(
        old(port_map)@,
        pod_name@,
        draws@,
        outcome,
        final(port_map)@,
    );
}

/// Whether serving the listed ports for the pod leads from `before` to `after` and leaves `port` as
/// the port assigned last: no port leaves its holder, the ports that become held are the pod's, each
/// host port that is named was free and is the pod's, and so is, for each other port between 0 and
/// 65536, one between 30000 and 32767; `port` goes with the last of them, or is 0.
pub open spec fn reserved(
    before: Map<i32, Seq<char>>,
    pod_name: Seq<char>,
    listed: Seq<ContainerPort>,
    port: i32,
    after: Map<i32, Seq<char>>,
) -> bool {
    &&& before.submap_of(after)
    &&& forall|key: i32| #[trigger]
        after.contains_key(key) && !before.contains_key(key) ==> after[key] == pod_name
    &&& before.dom().finite() ==> after.dom().len() == before.dom().len()
        + crate::laws::usable_count(listed)
    &&& forall|i: int|
        #![trigger listed[i]]
        0 <= i < listed.len() && (listed[i].host_port is Some || 0 <= listed[i].container_port
            <= 65536) ==> exists|given: i32|
            {
                &&& listed[i].host_port is Some ==> listed[i].host_port == Some(given)
                &&& listed[i].host_port is None ==> 30000 <= given < 32768
                &&& !before.contains_key(given)
                &&& #[trigger] after.contains_key(given)
                &&& (forall|j: int|
                    i < j < listed.len() ==> (#[trigger] listed[j]).host_port is None && !(0
                        <= listed[j].container_port <= 65536)) ==> port == given
            }
    &&& (forall|j: int|
        0 <= j < listed.len() ==> (#[trigger] listed[j]).host_port is None && !(0
            <= listed[j].container_port <= 65536)) ==> port == 0 && after == before
}

proof fn lemma_reserved(
    before: Map<i32, Seq<char>>,
    pod_name: Seq<char>,
    listed: Seq<ContainerPort>,
    port: i32,
    after: Map<i32, Seq<char>>,
)
    requires
        crate::assignment::ports_served(before, pod_name, listed, port, after),
    ensures
        reserved(before, pod_name, listed, port, after),
{
    crate::laws::law_assignment_keeps_holders(before, pod_name, listed, port, after);
    if before.dom().finite() {
        crate::laws::law_each_listed_port_reserves_one(before, pod_name, listed, port, after);
    }
    assert forall|i: int|
        #![trigger listed[i]]
        0 <= i < listed.len() && (listed[i].host_port is Some || 0 <= listed[i].container_port
            <= 65536) implies exists|given: i32|
        {
            &&& listed[i].host_port is Some ==> listed[i].host_port == Some(given)
            &&& listed[i].host_port is None ==> 30000 <= given < 32768
            &&& !before.contains_key(given)
            &&& #[trigger] after.contains_key(given)
            &&& (forall|j: int|
                i < j < listed.len() ==> (#[trigger] listed[j]).host_port is None && !(0
                    <= listed[j].container_port <= 65536)) ==> port == given
        } by {
        let given = crate::laws::assigning::lemma_given(before, pod_name, listed, port, after, i);
        assert(after.contains_key(given));
    }
    if forall|j: int|
        0 <= j < listed.len() ==> (#[trigger] listed[j]).host_port is None && !(0
            <= listed[j].container_port <= 65536) {
        crate::laws::assigning::lemma_all_passed_over(before, pod_name, listed, port, after);
    }
}

/// Whether serving the ports of the container for the pod may lead from `before` to `after` with
/// this outcome: all of them are reserved, or those in front of one that the error complains about.
pub open spec fn reserved_or_refused(
    before: Map<i32, Seq<char>>,
    pod_name: Seq<char>,
    container: Container,
    outcome: Result<i32, ProviderError>,
    after: Map<i32, Seq<char>>,
) -> bool {
    match outcome {
        Ok(port) => match container.ports {
            Some(ports) => reserved(before, pod_name, ports@, port, after),
            None => port == 0 && after == before,
        },
        Err(error) => {
            &&& container.ports is Some
            &&& exists|i: int, last: i32|
                {
                    &&& 0 <= i < container.ports->0@.len()
                    &&& #[trigger] reserved(
                        before,
                        pod_name,
                        container.ports->0@.take(i),
                        last,
                        after,
                    )
                    &&& crate::laws::assigning::complains_about(
                        error,
                        container.ports->0@[i],
                        after,
                    )
                }
        },
    }
}

proof fn lemma_reserved_or_refused(
    before: Map<i32, Seq<char>>,
    pod_name: Seq<char>,
    container: Container,
    outcome: Result<i32, ProviderError>,
    after: Map<i32, Seq<char>>,
)
    requires
        crate::assignment::assignment_outcome(before, pod_name, container, outcome, after),
    ensures
        reserved_or_refused(before, pod_name, container, outcome, after),
{
    let listed = crate::assignment::listed_ports(container);
    match outcome {
        Ok(port) => {
            lemma_reserved(before, pod_name, listed, port, after);
            if container.ports is None {
                assert(port == 0 && after == before);
            }
        },
        Err(error) => {
            let i = if error is PortInUse {
                let (i, host_port) = choose|i: int, host_port: i32|
                    {
                        &&& #[trigger] crate::assignment::ports_refused(
                            before,
                            pod_name,
                            listed,
                            i,
                            host_port,
                            after,
                        )
                        &&& error == (ProviderError::PortInUse { port: host_port })
                    };
                i
            } else {
                choose|i: int| #[trigger]
                    crate::assignment::ports_exhausted(before, pod_name, listed, i, after)
            };
            let last = choose|last: i32| #[trigger]
                crate::assignment::ports_served(before, pod_name, listed.take(i), last, after);
            lemma_reserved(before, pod_name, listed.take(i), last, after);
            crate::laws::searching::law_ports_are_used_up_when_all_are_held(after);
            assert(crate::laws::assigning::complains_about(error, listed[i], after));
            assert(reserved(before, pod_name, container.ports->0@.take(i), last, after));
        },
    }
}

/// `assign_ports` reserves the ports that the container lists, for the pod, in the map; or those in
/// front of the one that it complains about.
pub proof fn law_assign_ports_reserves(
    port_map: &mut PortMap,
    pod_name: &String,
    container: &Container,
    outcome: Result<i32, ProviderError>,
)
    requires
        call_ensures(assign_ports, (port_map, pod_name, container), outcome),
    ensures
        reserved_or_refused(
            old(port_map)@,
            pod_name@,
            *container,
            outcome,
            final(port_map)@,
        ),
{
    lemma_reserved_or_refused(
        old(port_map)@,
        pod_name@,
        *container,
        outcome,
        final(port_map)@,
    );
}

/// `WasccProvider::assign_container_port` reserves the ports that the container lists, under the
/// name of the pod; or those in front of the one that it complains about. The handles stay as they
/// are.
pub proof fn law_assign_container_port_reserves<H>(
    provider: &mut WasccProvider<H>,
    pod: &Pod,
    container: &Container,
    outcome: Result<i32, ProviderError>,
)
    requires
        call_ensures(
            WasccProvider::<H>::assign_container_port,
            (provider, pod, container),
            outcome,
        ),
    ensures
        final(provider).handles@ == old(provider).handles@,
        reserved_or_refused(
            old(provider).port_map@,
            pod.name@,
            *container,
            outcome,
            final(provider).port_map@,
        ),
{
    lemma_reserved_or_refused(
        old(provider)@.ports,
        pod.name@,
        *container,
        outcome,
        final(provider)@.ports,
    );
}

/// `PortMap::release` frees one port that the pod holds, or port 0 if it holds none.
pub proof fn law_release_frees_the_port_returned(
    port_map: &mut PortMap,
    pod_name: &String,
    freed: i32,
)
    requires
        call_ensures(PortMap::release, (port_map, pod_name), freed),
    ensures
        final(port_map)@ == old(port_map)@.remove(freed),
        (exists|held: i32| #[trigger]
            old(port_map)@.contains_key(held) && old(port_map)@[held] == pod_name@) ==> old(
            port_map,
        )@.contains_key(freed) && old(port_map)@[freed] == pod_name@,
        (forall|held: i32| #[trigger]
            old(port_map)@.contains_key(held) ==> old(port_map)@[held] != pod_name@) ==> freed == 0,
{
}

/// A port that was given to a pod by `PortMap::insert` is taken and has that pod as its holder,
/// until it is given away again; for other ports nothing has changed.
pub proof fn law_inserted_port_is_held(
    port_map: &mut PortMap,
    port: i32,
    pod_name: String,
    then: &PortMap,
    asked: i32,
    taken: bool,
    holder: Option<&String>,
    taken_before: bool,
    before: &PortMap,
)
    requires
        before@ == old(port_map)@,
        call_ensures(PortMap::insert, (port_map, port, pod_name), ()),
        then@ == final(port_map)@,
        call_ensures(PortMap::is_taken, (then, asked), taken),
        call_ensures(PortMap::holder, (then, asked), holder),
        call_ensures(PortMap::is_taken, (before, asked), taken_before),
    ensures
        asked == port ==> taken && holder is Some && holder->0@ == pod_name@,
        asked != port ==> taken == taken_before,
        taken <==> holder is Some,
{
}

} // verus!
