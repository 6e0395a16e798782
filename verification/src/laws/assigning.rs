use crate::error::ProviderError;
use crate::pod::{Container, ContainerPort};
use vstd::prelude::*;

verus! {

/// A port between 0 and 65536 that a container lists without a host port is given a port of the
/// node: one between 30000 and 32767 that was free and belongs to the pod from then on. If it is
/// the last one listed, this is the port returned.
pub proof fn law_listed_port_is_given_a_node_port(
    before: Map<i32, Seq<char>>,
    pod_name: Seq<char>,
    container: Container,
    ports: Vec<ContainerPort>,
    port: i32,
    after: Map<i32, Seq<char>>,
    i: int,
)
    requires
        crate::assignment::assignment_outcome(before, pod_name, container, Ok(port), after),
        container.ports == Some(ports),
        0 <= i < ports@.len(),
        ports@[i].host_port is None,
        0 <= ports@[i].container_port <= 65536,
    ensures
        exists|given: i32|
            {
                &&& 30000 <= given < 32768
                &&& !before.contains_key(given)
                &&& #[trigger] after.contains_key(given)
                &&& after[given] == pod_name
            },
        i == ports@.len() - 1 ==> {
            &&& 30000 <= port < 32768
            &&& !before.contains_key(port)
            &&& after.contains_key(port)
            &&& after[port] == pod_name
        },
{
    let given = lemma_given(before, pod_name, ports@, port, after, i);
    assert(after.contains_key(given));
}

/// The port that is given to the listed port at place `i`, and is still the one assigned last if
/// those behind it are passed over.
pub proof fn lemma_given(
    before: Map<i32, Seq<char>>,
    pod_name: Seq<char>,
    listed: Seq<ContainerPort>,
    port: i32,
    after: Map<i32, Seq<char>>,
    i: int,
) -> (given: i32)
    requires
        crate::assignment::ports_served(before, pod_name, listed, port, after),
        0 <= i < listed.len(),
        listed[i].host_port is Some || 0 <= listed[i].container_port <= 65536,
    ensures
        listed[i].host_port matches Some(host_port) ==> given == host_port,
        listed[i].host_port is None ==> 30000 <= given < 32768,
        !before.contains_key(given),
        after.contains_key(given),
        after[given] == pod_name,
        (forall|j: int|
            i < j < listed.len() ==> (#[trigger] listed[j]).host_port is None && !(0
                <= listed[j].container_port <= 65536)) ==> port == given,
    decreases listed.len(),
{
    let (last, between) = crate::laws::served_split(before, pod_name, listed, port, after);
    let shorter = listed.drop_last();
    crate::laws::law_assignment_keeps_holders(before, pod_name, shorter, last, between);
    let end = listed[listed.len() - 1];
    assert(end == listed.last());
    if i < listed.len() - 1 {
        let given = lemma_given(before, pod_name, shorter, last, between, i);
        assert(between.contains_key(given));
        if forall|j: int|
            i < j < listed.len() ==> (#[trigger] listed[j]).host_port is None && !(0
                <= listed[j].container_port <= 65536) {
            assert forall|j: int| i < j < shorter.len() implies (
            #[trigger] shorter[j]).host_port is None && !(0 <= shorter[j].container_port
                <= 65536) by {
                assert(shorter[j] == listed[j]);
            }
            assert(end.host_port is None && !(0 <= end.container_port <= 65536));
        }
        given
    } else {
        assert(!between.contains_key(port));
        port
    }
}

/// The port returned is the one given to the last listed port that is not passed over: the host
/// port that it names, or else one between 30000 and 32767 that was free. Passed over are ports
/// without a host port that are not between 0 and 65536.
pub proof fn law_returned_port_is_the_last_one_given(
    before: Map<i32, Seq<char>>,
    pod_name: Seq<char>,
    container: Container,
    ports: Vec<ContainerPort>,
    port: i32,
    after: Map<i32, Seq<char>>,
    i: int,
)
    requires
        crate::assignment::assignment_outcome(before, pod_name, container, Ok(port), after),
        container.ports == Some(ports),
        0 <= i < ports@.len(),
        ports@[i].host_port is Some || 0 <= ports@[i].container_port <= 65536,
        forall|j: int|
            i < j < ports@.len() ==> (#[trigger] ports@[j]).host_port is None && !(0
                <= ports@[j].container_port <= 65536),
    ensures
        ports@[i].host_port matches Some(host_port) ==> port == host_port,
        ports@[i].host_port is None ==> 30000 <= port < 32768,
        !before.contains_key(port),
        after.contains_key(port),
        after[port] == pod_name,
{
    let given = lemma_given(before, pod_name, ports@, port, after, i);
}

/// A container that lists no port, or only such as are passed over, is assigned none: the port
/// returned is 0, and nothing is reserved.
pub proof fn law_no_usable_port_no_assignment(
    before: Map<i32, Seq<char>>,
    pod_name: Seq<char>,
    container: Container,
    outcome: Result<i32, ProviderError>,
    after: Map<i32, Seq<char>>,
)
    requires
        crate::assignment::assignment_outcome(before, pod_name, container, outcome, after),
        container.ports matches Some(ports) ==> forall|j: int|
            0 <= j < ports@.len() ==> (#[trigger] ports@[j]).host_port is None && !(0
                <= ports@[j].container_port <= 65536),
    ensures
        outcome == Ok::<i32, ProviderError>(0),
        after == before,
{
    let listed = crate::assignment::listed_ports(container);
    assert(container.ports is None ==> listed.len() == 0);
    match outcome {
        Ok(port) => lemma_all_passed_over(before, pod_name, listed, port, after),
        Err(_) => {
            law_failed_assignment_has_a_reason(before, pod_name, container, outcome->Err_0, after);
        },
    }
}

/// Listed ports that are all passed over leave everything as it is.
pub proof fn lemma_all_passed_over(
    before: Map<i32, Seq<char>>,
    pod_name: Seq<char>,
    listed: Seq<ContainerPort>,
    port: i32,
    after: Map<i32, Seq<char>>,
)
    requires
        crate::assignment::ports_served(before, pod_name, listed, port, after),
        forall|j: int|
            0 <= j < listed.len() ==> (#[trigger] listed[j]).host_port is None && !(0
                <= listed[j].container_port <= 65536),
    ensures
        port == 0,
        after == before,
    decreases listed.len(),
{
    if listed.len() > 0 {
        let (last, between) = crate::laws::served_split(before, pod_name, listed, port, after);
        let shorter = listed.drop_last();
        assert forall|j: int| 0 <= j < shorter.len() implies (#[trigger] shorter[j]).host_port is None
            && !(0 <= shorter[j].container_port <= 65536) by {
            assert(shorter[j] == listed[j]);
        }
        lemma_all_passed_over(before, pod_name, shorter, last, between);
        assert(listed.last() == listed[listed.len() - 1]);
    }
}

/// Once the ports of a container are assigned, as many more ports are held as it lists ports that
/// are not passed over. (That only finitely many ports are in use holds of every `PortMap`.)
pub proof fn law_assignment_reserves_no_more_than_listed(
    before: Map<i32, Seq<char>>,
    pod_name: Seq<char>,
    container: Container,
    ports: Vec<ContainerPort>,
    port: i32,
    after: Map<i32, Seq<char>>,
)
    requires
        before.dom().finite(),
        crate::assignment::assignment_outcome(before, pod_name, container, Ok(port), after),
        container.ports == Some(ports),
    ensures
        after.dom().finite(),
        after.dom().len() == before.dom().len() + crate::laws::usable_count(ports@),
{
    crate::laws::law_each_listed_port_reserves_one(before, pod_name, ports@, port, after);
}

/// Whether the listed port at place `i` is what the error complains about, after those in front of
/// it were served: it names a host port that is held by then, or it is looked for while every port
/// between 30000 and 32767 is held.
pub open spec fn complains_about(
    error: ProviderError,
    listed: ContainerPort,
    held: Map<i32, Seq<char>>,
) -> bool {
    match error {
        ProviderError::PortInUse { port } => listed.host_port == Some(port) && held.contains_key(
            port,
        ),
        ProviderError::PortAllocation { .. } => {
            &&& listed.host_port is None
            &&& 0 <= listed.container_port <= 65536
            &&& forall|port: i32| 30000 <= port < 32768 ==> #[trigger] held.contains_key(port)
        },
        _ => false,
    }
}

/// An assignment that fails does so for a port that the container lists. The host ports named in
/// front of it were free and now belong to the pod, and as many more ports are held as are listed
/// there and not passed over.
pub proof fn law_failed_assignment_has_a_reason(
    before: Map<i32, Seq<char>>,
    pod_name: Seq<char>,
    container: Container,
    error: ProviderError,
    after: Map<i32, Seq<char>>,
)
    requires
        crate::assignment::assignment_outcome(before, pod_name, container, Err(error), after),
    ensures
        container.ports is Some,
        ({
            let listed = container.ports->0@;
            exists|i: int|
                {
                    &&& 0 <= i < listed.len()
                    &&& complains_about(error, #[trigger] listed[i], after)
                    &&& forall|j: int|
                        0 <= j < i ==> ((#[trigger] listed[j]).host_port matches Some(host_port)
                            ==> !before.contains_key(host_port) && after.contains_key(host_port)
                            && after[host_port] == pod_name)
                    &&& before.dom().finite() ==> after.dom().len() == before.dom().len()
                        + crate::laws::usable_count(listed.take(i))
                }
        }),
{
    let listed = crate::assignment::listed_ports(container);
    let i = if error is PortInUse {
        let (i, host_port) = choose|i: int, host_port: i32|
            {
                &&& #[trigger] crate::assignment::ports_refused(
                    before,
                    pod_name,
                    listed,
                    i,
                    host_port,
                    after,
                )
                &&& error == (ProviderError::PortInUse { port: host_port })
            };
        i
    } else {
        choose|i: int| #[trigger]
            crate::assignment::ports_exhausted(before, pod_name, listed, i, after)
    };
    let last = choose|last: i32| #[trigger]
        crate::assignment::ports_served(before, pod_name, listed.take(i), last, after);
    assert(container.ports is Some && listed == container.ports->0@);
    if error is PortAllocation {
        crate::laws::searching::law_ports_are_used_up_when_all_are_held(after);
    }
    assert(complains_about(error, listed[i], after));
    assert forall|j: int| 0 <= j < i implies ((#[trigger] listed[j]).host_port matches Some(host_port)
        ==> !before.contains_key(host_port) && after.contains_key(host_port) && after[host_port]
        == pod_name) by {
        if listed[j].host_port is Some {
            assert(listed.take(i)[j] == listed[j]);
            crate::laws::law_named_host_ports_are_assigned(
                before,
                pod_name,
                listed.take(i),
                last,
                after,
                j,
            );
        }
    }
    if before.dom().finite() {
        crate::laws::law_each_listed_port_reserves_one(
            before,
            pod_name,
            listed.take(i),
            last,
            after,
        );
    }
}

/// A container whose assignment succeeds has each host port that it names, wherever it lists it:
/// the port was free, and belongs to the pod.
pub proof fn law_host_port_goes_to_the_pod(
    before: Map<i32, Seq<char>>,
    pod_name: Seq<char>,
    container: Container,
    ports: Vec<ContainerPort>,
    outcome: Result<i32, ProviderError>,
    after: Map<i32, Seq<char>>,
    i: int,
    host_port: i32,
)
    requires
        crate::assignment::assignment_outcome(before, pod_name, container, outcome, after),
        container.ports == Some(ports),
        0 <= i < ports@.len(),
        ports@[i].host_port == Some(host_port),
    ensures
        before.contains_key(host_port) ==> outcome is Err,
        outcome is Ok ==> after.contains_key(host_port) && after[host_port] == pod_name,
{
    if outcome is Ok {
        let given = lemma_given(before, pod_name, ports@, outcome->Ok_0, after, i);
    }
}

/// The assignment succeeds if the host ports that a container names are free, are named once and
/// are not between 30000 and 32767, and as many ports between these are free as are looked for.
pub proof fn law_unhindered_assignment_succeeds(
    before: Map<i32, Seq<char>>,
    pod_name: Seq<char>,
    container: Container,
    ports: Vec<ContainerPort>,
    outcome: Result<i32, ProviderError>,
    after: Map<i32, Seq<char>>,
)
    requires
        crate::assignment::assignment_outcome(before, pod_name, container, outcome, after),
        container.ports == Some(ports),
        forall|i: int|
            0 <= i < ports@.len() ==> ((#[trigger] ports@[i]).host_port matches Some(host_port)
                ==> !before.contains_key(host_port) && !(30000 <= host_port < 32768)),
        forall|i: int, j: int|
            0 <= i < j < ports@.len() && (#[trigger] ports@[i]).host_port is Some ==> (
            #[trigger] ports@[j]).host_port != ports@[i].host_port,
        crate::laws::wanted_count(ports@) <= crate::laws::free_ports(before).len(),
    ensures
        outcome is Ok,
{
    assert(crate::assignment::host_ports_clear(before, ports@));
    crate::laws::law_enough_ports_are_assigned(before, pod_name, container, outcome, after);
}

} // verus!
