use crate::error::ProviderError;
use crate::pod::{Container, ContainerPort};
use crate::ports::{find_available_port, PortMap};
use vstd::prelude::*;

verus! {

/// The highest container port for which a port of the node is looked for.
pub const MAX_CONTAINER_PORT: i32 = 65536;

/// The ports that the container lists.
pub open spec fn listed_ports(container: Container) -> Seq<ContainerPort> {
    match container.ports {
        Some(ports) => ports@,
        None => seq![],
    }
}

/// Whether a port of the node is looked for: the container names none, and its own port is one.
pub open spec fn wants_any_port(listed: ContainerPort) -> bool {
    listed.host_port is None && 0 <= listed.container_port <= MAX_CONTAINER_PORT
}

/// Whether serving one listed port leads from `before` to `after` and leaves `port` as the port
/// assigned last. A host port that the container names has to be free, and then belongs to the pod.
/// A port that is out of range is passed over.
pub open spec fn port_served(
    before: Map<i32, Seq<char>>,
    pod_name: Seq<char>,
    listed: ContainerPort,
    last: i32,
    port: i32,
    after: Map<i32, Seq<char>>,
) -> bool {
    match listed.host_port {
        Some(host_port) => {
            &&& !before.contains_key(host_port)
            &&& port == host_port
            &&& after == before.insert(host_port, pod_name)
        },
        None => if wants_any_port(listed) {
            crate::ports::port_granted(before, pod_name, port, after)
        } else {
            port == last && after == before
        },
    }
}

/// Whether serving the listed ports one after the other leads from `before` to `after` and leaves
/// `port` as the port assigned last, which is 0 if none was.
pub open spec fn ports_served(
    before: Map<i32, Seq<char>>,
    pod_name: Seq<char>,
    listed: Seq<ContainerPort>,
    port: i32,
    after: Map<i32, Seq<char>>,
) -> bool
    decreases listed.len(),
{
    if listed.len() == 0 {
        port == 0 && after == before
    } else {
        exists|last: i32, between: Map<i32, Seq<char>>|
            {
                &&& ports_served(before, pod_name, listed.drop_last(), last, between)
                &&& #[trigger] port_served(between, pod_name, listed.last(), last, port, after)
            }
    }
}

/// Whether serving the listed ports comes to a halt at place `i`: those in front of it are served,
/// which leads from `before` to `after`, and the host port named there is then held by a pod.
pub open spec fn ports_refused(
    before: Map<i32, Seq<char>>,
    pod_name: Seq<char>,
    listed: Seq<ContainerPort>,
    i: int,
    host_port: i32,
    after: Map<i32, Seq<char>>,
) -> bool {
    &&& 0 <= i < listed.len()
    &&& exists|last: i32| #[trigger] ports_served(before, pod_name, listed.take(i), last, after)
    &&& listed[i].host_port == Some(host_port)
    &&& after.contains_key(host_port)
}

/// Whether serving the listed ports comes to a halt at place `i`: those in front of it are served,
/// which leads from `before` to `after`, and then a port is looked for there while every port that
/// can be handed out is in use.
pub open spec fn ports_exhausted(
    before: Map<i32, Seq<char>>,
    pod_name: Seq<char>,
    listed: Seq<ContainerPort>,
    i: int,
    after: Map<i32, Seq<char>>,
) -> bool {
    &&& 0 <= i < listed.len()
    &&& exists|last: i32| #[trigger] ports_served(before, pod_name, listed.take(i), last, after)
    &&& wants_any_port(listed[i])
    &&& crate::ports::all_ports_taken(after)
}

/// Whether no host port that the container names can be in the way: each is free, none is named
/// twice, and none can be handed out to a port of the container that names no host port.
pub open spec fn host_ports_clear(held: Map<i32, Seq<char>>, listed: Seq<ContainerPort>) -> bool {
    &&& forall|i: int|
        0 <= i < listed.len() ==> match (#[trigger] listed[i]).host_port {
            Some(host_port) => !held.contains_key(host_port) && !crate::ports::in_port_range(
                host_port,
            ),
            None => true,
        }
    &&& forall|i: int, j: int|
        0 <= i < j < listed.len() && (#[trigger] listed[i]).host_port is Some ==> (
        #[trigger] listed[j]).host_port != listed[i].host_port
}

/// Whether serving the ports that the container lists can lead from `before` to `after` with this
/// outcome: either all of them are served, or it comes to a halt at one of them, for a host port
/// that is held by a pod or because no port is left. The former does not happen where no host port
/// can be in the way.
pub open spec fn assignment_outcome(
    before: Map<i32, Seq<char>>,
    pod_name: Seq<char>,
    container: Container,
    outcome: Result<i32, ProviderError>,
    after: Map<i32, Seq<char>>,
) -> bool {
    let listed = listed_ports(container);
    match outcome {
        Ok(port) => ports_served(before, pod_name, listed, port, after),
        Err(error) => {
            ||| !host_ports_clear(before, listed) && exists|i: int, host_port: i32|
                {
                    &&& #[trigger] ports_refused(before, pod_name, listed, i, host_port, after)
                    &&& error == (ProviderError::PortInUse { port: host_port })
                }
            ||| error is PortAllocation && exists|i: int| #[trigger]
                ports_exhausted(before, pod_name, listed, i, after)
        },
    }
}

/// Serves the ports that the container lists, in order, and returns the port assigned last. On the
/// first host port that is held by a pod it gives up, as it does if a port is looked for and none
/// is left; the ports assigned until then stay assigned.
pub fn assign_ports(port_map: &mut PortMap, pod_name: &String, container: &Container) -> (outcome:
    Result<i32, ProviderError>)
    ensures
        assignment_outcome(old(port_map)@, pod_name@, *container, outcome, final(port_map)@),
{
    let mut port_assigned: i32 = 0;
    let ghost before = port_map@;
    let ghost listed = listed_ports(*container);
    if let Some(container_vec) = &container.ports {
        let mut i: usize = 0;
        assert(listed.take(0) =~= seq![]);
        while i < container_vec.len()
            invariant
                i <= container_vec@.len(),
                container_vec@ == listed,
                listed == listed_ports(*container),
                before == old(port_map)@,
                ports_served(before, pod_name@, listed.take(i as int), port_assigned, port_map@),
            decreases container_vec@.len() - i,
        {
            let c_port = container_vec[i];
            let container_port: i32 = c_port.container_port;
            let ghost between = port_map@;
            let ghost last = port_assigned;
            if let Some(host_port) = c_port.host_port {
                if !port_map.is_taken(host_port) {
                    port_assigned = host_port;
                    port_map.insert(port_assigned, pod_name.clone());
                } else {
                    proof {
                        assert(ports_refused(
                            before,
                            pod_name@,
                            listed,
                            i as int,
                            host_port,
                            port_map@,
                        ));
                        if host_ports_clear(before, listed) {
                            lemma_served_keys(
                                before,
                                pod_name@,
                                listed.take(i as int),
                                last,
                                port_map@,
                                host_port,
                            );
                        }
                    }
                    return Err(ProviderError::PortInUse { port: host_port });
                }
            } else if container_port >= 0 && container_port <= MAX_CONTAINER_PORT {
                match find_available_port(port_map, pod_name.clone()) {
                    Ok(port) => {
                        port_assigned = port;
                    },
                    Err(error) => {
                        assert(ports_exhausted(before, pod_name@, listed, i as int, port_map@));
                        return Err(ProviderError::PortAllocation { error });
                    },
                }
            }
            proof {
                let longer = listed.take(i + 1);
                assert(longer.drop_last() =~= listed.take(i as int));
                assert(longer.last() == c_port);
                assert(ports_served(before, pod_name@, longer.drop_last(), last, between));
                assert(port_served(between, pod_name@, c_port, last, port_assigned, port_map@));
            }
            i = i + 1;
        }
        assert(listed.take(listed.len() as int) =~= listed);
    }
    Ok(port_assigned)
}

/// A port that is held once the listed ports are served was held before, is named as a host port,
/// or is one that is handed out to a port that names no host port.
proof fn lemma_served_keys(
    before: Map<i32, Seq<char>>,
    pod_name: Seq<char>,
    listed: Seq<ContainerPort>,
    port: i32,
    after: Map<i32, Seq<char>>,
    key: i32,
)
    requires
        ports_served(before, pod_name, listed, port, after),
        after.contains_key(key),
    ensures
        before.contains_key(key) || crate::ports::in_port_range(key) || exists|i: int|
            0 <= i < listed.len() && (#[trigger] listed[i]).host_port == Some(key),
    decreases listed.len(),
{
    if listed.len() > 0 {
        let shorter = listed.drop_last();
        let (last, between) = choose|last: i32, between: Map<i32, Seq<char>>|
            {
                &&& ports_served(before, pod_name, shorter, last, between)
                &&& #[trigger] port_served(between, pod_name, listed.last(), last, port, after)
            };
        if between.contains_key(key) {
            lemma_served_keys(before, pod_name, shorter, last, between, key);
            if exists|i: int|
                0 <= i < shorter.len() && (#[trigger] shorter[i]).host_port == Some(key) {
                let i = choose|i: int|
                    0 <= i < shorter.len() && (#[trigger] shorter[i]).host_port == Some(key);
                assert(listed[i].host_port == Some(key));
            }
        } else {
            assert(listed.last() == listed[listed.len() - 1]);
        }
    }
}

} // verus!
