use wascc_provider::assignment::assign_ports;
use wascc_provider::error::ProviderError;
use wascc_provider::pod::{Container, ContainerPort};
use wascc_provider::ports::{
    find_available_port, find_port_among, PortAllocationError, PortMap, PortSearch, END_PORT,
    FIRST_PORT, PORT_COUNT,
};

fn container(ports: Vec<(i32, Option<i32>)>) -> Container {
    let mut listed = Vec::new();
    for (container_port, host_port) in ports {
        listed.push(ContainerPort {
            container_port,
            host_port,
        });
    }
    Container {
        name: "web".to_owned(),
        args: None,
        ports: Some(listed),
        volume_mounts: None,
    }
}

fn holder(map: &PortMap, port: i32) -> Option<&str> {
    map.holder(port).map(|name| name.as_str())
}

#[test]
fn allocation_error_says_that_ports_are_in_use() {
    let error = PortAllocationError::new();
    assert_eq!(error.description(), "all ports are currently in use");
    assert_eq!(
        ProviderError::PortAllocation { error }.message(),
        "all ports are currently in use"
    );
}

#[test]
fn search_takes_first_free_port() {
    let mut map = PortMap::new();
    map.insert(30001, "other".to_owned());
    let port = find_port_among(&mut map, &"pod".to_owned(), &vec![30001, 30002, 30003]);
    assert_eq!(port, Ok(30002));
    assert_eq!(holder(&map, 30001), Some("other"));
    assert_eq!(holder(&map, 30002), Some("pod"));
    assert_eq!(holder(&map, 30003), None);
}

#[test]
fn search_without_draws_fails() {
    let mut map = PortMap::new();
    let port = find_port_among(&mut map, &"pod".to_owned(), &Vec::new());
    assert_eq!(port, Err(PortAllocationError::new()));
}

#[test]
fn search_among_taken_ports_fails() {
    let mut map = PortMap::new();
    map.insert(30001, "other".to_owned());
    map.insert(30002, "other".to_owned());
    let port = find_port_among(&mut map, &"pod".to_owned(), &vec![30002, 30001]);
    assert_eq!(port, Err(PortAllocationError::new()));
    assert_eq!(holder(&map, 30001), Some("other"));
    assert_eq!(holder(&map, 30002), Some("other"));
}

#[test]
fn search_ends_once_all_ports_were_seen() {
    let mut map = PortMap::new();
    let mut draws = Vec::new();
    for port in FIRST_PORT..END_PORT {
        map.insert(port, "other".to_owned());
        draws.push(port);
    }
    draws.push(8080);
    assert_eq!(draws.len(), PORT_COUNT + 1);
    let port = find_port_among(&mut map, &"pod".to_owned(), &draws);
    assert_eq!(port, Err(PortAllocationError::new()));
    assert_eq!(holder(&map, 8080), None);
}

#[test]
fn search_goes_on_while_it_sees_the_same_taken_port() {
    let mut map = PortMap::new();
    map.insert(30000, "other".to_owned());
    let mut search = PortSearch::new();
    for _ in 0..5 {
        search.probe(&mut map, 30000, &"pod".to_owned());
        assert!(!search.is_over());
        assert_eq!(search.outcome(), Err(PortAllocationError::new()));
    }
    search.probe(&mut map, 30007, &"pod".to_owned());
    assert!(search.is_over());
    assert_eq!(search.outcome(), Ok(30007));
}

#[test]
fn available_port_lies_in_range_and_is_taken() {
    let mut map = PortMap::new();
    let port = find_available_port(&mut map, "pod".to_owned()).unwrap();
    assert!(30000 <= port && port < 32768);
    assert_eq!(holder(&map, port), Some("pod"));
}

#[test]
fn every_port_is_handed_out_once() {
    let mut map = PortMap::new();
    let mut seen = std::collections::HashSet::new();
    for _ in 0..2768 {
        let port = find_available_port(&mut map, "pod".to_owned()).unwrap();
        assert!(30000 <= port && port < 32768);
        assert!(seen.insert(port));
    }
    let error = find_available_port(&mut map, "late".to_owned()).unwrap_err();
    assert_eq!(error.description(), "all ports are currently in use");
    for port in FIRST_PORT..END_PORT {
        assert_eq!(holder(&map, port), Some("pod"));
    }
}

#[test]
fn last_free_port_is_found() {
    let mut map = PortMap::new();
    for port in FIRST_PORT..END_PORT {
        if port != 31234 {
            map.insert(port, "other".to_owned());
        }
    }
    assert_eq!(find_available_port(&mut map, "pod".to_owned()), Ok(31234));
    assert_eq!(holder(&map, 31234), Some("pod"));
    assert!(find_available_port(&mut map, "late".to_owned()).is_err());
}

#[test]
fn container_is_refused_once_ports_are_used_up() {
    let mut map = PortMap::new();
    for port in FIRST_PORT..END_PORT {
        map.insert(port, "other".to_owned());
    }
    let web = container(vec![(80, Some(8080)), (81, None), (82, Some(8082))]);
    let error = assign_ports(&mut map, &"pod".to_owned(), &web).unwrap_err();
    assert!(matches!(error, ProviderError::PortAllocation { .. }));
    assert_eq!(error.message(), "all ports are currently in use");
    assert_eq!(holder(&map, 8080), Some("pod"));
    assert_eq!(holder(&map, 8082), None);
    let named = container(vec![(80, Some(8083)), (-1, None)]);
    assert_eq!(
        assign_ports(&mut map, &"pod".to_owned(), &named).unwrap(),
        8083
    );
}

#[test]
fn each_listed_port_reserves_one() {
    let mut map = PortMap::new();
    let web = container(vec![(80, None), (81, None), (-1, None), (82, Some(8080))]);
    let port = assign_ports(&mut map, &"pod".to_owned(), &web).unwrap();
    assert_eq!(port, 8080);
    let mut held = 0;
    for port in FIRST_PORT..END_PORT {
        if map.is_taken(port) {
            assert_eq!(holder(&map, port), Some("pod"));
            held += 1;
        }
    }
    assert_eq!(held, 2);
}

#[test]
fn ports_are_drawn_at_random() {
    let mut drawn = std::collections::HashSet::new();
    for _ in 0..200 {
        let mut map = PortMap::new();
        drawn.insert(find_available_port(&mut map, "pod".to_owned()).unwrap());
    }
    assert!(drawn.len() > 1);
}

#[test]
fn release_undoes_grant() {
    let mut map = PortMap::new();
    map.insert(8080, "other".to_owned());
    let port = find_available_port(&mut map, "pod".to_owned()).unwrap();
    assert_eq!(map.release(&"pod".to_owned()), port);
    assert!(!map.is_taken(port));
    assert_eq!(holder(&map, 8080), Some("other"));
}

#[test]
fn release_frees_one_of_several_ports() {
    let mut map = PortMap::new();
    map.insert(8080, "pod".to_owned());
    map.insert(8081, "pod".to_owned());
    map.insert(8082, "other".to_owned());
    let freed = map.release(&"pod".to_owned());
    assert!(freed == 8080 || freed == 8081);
    assert!(!map.is_taken(freed));
    assert_eq!(holder(&map, 8080 + 8081 - freed), Some("pod"));
    assert_eq!(holder(&map, 8082), Some("other"));
}

#[test]
fn release_without_ports_frees_port_zero() {
    let mut map = PortMap::new();
    map.insert(0, "other".to_owned());
    map.insert(8080, "other".to_owned());
    assert_eq!(map.release(&"pod".to_owned()), 0);
    assert!(!map.is_taken(0));
    assert!(map.is_taken(8080));
}

#[test]
fn container_without_ports_gets_none() {
    let mut map = PortMap::new();
    let mut bare = container(Vec::new());
    assert_eq!(assign_ports(&mut map, &"pod".to_owned(), &bare).unwrap(), 0);
    bare.ports = None;
    assert_eq!(assign_ports(&mut map, &"pod".to_owned(), &bare).unwrap(), 0);
}

#[test]
fn named_host_port_is_assigned() {
    let mut map = PortMap::new();
    let web = container(vec![(80, Some(8080)), (81, Some(8081))]);
    let port = assign_ports(&mut map, &"pod".to_owned(), &web).unwrap();
    assert_eq!(port, 8081);
    assert_eq!(holder(&map, 8080), Some("pod"));
    assert_eq!(holder(&map, 8081), Some("pod"));
}

#[test]
fn host_port_is_taken_whatever_the_container_port() {
    let mut map = PortMap::new();
    let web = container(vec![(-1, Some(8080))]);
    let port = assign_ports(&mut map, &"pod".to_owned(), &web).unwrap();
    assert_eq!(port, 8080);
}

#[test]
fn held_host_port_is_refused_and_earlier_ports_stay() {
    let mut map = PortMap::new();
    map.insert(8081, "other".to_owned());
    let web = container(vec![(80, Some(8080)), (81, Some(8081)), (82, Some(8082))]);
    let error = assign_ports(&mut map, &"pod".to_owned(), &web).unwrap_err();
    assert!(matches!(error, ProviderError::PortInUse { port: 8081 }));
    assert_eq!(error.message(), "Port 8081 is currently in use");
    assert_eq!(holder(&map, 8080), Some("pod"));
    assert_eq!(holder(&map, 8081), Some("other"));
    assert_eq!(holder(&map, 8082), None);
}

#[test]
fn host_port_named_twice_is_refused() {
    let mut map = PortMap::new();
    let web = container(vec![(80, Some(8080)), (81, Some(8080))]);
    let error = assign_ports(&mut map, &"pod".to_owned(), &web).unwrap_err();
    assert_eq!(error.message(), "Port 8080 is currently in use");
}

#[test]
fn unnamed_port_is_looked_for_up_to_the_limit() {
    for container_port in [0, 80, 65535, 65536] {
        let mut map = PortMap::new();
        let web = container(vec![(container_port, None)]);
        let port = assign_ports(&mut map, &"pod".to_owned(), &web).unwrap();
        assert!(30000 <= port && port < 32768);
        assert_eq!(holder(&map, port), Some("pod"));
    }
}

#[test]
fn port_out_of_range_is_passed_over() {
    for container_port in [-1, 65537] {
        let mut map = PortMap::new();
        let web = container(vec![(80, Some(8080)), (container_port, None)]);
        let port = assign_ports(&mut map, &"pod".to_owned(), &web).unwrap();
        assert_eq!(port, 8080);
    }
}
