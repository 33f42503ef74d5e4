use pincher_core::route::{build_routing_graph, Room, RoomGraph};
use ternary_graph::{shortest_paths, Ternary, TernaryGraph};

#[test]
fn test_degree() {
    let mut rg = build_routing_graph(&["center", "east", "west"]);
    rg.add_trusted_route(0, 1);
    rg.add_trusted_route(0, 2);
    assert_eq!(rg.degree(0), 2);
    assert_eq!(rg.degree(1), 1);
    assert_eq!(rg.degree(2), 1);
}

#[test]
fn test_detect_communities_with_conflict() {
    let mut rg = build_routing_graph(&["a1", "a2", "b1", "b2"]);
    rg.add_trusted_route(0, 1);
    rg.add_trusted_route(2, 3);
    rg.add_blocked_route(1, 2);
    let communities = rg.detect_communities(100);
    assert_eq!(communities[0], communities[1], "a1 and a2 should share a community");
    assert_eq!(communities[2], communities[3], "b1 and b2 should share a community");
}

#[test]
fn test_spectral_routing() {
    let mut rg = build_routing_graph(&["lobby", "dev", "staging", "prod", "monitor", "backup"]);
    rg.add_trusted_route(0, 1);
    rg.add_trusted_route(1, 2);
    rg.add_trusted_route(0, 2);
    rg.add_trusted_route(3, 4);
    rg.add_trusted_route(4, 5);
    rg.add_trusted_route(3, 5);
    rg.add_trusted_route(2, 3);
    let clusters = rg.cluster_rooms(2);
    assert_eq!(clusters.len(), 6);
    assert_eq!(clusters[0], clusters[1], "lobby and dev in same cluster");
    assert_eq!(clusters[0], clusters[2], "lobby and staging in same cluster");
    assert_eq!(clusters[3], clusters[4], "prod and monitor in same cluster");
    assert_eq!(clusters[3], clusters[5], "prod and backup in same cluster");
}

#[test]
fn rooms_are_numbered_in_order() {
    let rg = build_routing_graph(&["lobby", "dev"]);
    assert_eq!(rg.rooms.len(), 2);
    assert_eq!(rg.rooms[1].id, 1);
    assert_eq!(rg.rooms[1].name, "dev");
    assert!(rg.rooms[0].agents.is_empty());
    assert_eq!(rg.graph.n, 2);
    assert!(!rg.graph.directed);
}

#[test]
fn undirected_routes_go_both_ways() {
    let mut rg = build_routing_graph(&["a", "b", "c"]);
    rg.add_trusted_route(0, 1);
    rg.add_blocked_route(1, 2);
    assert_eq!(rg.graph.adj[0][1], rg.graph.adj[1][0]);
    assert_eq!(rg.graph.adj[1][2], rg.graph.adj[2][1]);
    assert_eq!(rg.graph.adj[1][2].to_i8(), -1);
    assert_eq!(rg.degree(1), 2);
}

#[test]
fn directed_routes_are_one_way() {
    let rooms = vec![
        Room { id: 0, name: "x".to_string(), agents: vec![] },
        Room { id: 1, name: "y".to_string(), agents: vec!["agent".to_string()] },
    ];
    let mut rg = RoomGraph::new(rooms).into_directed();
    rg.add_trusted_route(0, 1);
    assert_eq!(rg.graph.adj[0][1].to_i8(), 1);
    assert_eq!(rg.graph.adj[1][0].to_i8(), 0);
    assert_eq!(rg.degree(0), 1);
    assert_eq!(rg.degree(1), 0);
}

#[test]
fn trusted_components_follow_positive_routes_only() {
    let mut rg = build_routing_graph(&["a", "b", "c", "d"]);
    rg.add_trusted_route(0, 1);
    rg.add_blocked_route(1, 2);
    rg.add_trusted_route(2, 3);
    let c = rg.trusted_components();
    assert_eq!(c.len(), 4);
    assert_eq!(c[0], c[1]);
    assert_eq!(c[2], c[3]);
    assert_ne!(c[1], c[2]);
}

#[test]
fn one_cluster_puts_every_room_together() {
    let mut rg = build_routing_graph(&["a", "b", "c"]);
    rg.add_trusted_route(0, 1);
    assert_eq!(rg.cluster_rooms(1), vec![0, 0, 0]);
    let labels = rg.detect_communities(10);
    for (i, l) in labels.iter().enumerate() {
        assert!(*l <= i);
        if *l > 0 {
            assert!(labels[..i].contains(&(*l - 1)));
        }
    }
}

// Path lengths are floating point and computed outside the library: the
// distances below are `ternary_graph::shortest_paths` on the room graph, as
// the application's `distances_from` computes them.

#[test]
fn test_route_basics() {
    let mut rg = build_routing_graph(&["lobby", "dev", "staging"]);
    rg.add_trusted_route(0, 1);
    rg.add_trusted_route(1, 2);
    rg.add_trusted_route(0, 2);

    let dist = shortest_paths(&rg.graph, 0);
    assert_eq!(dist[0], Some(0.0));
    assert_eq!(dist[1], Some(1.0));
    assert_eq!(dist[2], Some(1.0));

    let communities = rg.detect_communities(100);
    assert_eq!(communities.len(), 3);
}

#[test]
fn test_route_with_blocked() {
    let mut rg = build_routing_graph(&["lobby", "dev", "staging", "quarantine"]);
    let mut g = TernaryGraph::new(4, true);
    g.add_edge(0, 1, Ternary::Pos);
    g.add_edge(1, 0, Ternary::Pos);
    g.add_edge(1, 2, Ternary::Pos);
    g.add_edge(2, 1, Ternary::Pos);
    g.add_edge(1, 3, Ternary::Neg);
    rg.graph = g;

    let dist = shortest_paths(&rg.graph, 3);
    assert_eq!(dist[3], Some(0.0));
    assert_eq!(dist[1], None);

    let components = rg.trusted_components();
    assert_eq!(components[0], components[1]);
    assert_eq!(components[1], components[2]);
    assert_ne!(components[1], components[3]);
}

#[test]
fn communities_without_rounds_are_the_rooms() {
    let mut rg = build_routing_graph(&["a", "b", "c"]);
    rg.add_trusted_route(0, 1);
    rg.add_trusted_route(1, 2);
    assert_eq!(rg.detect_communities(0), vec![0, 1, 2]);
}

#[test]
fn unlinked_rooms_never_share_a_community() {
    let mut rg = build_routing_graph(&["a", "b", "c", "d"]);
    rg.add_trusted_route(0, 1);
    // "c" and "d" have no routes at all.
    let labels = rg.detect_communities(50);
    assert_eq!(labels[0], labels[1]);
    assert_ne!(labels[2], labels[3]);
    assert_ne!(labels[0], labels[2]);
    assert_ne!(labels[0], labels[3]);
}
