use town_explorer::travel::{JourneyInfo, TravelGraph, parse_edge_line};

#[test]
fn parse_edge_line_well_shaped() {
    let r = parse_edge_line("\"A\" -- \"B\" [label=\"5 mi / 2 gold\"]").unwrap();
    assert_eq!(r.0, "A");
    assert_eq!(r.1, "B");
    assert_eq!(r.2, "5 mi / 2 gold");
}

#[test]
fn parse_edge_line_with_indentation() {
    let r = parse_edge_line("    \"Oakvale\" -- \"Ironforge\" [label=\"12 mi / 7 gold\"]   ")
        .unwrap();
    assert_eq!(r.0, "Oakvale");
    assert_eq!(r.1, "Ironforge");
    assert_eq!(r.2, "12 mi / 7 gold");
}

#[test]
fn parse_edge_line_malformed_is_ignored() {
    assert!(parse_edge_line("graph world {").is_none());
    assert!(parse_edge_line("}").is_none());
    assert!(parse_edge_line("").is_none());
    assert!(parse_edge_line("\"A\" -> \"B\" [label=\"5 mi / 2 gold\"]").is_none());
    assert!(parse_edge_line("\"A\" -- \"B\"").is_none());
    assert!(parse_edge_line("\"\" -- \"B\" [label=\"5 mi / 2 gold\"]").is_none());
}

#[test]
fn from_label_reads_distance_and_cost() {
    let j = JourneyInfo::from_label("5 mi / 2 gold").unwrap();
    assert_eq!(j.distance, 5);
    assert_eq!(j.cost, 2);
    let j = JourneyInfo::from_label("4294967295 mi / 0 gold").unwrap();
    assert_eq!(j.distance, u32::MAX);
    assert_eq!(j.cost, 0);
}

#[test]
fn from_label_rejects_malformed() {
    assert!(JourneyInfo::from_label("").is_none());
    assert!(JourneyInfo::from_label("5 mi").is_none());
    assert!(JourneyInfo::from_label("5 km / 2 gold").is_none());
    assert!(JourneyInfo::from_label("mi / gold").is_none());
    // a distance beyond thirty-two bits spoils the label
    assert!(JourneyInfo::from_label("4294967296 mi / 2 gold").is_none());
}

#[test]
fn travel_time_of_single_edge() {
    // one five-mile road means fifty ticks of travel
    let g = TravelGraph::build("\"A\" -- \"B\" [label=\"5 mi / 2 gold\"]");
    assert_eq!(g.travel_time("A", "B"), 50);
}

#[test]
fn travel_time_is_symmetric() {
    let src = "\"A\" -- \"B\" [label=\"5 mi / 2 gold\"]\n\
               \"B\" -- \"C\" [label=\"3 mi / 1 gold\"]\n\
               \"A\" -- \"C\" [label=\"20 mi / 9 gold\"]\n\
               \"D\" -- \"E\" [label=\"1 mi / 1 gold\"]";
    let g = TravelGraph::build(src);
    for (x, y) in [("A", "B"), ("A", "C"), ("B", "C"), ("A", "D"), ("D", "E")] {
        assert_eq!(g.travel_time(x, y), g.travel_time(y, x));
    }
}

#[test]
fn travel_time_takes_cheapest_route() {
    // the direct twenty-mile road loses to the five-plus-three detour
    let src = "\"A\" -- \"B\" [label=\"5 mi / 2 gold\"]\n\
               \"B\" -- \"C\" [label=\"3 mi / 1 gold\"]\n\
               \"A\" -- \"C\" [label=\"20 mi / 9 gold\"]";
    let g = TravelGraph::build(src);
    assert_eq!(g.travel_time("A", "C"), 80);
}

#[test]
fn travel_time_unreachable_or_unknown_is_zero() {
    let src = "\"A\" -- \"B\" [label=\"5 mi / 2 gold\"]\n\
               \"C\" -- \"D\" [label=\"3 mi / 1 gold\"]";
    let g = TravelGraph::build(src);
    assert_eq!(g.travel_time("A", "C"), 0);
    assert_eq!(g.travel_time("A", "Nowhere"), 0);
    assert_eq!(g.travel_time("Nowhere", "A"), 0);
}

#[test]
fn travel_time_to_self_is_zero() {
    let g = TravelGraph::build("\"A\" -- \"B\" [label=\"5 mi / 2 gold\"]");
    assert_eq!(g.travel_time("A", "A"), 0);
}

#[test]
fn build_skips_malformed_lines() {
    let src = "digraph {\n\
               \"A\" -- \"B\" [label=\"5 mi / 2 gold\"]\n\
               not an edge\n\
               \"A\" -- \"B\" [label=\"bad label\"]\n\
               }";
    let g = TravelGraph::build(src);
    assert_eq!(g.travel_time("A", "B"), 50);
}

#[test]
fn parallel_edges_take_the_cheaper() {
    let src = "\"A\" -- \"B\" [label=\"9 mi / 2 gold\"]\n\
               \"A\" -- \"B\" [label=\"4 mi / 2 gold\"]";
    let g = TravelGraph::build(src);
    assert_eq!(g.travel_time("A", "B"), 40);
}
