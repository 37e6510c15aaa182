use malgrat_grid::grid::{first_link_to, GridTopology, Link};

fn radial_links() -> Vec<Link> {
    (1..=5).map(|to| Link { id: to, from: 0, to }).collect()
}

#[test]
fn line_for_finds_the_line_ending_at_the_bus() {
    let topology = GridTopology::new(radial_links(), radial_links());
    assert_eq!(topology.line_for(3), Some(2));
    assert_eq!(topology.lines[2].to, 3);
    assert_eq!(topology.transformer_for(5), Some(4));
}

#[test]
fn substation_has_no_supplier() {
    let topology = GridTopology::new(radial_links(), radial_links());
    assert_eq!(topology.line_for(0), None);
    assert_eq!(topology.transformer_for(0), None);
    assert_eq!(topology.transformer_for(6), None);
}

#[test]
fn first_of_several_links_wins() {
    let links = vec![
        Link { id: 1, from: 0, to: 2 },
        Link { id: 2, from: 0, to: 1 },
        Link { id: 3, from: 2, to: 1 },
    ];
    assert_eq!(first_link_to(&links, 1), Some(1));
    assert_eq!(first_link_to(&links, 2), Some(0));
}

#[test]
fn empty_grid_has_no_links() {
    let topology = GridTopology::new(Vec::new(), Vec::new());
    assert_eq!(topology.line_for(1), None);
    assert_eq!(topology.transformer_for(1), None);
}
