use peerdash::address::IpAddress;
use peerdash::frame::{compose_frame, gen_header, render_frame, Color, Frame, Style};
use peerdash::layout::Area;
use peerdash::peer::{Peer, PeerRegistry};
use peerdash::rows::gen_rows;
use peerdash::selection::Selection;

const SURFACE: Area = Area { x: 0, y: 0, width: 80, height: 24 };

fn peer(host: u8, port: u16, received: u64, sent: u64) -> Peer {
    Peer {
        address: IpAddress::V4(10, 0, 0, host),
        port,
        total_received: received,
        total_sent: sent,
    }
}

fn three_peers() -> PeerRegistry {
    let mut registry = PeerRegistry::new();
    registry.record(peer(1, 443, 2048, 512));
    registry.record(peer(2, 80, 10, 20));
    registry.record(peer(3, 22, 1 << 21, 0));
    registry
}

fn names(address: IpAddress) -> String {
    format!("host-{}", address.to_text())
}

fn render(registry: &PeerRegistry, selection: &Selection) -> Frame {
    render_frame(SURFACE, "nginx", registry.peers(), &names, selection)
}

#[test]
fn header_names_the_process_and_counts_the_peers() {
    assert_eq!(gen_header("nginx", 3), "Process: nginx [3 peers]");
    assert_eq!(gen_header("nginx", 0), "Process: nginx [0 peers]");
    assert_eq!(gen_header("", 1), "Process:  [1 peers]");
    assert_eq!(gen_header("a b", 12345), "Process: a b [12345 peers]");
    assert_eq!(render(&three_peers(), &Selection::new()).header, "Process: nginx [3 peers]");
}

#[test]
fn empty_registry_still_has_a_header_and_a_table() {
    let frame = render(&PeerRegistry::new(), &Selection { index: Some(0) });
    assert_eq!(frame.header, "Process: nginx [0 peers]");
    assert!(frame.table.rows.is_empty());
    assert_eq!(frame.table.highlight, None);
    assert_eq!(frame.table.columns.len(), 4);
}

#[test]
fn table_has_four_columns_with_fixed_shares() {
    let frame = render(&three_peers(), &Selection::new());
    let titles: Vec<&str> = frame.table.columns.iter().map(|c| c.title).collect();
    assert_eq!(titles, vec!["Peer", "Name", "Total received", "Total sent"]);
    let shares: Vec<u16> = frame.table.columns.iter().map(|c| c.width_percent).collect();
    assert_eq!(shares, vec![20, 40, 20, 20]);
    assert_eq!(shares.iter().sum::<u16>(), 100);
    assert_eq!(frame.table.title, "Peer utilization");
    assert_eq!(frame.table.header_gap, 1);
}

#[test]
fn styles_set_titles_and_selection_apart() {
    let frame = render(&three_peers(), &Selection::new());
    assert_eq!(
        frame.header_style,
        Style { foreground: Some(Color::Cyan), bold: true, reversed: false }
    );
    assert_eq!(
        frame.table.title_style,
        Style { foreground: Some(Color::Yellow), bold: false, reversed: false }
    );
    assert_eq!(frame.table.header_style, Style { foreground: None, bold: true, reversed: false });
    assert_eq!(
        frame.table.highlight_style,
        Style { foreground: None, bold: false, reversed: true }
    );
}

#[test]
fn rows_of_the_frame_are_the_rows_of_the_peers() {
    let registry = three_peers();
    let frame = render(&registry, &Selection::new());
    assert_eq!(frame.table.rows, gen_rows(registry.peers(), &names));
    assert_eq!(frame.table.rows.len(), 3);
    assert_eq!(frame.table.rows[0].peer, "10.0.0.1:443");
    assert_eq!(frame.table.rows[0].name, "host-10.0.0.1");
    assert_eq!(frame.table.rows[0].received, "2.00 MiB");
    assert_eq!(frame.table.rows[0].sent, "512 kiB");
    assert_eq!(frame.table.rows[2].peer, "10.0.0.3:22");
    assert_eq!(frame.table.rows[2].received, "2.00 GiB");
}

#[test]
fn frame_is_placed_on_the_surface() {
    let frame = render(&three_peers(), &Selection::new());
    assert_eq!(frame.regions.header, Area { x: 1, y: 1, width: 78, height: 1 });
    assert_eq!(frame.regions.table, Area { x: 1, y: 2, width: 78, height: 21 });
    let tiny = render_frame(
        Area { x: 0, y: 0, width: 0, height: 0 },
        "nginx",
        three_peers().peers(),
        &names,
        &Selection { index: Some(1) },
    );
    assert_eq!(tiny.regions.header, Area { x: 0, y: 0, width: 0, height: 0 });
    assert_eq!(tiny.regions.table, Area { x: 0, y: 0, width: 0, height: 0 });
    assert_eq!(tiny.table.rows.len(), 3);
    assert_eq!(tiny.table.highlight, Some(1));
}

#[test]
fn selection_in_range_is_highlighted_as_it_is() {
    let registry = three_peers();
    for index in [None, Some(0), Some(1), Some(2)] {
        let selection = Selection { index };
        assert_eq!(render(&registry, &selection).table.highlight, index);
        assert_eq!(selection.index, index);
    }
}

#[test]
fn selection_out_of_range_highlights_the_last_row() {
    let registry = three_peers();
    assert_eq!(render(&registry, &Selection { index: Some(3) }).table.highlight, Some(2));
    assert_eq!(render(&registry, &Selection { index: Some(usize::MAX) }).table.highlight, Some(2));
}

#[test]
fn rendering_twice_gives_the_same_frame() {
    let registry = three_peers();
    let selection = Selection { index: Some(1) };
    let first = render(&registry, &selection);
    let second = render(&registry, &selection);
    assert_eq!(first, second);
    assert_eq!(selection, Selection { index: Some(1) });
    assert_eq!(registry.peers(), three_peers().peers());
}

#[test]
fn frame_after_the_selected_peer_was_removed() {
    let mut registry = three_peers();
    let mut selection = Selection { index: Some(1) };
    assert_eq!(render(&registry, &selection).table.highlight, Some(1));

    let selected = registry.peers()[1];
    assert_eq!(registry.remove(selected.address, selected.port), Some(selected));
    assert_eq!(registry.len(), 2);

    // Even before the selection is clamped the frame highlights a row that exists.
    let frame = render(&registry, &selection);
    assert_eq!(frame.table.rows.len(), 2);
    assert!(frame.table.highlight.map_or(true, |i| i < frame.table.rows.len()));

    selection.clamp(registry.len());
    assert_eq!(selection.index, Some(1));
    let frame = render(&registry, &selection);
    assert_eq!(frame.header, "Process: nginx [2 peers]");
    assert_eq!(frame.table.highlight, Some(1));
    assert_eq!(frame.table.rows[1].peer, "10.0.0.3:22");
}

#[test]
fn frame_after_the_last_peer_was_removed_while_selected() {
    let mut registry = three_peers();
    let mut selection = Selection { index: Some(2) };
    let last = registry.peers()[2];
    registry.remove(last.address, last.port);
    assert_eq!(render(&registry, &selection).table.highlight, Some(1));
    selection.clamp(registry.len());
    assert_eq!(selection.index, Some(1));
    registry.remove(IpAddress::V4(10, 0, 0, 1), 443);
    registry.remove(IpAddress::V4(10, 0, 0, 2), 80);
    assert_eq!(render(&registry, &selection).table.highlight, None);
    selection.clamp(registry.len());
    assert_eq!(selection.index, None);
}

#[test]
fn frame_from_rows_that_are_already_built() {
    let registry = three_peers();
    let rows = gen_rows(registry.peers(), &names);
    let frame = compose_frame(SURFACE, "nginx", rows, &Selection { index: Some(7) });
    assert_eq!(frame, render(&registry, &Selection { index: Some(2) }));
}
