use herdr_shell::agent_panel::{
    panel_rows, render_collapsed, render_expanded, AgentPanelSort, AgentPanelState, AgentStatus,
    ClientEndpointId, ClientShellAgent, ClientShellEndpoint, EndpointPanelRow, ExpandedAgentPanel,
};
use herdr_shell::copy_state::ClientShellState;
use herdr_shell::types::SurfaceRect;

fn ssh_profile(hex: &str) -> ClientEndpointId {
    ClientEndpointId::Ssh(hex.to_string())
}

fn machine_agent(pane_id: &str, name: &str, status: AgentStatus) -> ClientShellAgent {
    ClientShellAgent { pane_id: pane_id.to_string(), name: name.to_string(), status, focused: false, line_count: 1 }
}

fn machine(endpoint_id: ClientEndpointId, label: &str, agents: Option<Vec<ClientShellAgent>>) -> ClientShellEndpoint {
    ClientShellEndpoint { endpoint_id, label: label.to_string(), stale: false, snapshot: agents }
}

/// The local machine with `local_agents`, plus optionally one SSH machine.
fn grouped_state(
    local_agents: Vec<ClientShellAgent>,
    remote: Option<(&str, &str, Vec<ClientShellAgent>)>,
) -> (AgentPanelState, ClientEndpointId) {
    let mut panel = AgentPanelState::new();
    panel.endpoints.push(machine(ClientEndpointId::Local, "Local", Some(local_agents)));
    let remote_id = match remote {
        Some((hex, label, agents)) => {
            panel.endpoints.push(machine(ssh_profile(hex), label, Some(agents)));
            ssh_profile(hex)
        }
        None => ssh_profile("0123456789abcdef0123456789abcdef"),
    };
    (panel, remote_id)
}

fn expanded(panel: &mut AgentPanelState, width: u16, height: u16) -> ExpandedAgentPanel {
    let area = SurfaceRect { x: 0, y: 0, width, height };
    let mut scroll = panel.agent_scroll;
    let rendered = render_expanded(
        area,
        panel.agent_view_label.as_deref(),
        &panel.endpoints,
        &panel.active_endpoint_id,
        panel.sort,
        panel.row_gap,
        &panel.collapsed_agent_groups,
        &mut scroll,
    );
    panel.agent_scroll = scroll;
    rendered
}

/// The panel's lines below its header: group headers and agent names.
fn panel_text(rendered: &ExpandedAgentPanel) -> String {
    rendered
        .rows
        .iter()
        .map(|placed| match &placed.row {
            EndpointPanelRow::Group(group) => group.header_text(),
            EndpointPanelRow::Agent(agent) => agent.agent.name.clone(),
        })
        .collect::<Vec<_>>()
        .join("\n")
}

fn group_toggles(rendered: &ExpandedAgentPanel) -> Vec<(SurfaceRect, String)> {
    rendered
        .rows
        .iter()
        .filter_map(|placed| match &placed.row {
            EndpointPanelRow::Group(group) => Some((placed.rect, group.group_key.clone())),
            EndpointPanelRow::Agent(_) => None,
        })
        .collect()
}

fn endpoint_agents(rendered: &ExpandedAgentPanel) -> Vec<(SurfaceRect, ClientEndpointId, String)> {
    rendered
        .rows
        .iter()
        .filter_map(|placed| match &placed.row {
            EndpointPanelRow::Agent(agent) => {
                Some((placed.rect, agent.endpoint_id.clone(), agent.agent.pane_id.clone()))
            }
            EndpointPanelRow::Group(_) => None,
        })
        .collect()
}

fn row_of(rendered: &ExpandedAgentPanel, needle: &str) -> u16 {
    let text = panel_text(rendered);
    let index = text.lines().position(|line| line.contains(needle)).unwrap_or_else(|| panic!("{needle} missing: {text}"));
    rendered.rows[index].rect.y
}

#[test]
fn empty_machine_produces_no_group_header() {
    let (mut panel, remote) = grouped_state(
        vec![machine_agent("pane_1", "pi one", AgentStatus::Working)],
        Some(("0123456789abcdef0123456789abcdef", "Build", vec![])),
    );
    let rendered = expanded(&mut panel, 100, 32);
    let text = panel_text(&rendered);
    assert!(text.contains("▾ Local"), "frame: {text}");
    assert!(!text.contains("▾ Build"), "empty machine must not group: {text}");
    let toggles = group_toggles(&rendered);
    assert_eq!(toggles.len(), 1);
    assert_eq!(toggles[0].1.as_str(), "local", "only the populated machine gets a toggle");
    assert!(
        endpoint_agents(&rendered).iter().all(|(_, endpoint, _)| !endpoint.same_endpoint(&remote)),
        "empty machine must contribute no member rows"
    );
}

#[test]
fn snapshotless_machine_produces_no_group_header() {
    let (mut panel, remote) = grouped_state(
        vec![machine_agent("pane_1", "pi one", AgentStatus::Working)],
        Some(("0123456789abcdef0123456789abcdef", "Build", vec![])),
    );
    if let Some(endpoint) = panel.endpoints.iter_mut().find(|endpoint| endpoint.endpoint_id.same_endpoint(&remote)) {
        endpoint.snapshot = None;
    }
    let rendered = expanded(&mut panel, 100, 32);
    let text = panel_text(&rendered);
    assert!(text.contains("▾ Local"), "frame: {text}");
    assert!(!text.contains("▾ Build"), "snapshotless machine must not group: {text}");
    assert_eq!(group_toggles(&rendered).len(), 1);
}

#[test]
fn collapsed_group_header_tracks_new_aggregate_severity() {
    let (mut panel, _remote) = grouped_state(
        vec![
            machine_agent("pane_1", "pi one", AgentStatus::Working),
            machine_agent("pane_2", "pi two", AgentStatus::Idle),
        ],
        Some(("0123456789abcdef0123456789abcdef", "Build", vec![machine_agent("pane_1", "remote pi", AgentStatus::Idle)])),
    );
    let text = panel_text(&expanded(&mut panel, 100, 32));
    assert!(text.contains("▾ Local"), "frame: {text}");

    panel.collapsed_agent_groups.push(ClientEndpointId::Local.storage_key());
    panel.endpoints[0].snapshot = Some(vec![
        machine_agent("pane_1", "pi one", AgentStatus::Working),
        machine_agent("pane_2", "pi two", AgentStatus::Blocked),
    ]);
    let rendered = expanded(&mut panel, 100, 32);
    let text = panel_text(&rendered);
    assert!(text.contains("▸ Local"), "frame: {text}");
    let header = rendered
        .rows
        .iter()
        .find_map(|placed| match &placed.row {
            EndpointPanelRow::Group(group) if group.group_key == "local" => Some(group),
            _ => None,
        })
        .expect("local group header");
    assert_eq!(header.status, AgentStatus::Blocked, "collapsed header must show blocked severity");
}

#[test]
fn machine_groups_ordered_local_then_catalog() {
    let mut panel = AgentPanelState::new();
    panel
        .endpoints
        .push(machine(ClientEndpointId::Local, "Local", Some(vec![machine_agent("pane_1", "pi one", AgentStatus::Working)])));
    panel.endpoints.push(machine(
        ssh_profile("0123456789abcdef0123456789abcdef"),
        "Alpha",
        Some(vec![machine_agent("pane_1", "alpha pi", AgentStatus::Idle)]),
    ));
    panel.endpoints.push(machine(
        ssh_profile("fedcba9876543210fedcba9876543210"),
        "Beta",
        Some(vec![machine_agent("pane_1", "beta pi", AgentStatus::Idle)]),
    ));

    let rendered = expanded(&mut panel, 120, 40);
    let local_row = row_of(&rendered, "▾ Local");
    let alpha_row = row_of(&rendered, "▾ Alpha");
    let beta_row = row_of(&rendered, "▾ Beta");
    assert!(local_row < alpha_row, "local group must come first");
    assert!(alpha_row < beta_row, "catalog order preserved");

    let member_row = row_of(&rendered, "beta pi");
    assert!(member_row > beta_row, "beta member must render under the beta header");
}

#[test]
fn stale_members_dim_but_group_header_stays_bright() {
    let (mut panel, remote) = grouped_state(
        vec![machine_agent("pane_1", "pi one", AgentStatus::Working)],
        Some(("0123456789abcdef0123456789abcdef", "Build", vec![machine_agent("pane_1", "remote pi", AgentStatus::Idle)])),
    );
    panel.endpoints[1].stale = true;
    let rendered = expanded(&mut panel, 100, 32);

    let remote_members: Vec<_> = rendered
        .rows
        .iter()
        .filter(|placed| match &placed.row {
            EndpointPanelRow::Agent(agent) => agent.endpoint_id.same_endpoint(&remote),
            _ => false,
        })
        .collect();
    assert!(!remote_members.is_empty(), "remote member must render");
    for placed in &remote_members {
        assert!(placed.dim, "stale member row must be dim");
    }

    let headers: Vec<_> = rendered
        .rows
        .iter()
        .filter(|placed| match &placed.row {
            EndpointPanelRow::Group(group) => group.group_key == remote.storage_key(),
            _ => false,
        })
        .collect();
    assert_eq!(headers.len(), 1, "the stale machine keeps its header");
    for placed in &headers {
        assert!(!placed.dim, "group header must not be dimmed at ({},{})", placed.rect.x, placed.rect.y);
    }
    assert!(rendered.rows.iter().all(|placed| match &placed.row {
        EndpointPanelRow::Group(_) => !placed.dim,
        EndpointPanelRow::Agent(_) => true,
    }));
}

#[test]
fn tiny_viewports_and_empty_lists_do_not_panic() {
    let (mut panel, _remote) = grouped_state(
        (0..6)
            .map(|index| machine_agent(&format!("pane_{}", index + 1), &format!("pi {index}"), AgentStatus::Working))
            .collect(),
        Some(("0123456789abcdef0123456789abcdef", "Build", vec![machine_agent("pane_1", "remote pi", AgentStatus::Idle)])),
    );
    for height in [3, 4, 5, 8, 10, 32] {
        let rendered = expanded(&mut panel, 40, height);
        assert!(rendered.header.is_some(), "compose must survive height {height}");
        panel.agent_scroll = 10_000;
        let rendered = expanded(&mut panel, 40, height);
        assert!(rendered.header.is_some(), "compose must survive scroll at height {height}");
        assert!(panel.agent_scroll <= 10_000);
    }

    let (mut panel, _remote) = grouped_state(vec![], None);
    for height in [5, 10, 32] {
        let rendered = expanded(&mut panel, 40, height);
        assert!(rendered.header.is_some(), "empty list height {height}");
        assert!(rendered.rows.is_empty());
    }
}

#[test]
fn priority_sort_and_agent_view_stay_flat() {
    let (mut panel, _remote) = grouped_state(
        vec![
            machine_agent("pane_1", "pi one", AgentStatus::Working),
            machine_agent("pane_2", "pi two", AgentStatus::Blocked),
        ],
        Some(("0123456789abcdef0123456789abcdef", "Build", vec![machine_agent("pane_1", "remote pi", AgentStatus::Idle)])),
    );
    panel.sort = AgentPanelSort::Priority;
    let rendered = expanded(&mut panel, 100, 32);
    let text = panel_text(&rendered);
    assert!(group_toggles(&rendered).is_empty(), "priority stays flat");
    assert!(text.contains("pi one") && text.contains("remote pi"), "frame: {text}");

    panel.sort = AgentPanelSort::Spaces;
    panel.endpoints[0].snapshot = Some(vec![machine_agent("pane_1", "pi one", AgentStatus::Working)]);
    panel.agent_view_label = Some("current space".to_string());
    let rendered = expanded(&mut panel, 100, 32);
    assert!(group_toggles(&rendered).is_empty(), "filtered agent view stays flat");
}

#[test]
fn duplicate_machine_labels_collapse_independently() {
    let mut panel = AgentPanelState::new();
    let first_id = ssh_profile("0123456789abcdef0123456789abcdef");
    let second_id = ssh_profile("fedcba9876543210fedcba9876543210");
    panel
        .endpoints
        .push(machine(ClientEndpointId::Local, "Local", Some(vec![machine_agent("pane_1", "pi one", AgentStatus::Working)])));
    panel.endpoints.push(machine(first_id.clone(), "Same", Some(vec![machine_agent("pane_1", "first pi", AgentStatus::Idle)])));
    panel.endpoints.push(machine(second_id.clone(), "Same", Some(vec![machine_agent("pane_1", "second pi", AgentStatus::Idle)])));

    let rendered = expanded(&mut panel, 100, 32);
    assert_eq!(group_toggles(&rendered).len(), 3, "local plus two same-labeled machines");
    panel.collapsed_agent_groups.push(second_id.storage_key());
    let rendered = expanded(&mut panel, 100, 32);
    let text = panel_text(&rendered);
    assert!(text.contains("first pi"), "first machine must stay expanded: {text}");
    assert!(!text.contains("second pi"), "second machine must be collapsed: {text}");
    assert_eq!(
        group_toggles(&rendered).iter().filter(|(_, key)| key.starts_with("ssh:")).count(),
        2,
        "both machine headers remain present"
    );
}

#[test]
fn storage_keys_name_the_machine() {
    assert_eq!(ClientEndpointId::Local.storage_key(), "local");
    assert_eq!(ssh_profile("0123456789abcdef0123456789abcdef").storage_key(), "ssh:0123456789abcdef0123456789abcdef");
}

#[test]
fn panel_groups_hold_every_agent_once() {
    let (panel, _remote) = grouped_state(
        vec![
            machine_agent("pane_1", "pi one", AgentStatus::Idle),
            machine_agent("pane_2", "pi two", AgentStatus::Done),
        ],
        Some(("0123456789abcdef0123456789abcdef", "Build", vec![machine_agent("pane_1", "remote pi", AgentStatus::Blocked)])),
    );
    let rows = panel_rows(&panel.endpoints, &panel.active_endpoint_id, panel.sort, false, &panel.collapsed_agent_groups);
    let kinds: Vec<String> = rows
        .iter()
        .map(|row| match row {
            EndpointPanelRow::Group(group) => format!("group {} {:?}", group.group_key, group.status),
            EndpointPanelRow::Agent(agent) => format!("agent {}", agent.agent.name),
        })
        .collect();
    assert_eq!(
        kinds,
        vec![
            "group local Done".to_string(),
            "agent pi one".to_string(),
            "agent pi two".to_string(),
            "group ssh:0123456789abcdef0123456789abcdef Blocked".to_string(),
            "agent remote pi".to_string(),
        ]
    );
}

#[test]
fn priority_order_puts_the_most_urgent_first() {
    let (panel, _remote) = grouped_state(
        vec![
            machine_agent("pane_1", "idle one", AgentStatus::Idle),
            machine_agent("pane_2", "working one", AgentStatus::Working),
        ],
        Some(("0123456789abcdef0123456789abcdef", "Build", vec![machine_agent("pane_1", "blocked one", AgentStatus::Blocked)])),
    );
    let rows = panel_rows(&panel.endpoints, &panel.active_endpoint_id, AgentPanelSort::Priority, false, &Vec::new());
    let names: Vec<String> = rows
        .iter()
        .map(|row| match row {
            EndpointPanelRow::Agent(agent) => agent.agent.name.clone(),
            EndpointPanelRow::Group(group) => group.group_key.clone(),
        })
        .collect();
    assert_eq!(names, vec!["blocked one", "working one", "idle one"]);
}

#[test]
fn collapsed_panel_shows_initials_up_to_the_area_height() {
    let (mut panel, _remote) = grouped_state(
        vec![
            machine_agent("pane_1", "pi one", AgentStatus::Working),
            machine_agent("pane_2", "pi two", AgentStatus::Idle),
        ],
        Some(("0123456789abcdef0123456789abcdef", "Build", vec![machine_agent("pane_1", "remote pi", AgentStatus::Idle)])),
    );
    panel.endpoints[0].snapshot.as_mut().unwrap()[0].focused = true;
    panel.endpoints[1].stale = true;
    let cells = render_collapsed(SurfaceRect { x: 2, y: 5, width: 3, height: 10 }, &panel.endpoints, &panel.active_endpoint_id, panel.sort);
    assert_eq!(cells.len(), 3);
    assert_eq!(cells[0].initial, 'L');
    assert!(cells[0].highlighted);
    assert_eq!(cells[2].initial, 'B');
    assert!(cells[2].dim);
    assert_eq!(cells[2].rect, SurfaceRect { x: 2, y: 7, width: 3, height: 1 });

    let cells = render_collapsed(SurfaceRect { x: 0, y: 0, width: 3, height: 2 }, &panel.endpoints, &panel.active_endpoint_id, panel.sort);
    assert_eq!(cells.len(), 2);
}

#[test]
fn reveal_scrolls_a_hidden_agent_into_view() {
    let mut state = ClientShellState::new();
    let (panel, remote) = grouped_state(
        (0..6).map(|index| machine_agent(&format!("pane_{}", index + 1), &format!("pi {index}"), AgentStatus::Idle)).collect(),
        Some(("0123456789abcdef0123456789abcdef", "Build", vec![machine_agent("pane_1", "remote pi", AgentStatus::Idle)])),
    );
    state.agent_panel = panel;
    // Rows: Local header, six agents, Build header, remote agent (index 8).
    state.reveal_endpoint_agent(&remote, "pane_1", 3);
    assert_eq!(state.agent_panel.agent_scroll, 6);

    // Revealing a row above the start scrolls up to it.
    state.reveal_endpoint_agent(&ClientEndpointId::Local, "pane_1", 3);
    assert_eq!(state.agent_panel.agent_scroll, 1);

    // Without a body or a matching row nothing moves.
    state.reveal_endpoint_agent(&remote, "pane_1", 0);
    assert_eq!(state.agent_panel.agent_scroll, 1);
    state.reveal_endpoint_agent(&remote, "pane_9", 3);
    assert_eq!(state.agent_panel.agent_scroll, 1);
}
