//! The agent panel across machines: the agents of every endpoint as rows,
//! grouped under one collapsible header per machine (or flat when sorted by
//! priority or filtered by an agent view), and where those rows land on
//! screen.
use crate::types::SurfaceRect;
use vstd::multiset::Multiset;
use vstd::prelude::*;

verus! {

#[derive(Clone, Copy, Debug, PartialEq, Eq, Structural)]
pub enum AgentStatus {
    Idle,
    Working,
    Blocked,
    Done,
    Unknown,
}

/// How the panel orders agents: by machine and workspace, or by urgency.
#[derive(Clone, Copy, Debug, PartialEq, Eq, Structural)]
pub enum AgentPanelSort {
    Spaces,
    Priority,
}

/// A machine the client talks to: the local one, or a saved SSH profile
/// (by its profile id).
#[derive(Debug)]
pub enum ClientEndpointId {
    Local,
    Ssh(String),
}

/// The mathematical value of an endpoint id.
pub enum EndpointKey {
    Local,
    Ssh(Seq<char>),
}

impl View for ClientEndpointId {
    type V = EndpointKey;

    open spec fn view(&self) -> EndpointKey {
        match self {
            ClientEndpointId::Local => EndpointKey::Local,
            ClientEndpointId::Ssh(id) => EndpointKey::Ssh(id@),
        }
    }
}

impl Clone for ClientEndpointId {
    fn clone(&self) -> (r: Self)
        ensures
            r@ == self@,
    {
        match self {
            ClientEndpointId::Local => ClientEndpointId::Local,
            ClientEndpointId::Ssh(id) => ClientEndpointId::Ssh(id.clone()),
        }
    }
}

/// The key under which a machine's panel state (its collapsed group) is
/// stored: `local`, or `ssh:` and the profile id.
pub open spec fn storage_key_of(id: EndpointKey) -> Seq<char> {
    match id {
        EndpointKey::Local => "local"@,
        EndpointKey::Ssh(profile) => "ssh:"@ + profile,
    }
}

impl ClientEndpointId {
    pub fn storage_key(&self) -> (r: String)
        ensures
            r@ == storage_key_of(self@),
    {
        match self {
            ClientEndpointId::Local => String::from_str("local"),
            ClientEndpointId::Ssh(id) => String::from_str("ssh:").concat(id.as_str()),
        }
    }

    pub fn same_endpoint(&self, other: &ClientEndpointId) -> (r: bool)
        ensures
            r == (self@ == other@),
    {
        match self {
            ClientEndpointId::Local => match other {
                ClientEndpointId::Local => true,
                ClientEndpointId::Ssh(_) => false,
            },
            ClientEndpointId::Ssh(a) => match other {
                ClientEndpointId::Local => false,
                ClientEndpointId::Ssh(b) => {
                    let same = a.eq(b);
                    proof {
                        if !same {
                            assert(EndpointKey::Ssh(a@)->0 != EndpointKey::Ssh(b@)->0);
                        }
                    }
                    same
                },
            },
        }
    }
}

/// An agent as a machine's snapshot reports it, with the number of screen
/// lines its panel row takes.
#[derive(Debug)]
pub struct ClientShellAgent {
    pub pane_id: String,
    pub name: String,
    pub status: AgentStatus,
    pub focused: bool,
    pub line_count: usize,
}

pub struct AgentView {
    pub pane_id: Seq<char>,
    pub name: Seq<char>,
    pub status: AgentStatus,
    pub focused: bool,
    pub line_count: usize,
}

impl View for ClientShellAgent {
    type V = AgentView;

    open spec fn view(&self) -> AgentView {
        AgentView {
            pane_id: self.pane_id@,
            name: self.name@,
            status: self.status,
            focused: self.focused,
            line_count: self.line_count,
        }
    }
}

impl Clone for ClientShellAgent {
    fn clone(&self) -> (r: Self)
        ensures
            r@ == self@,
    {
        ClientShellAgent {
            pane_id: self.pane_id.clone(),
            name: self.name.clone(),
            status: self.status,
            focused: self.focused,
            line_count: self.line_count,
        }
    }
}

/// A machine in the panel: its label, whether its connection is stale
/// (reconnecting), and its agents once a snapshot arrived.
#[derive(Debug)]
pub struct ClientShellEndpoint {
    pub endpoint_id: ClientEndpointId,
    pub label: String,
    pub stale: bool,
    pub snapshot: Option<Vec<ClientShellAgent>>,
}

/// One agent row of the panel, qualified by its machine.
#[derive(Debug)]
pub struct EndpointAgentRow {
    pub endpoint_id: ClientEndpointId,
    pub machine_label: String,
    pub stale: bool,
    pub agent: ClientShellAgent,
}

pub struct RowView {
    pub endpoint: EndpointKey,
    pub machine_label: Seq<char>,
    pub stale: bool,
    pub agent: AgentView,
}

impl View for EndpointAgentRow {
    type V = RowView;

    open spec fn view(&self) -> RowView {
        RowView {
            endpoint: self.endpoint_id@,
            machine_label: self.machine_label@,
            stale: self.stale,
            agent: self.agent@,
        }
    }
}

impl Clone for EndpointAgentRow {
    fn clone(&self) -> (r: Self)
        ensures
            r@ == self@,
    {
        EndpointAgentRow {
            endpoint_id: self.endpoint_id.clone(),
            machine_label: self.machine_label.clone(),
            stale: self.stale,
            agent: self.agent.clone(),
        }
    }
}

pub open spec fn rows_view(rows: Seq<EndpointAgentRow>) -> Seq<RowView> {
    rows.map_values(|r: EndpointAgentRow| r@)
}

/// The row of agent `a` of machine `e`: it shows as focused only on the
/// active machine.
pub open spec fn row_of(e: ClientShellEndpoint, a: AgentView, active: EndpointKey) -> RowView {
    RowView {
        endpoint: e.endpoint_id@,
        machine_label: e.label@,
        stale: e.stale,
        agent: AgentView { focused: a.focused && e.endpoint_id@ == active, ..a },
    }
}

/// The rows of one machine: none without a snapshot.
pub open spec fn endpoint_rows(e: ClientShellEndpoint, active: EndpointKey) -> Seq<RowView> {
    match e.snapshot {
        None => Seq::empty(),
        Some(agents) => Seq::new(agents@.len(), |i: int| row_of(e, agents@[i]@, active)),
    }
}

/// The rows of all machines, machine by machine in endpoint order.
pub open spec fn machine_rows(es: Seq<ClientShellEndpoint>, active: EndpointKey) -> Seq<RowView>
    decreases es.len(),
{
    if es.len() == 0 {
        Seq::empty()
    } else {
        machine_rows(es.drop_last(), active) + endpoint_rows(es.last(), active)
    }
}

/// How urgent a status is; a group shows its most urgent member.
pub open spec fn severity(s: AgentStatus) -> nat {
    match s {
        AgentStatus::Blocked => 4,
        AgentStatus::Working => 3,
        AgentStatus::Done => 2,
        AgentStatus::Idle => 1,
        AgentStatus::Unknown => 0,
    }
}

/// The rows whose status has severity `level`, in their order.
pub open spec fn with_severity(rows: Seq<RowView>, level: nat) -> Seq<RowView>
    decreases rows.len(),
{
    if rows.len() == 0 {
        Seq::empty()
    } else {
        with_severity(rows.drop_last(), level) + if severity(rows.last().agent.status) == level {
            seq![rows.last()]
        } else {
            Seq::empty()
        }
    }
}

/// The rows by descending severity, keeping their order within a severity.
pub open spec fn by_priority(rows: Seq<RowView>) -> Seq<RowView> {
    with_severity(rows, 4) + with_severity(rows, 3) + with_severity(rows, 2) + with_severity(rows, 1)
        + with_severity(rows, 0)
}

/// The flat list of agent rows in panel order.
pub open spec fn ordered_rows(es: Seq<ClientShellEndpoint>, active: EndpointKey, sort: AgentPanelSort) -> Seq<
    RowView,
> {
    match sort {
        AgentPanelSort::Spaces => machine_rows(es, active),
        AgentPanelSort::Priority => by_priority(machine_rows(es, active)),
    }
}

fn severity_of(s: AgentStatus) -> (r: u8)
    ensures
        r == severity(s),
{
    match s {
        AgentStatus::Blocked => 4,
        AgentStatus::Working => 3,
        AgentStatus::Done => 2,
        AgentStatus::Idle => 1,
        AgentStatus::Unknown => 0,
    }
}

/// The rows of every machine in endpoint order, then agent order.
fn collect_machine_rows(endpoints: &Vec<ClientShellEndpoint>, active_endpoint_id: &ClientEndpointId) -> (r: Vec<
    EndpointAgentRow,
>)
    ensures
        rows_view(r@) == machine_rows(endpoints@, active_endpoint_id@),
{
    let mut rows: Vec<EndpointAgentRow> = Vec::new();
    let n = endpoints.len();
    let mut i: usize = 0;
    while i < n
        invariant
            n == endpoints@.len(),
            i <= n,
            rows_view(rows@) == machine_rows(endpoints@.take(i as int), active_endpoint_id@),
        decreases n - i,
    {
        let endpoint = &endpoints[i];
        let ghost before = rows_view(rows@);
        let active = endpoint.endpoint_id.same_endpoint(active_endpoint_id);
        match &endpoint.snapshot {
            Some(agents) => {
                let m = agents.len();
                let mut j: usize = 0;
                while j < m
                    invariant
                        m == agents@.len(),
                        j <= m,
                        endpoint.snapshot == Some(*agents),
                        active == (endpoint.endpoint_id@ == active_endpoint_id@),
                        rows_view(rows@) == before + endpoint_rows(*endpoint, active_endpoint_id@).take(j as int),
                    decreases m - j,
                {
                    let agent = &agents[j];
                    let mut copy = agent.clone();
                    copy.focused = agent.focused && active;
                    let ghost prev = rows_view(rows@);
                    rows.push(
                        EndpointAgentRow {
                            endpoint_id: endpoint.endpoint_id.clone(),
                            machine_label: endpoint.label.clone(),
                            stale: endpoint.stale,
                            agent: copy,
                        },
                    );
                    assert(rows_view(rows@) =~= prev.push(rows@.last()@));
                    assert(endpoint_rows(*endpoint, active_endpoint_id@).take(j + 1) =~= endpoint_rows(
                        *endpoint,
                        active_endpoint_id@,
                    ).take(j as int).push(row_of(*endpoint, agents@[j as int]@, active_endpoint_id@)));
                    j = j + 1;
                }
                assert(endpoint_rows(*endpoint, active_endpoint_id@).take(m as int) =~= endpoint_rows(
                    *endpoint,
                    active_endpoint_id@,
                ));
            },
            None => {
                assert(before + endpoint_rows(*endpoint, active_endpoint_id@) =~= before);
            },
        }
        assert(endpoints@.take(i + 1).drop_last() =~= endpoints@.take(i as int));
        i = i + 1;
    }
    assert(endpoints@.take(n as int) =~= endpoints@);
    rows
}

/// `rows` reordered by descending severity, stable within a severity.
fn order_by_priority(rows: Vec<EndpointAgentRow>) -> (r: Vec<EndpointAgentRow>)
    ensures
        rows_view(r@) == by_priority(rows_view(rows@)),
{
    let ghost flat = rows_view(rows@);
    let mut out: Vec<EndpointAgentRow> = Vec::new();
    let n = rows.len();
    let mut level: u8 = 5;
    while level > 0
        invariant
            n == rows@.len(),
            flat == rows_view(rows@),
            level <= 5,
            rows_view(out@) == priority_prefix(flat, level as nat),
        decreases level,
    {
        level = level - 1;
        let ghost before = rows_view(out@);
        let mut k: usize = 0;
        while k < n
            invariant
                n == rows@.len(),
                flat == rows_view(rows@),
                k <= n,
                level < 5,
                rows_view(out@) == before + with_severity(flat.take(k as int), level as nat),
            decreases n - k,
        {
            let ghost prev = rows_view(out@);
            assert(flat.take(k + 1).drop_last() =~= flat.take(k as int));
            if severity_of(rows[k].agent.status) == level {
                out.push(rows[k].clone());
                assert(rows_view(out@) =~= prev.push(rows@[k as int]@));
            }
            k = k + 1;
        }
        assert(flat.take(n as int) =~= flat);
    }
    proof {
        reveal_with_fuel(priority_prefix, 6);
        assert(Seq::<RowView>::empty() + with_severity(flat, 4) =~= with_severity(flat, 4));
    }
    assert(rows_view(out@) =~= by_priority(flat));
    out
}

/// The rows of the severities above `level`, most severe first.
pub open spec fn priority_prefix(rows: Seq<RowView>, level: nat) -> Seq<RowView>
    decreases 5 - level,
{
    if level >= 5 {
        Seq::empty()
    } else {
        priority_prefix(rows, level + 1) + with_severity(rows, level)
    }
}

/// The agent rows of the panel, in panel order.
pub fn agent_rows(endpoints: &Vec<ClientShellEndpoint>, active_endpoint_id: &ClientEndpointId, sort: AgentPanelSort) -> (r:
    Vec<EndpointAgentRow>)
    ensures
        rows_view(r@) == ordered_rows(endpoints@, active_endpoint_id@, sort),
{
    let rows = collect_machine_rows(endpoints, active_endpoint_id);
    match sort {
        AgentPanelSort::Spaces => rows,
        AgentPanelSort::Priority => order_by_priority(rows),
    }
}

/// The header of one machine's group: its storage key, the machine's label,
/// the most urgent status of its members, and whether it is collapsed.
#[derive(Debug)]
pub struct AgentGroupRow {
    pub group_key: String,
    pub label: String,
    pub status: AgentStatus,
    pub collapsed: bool,
}

pub struct GroupView {
    pub group_key: Seq<char>,
    pub label: Seq<char>,
    pub status: AgentStatus,
    pub collapsed: bool,
}

impl View for AgentGroupRow {
    type V = GroupView;

    open spec fn view(&self) -> GroupView {
        GroupView { group_key: self.group_key@, label: self.label@, status: self.status, collapsed: self.collapsed }
    }
}

#[derive(Debug)]
pub enum EndpointPanelRow {
    Group(AgentGroupRow),
    Agent(EndpointAgentRow),
}

pub enum PanelRowView {
    Group(GroupView),
    Agent(RowView),
}

impl View for EndpointPanelRow {
    type V = PanelRowView;

    open spec fn view(&self) -> PanelRowView {
        match self {
            EndpointPanelRow::Group(g) => PanelRowView::Group(g@),
            EndpointPanelRow::Agent(a) => PanelRowView::Agent(a@),
        }
    }
}

pub open spec fn panel_view(rows: Seq<EndpointPanelRow>) -> Seq<PanelRowView> {
    rows.map_values(|r: EndpointPanelRow| r@)
}

pub open spec fn keys_view(keys: Seq<String>) -> Seq<Seq<char>> {
    keys.map_values(|k: String| k@)
}

pub open spec fn group_key_of(r: RowView) -> Seq<char> {
    storage_key_of(r.endpoint)
}

/// The group keys of `rows` in order of first appearance.
pub open spec fn first_keys(rows: Seq<RowView>) -> Seq<Seq<char>>
    decreases rows.len(),
{
    if rows.len() == 0 {
        Seq::empty()
    } else {
        let keys = first_keys(rows.drop_last());
        if keys.contains(group_key_of(rows.last())) {
            keys
        } else {
            keys.push(group_key_of(rows.last()))
        }
    }
}

/// The rows of group `key`, in their order.
pub open spec fn members_of(rows: Seq<RowView>, key: Seq<char>) -> Seq<RowView>
    decreases rows.len(),
{
    if rows.len() == 0 {
        Seq::empty()
    } else {
        members_of(rows.drop_last(), key) + if group_key_of(rows.last()) == key {
            seq![rows.last()]
        } else {
            Seq::empty()
        }
    }
}

/// The more urgent of two statuses (the first on a tie).
pub open spec fn more_urgent(a: AgentStatus, b: AgentStatus) -> AgentStatus {
    if severity(b) > severity(a) {
        b
    } else {
        a
    }
}

/// The status a group header shows: the most urgent of its members, or
/// unknown for no members.
pub open spec fn aggregate_status(rows: Seq<RowView>) -> AgentStatus
    decreases rows.len(),
{
    if rows.len() == 0 {
        AgentStatus::Unknown
    } else {
        more_urgent(aggregate_status(rows.drop_last()), rows.last().agent.status)
    }
}

pub open spec fn agent_entries(rows: Seq<RowView>) -> Seq<PanelRowView> {
    rows.map_values(|r: RowView| PanelRowView::Agent(r))
}

/// A group's header followed, unless collapsed, by its members.
pub open spec fn group_block(rows: Seq<RowView>, key: Seq<char>, collapsed: Seq<Seq<char>>) -> Seq<PanelRowView> {
    let members = members_of(rows, key);
    let folded = collapsed.contains(key);
    seq![
        PanelRowView::Group(
            GroupView {
                group_key: key,
                label: members[0].machine_label,
                status: aggregate_status(members),
                collapsed: folded,
            },
        ),
    ] + if folded {
        Seq::empty()
    } else {
        agent_entries(members)
    }
}

pub open spec fn group_blocks(rows: Seq<RowView>, keys: Seq<Seq<char>>, collapsed: Seq<Seq<char>>) -> Seq<
    PanelRowView,
>
    decreases keys.len(),
{
    if keys.len() == 0 {
        Seq::empty()
    } else {
        group_blocks(rows, keys.drop_last(), collapsed) + group_block(rows, keys.last(), collapsed)
    }
}

/// The panel: flat agent rows when sorted by priority or filtered by an
/// agent view, else one group per machine in order of first appearance.
pub open spec fn panel_of(
    es: Seq<ClientShellEndpoint>,
    active: EndpointKey,
    sort: AgentPanelSort,
    agent_view: bool,
    collapsed: Seq<Seq<char>>,
) -> Seq<PanelRowView> {
    let rows = ordered_rows(es, active, sort);
    if agent_view || sort == AgentPanelSort::Priority {
        agent_entries(rows)
    } else {
        group_blocks(rows, first_keys(rows), collapsed)
    }
}

pub proof fn lemma_first_key_has_members(rows: Seq<RowView>, key: Seq<char>)
    requires
        first_keys(rows).contains(key),
    ensures
        members_of(rows, key).len() > 0,
    decreases rows.len(),
{
    if rows.len() > 0 {
        let keys = first_keys(rows.drop_last());
        if keys.contains(key) {
            lemma_first_key_has_members(rows.drop_last(), key);
        } else {
            assert(keys.push(group_key_of(rows.last())).contains(key));
            let i = choose|i: int| 0 <= i < keys.push(group_key_of(rows.last())).len() && keys.push(
                group_key_of(rows.last()),
            )[i] == key;
            if i < keys.len() {
                assert(keys[i] == key);
            }
        }
    }
}

fn contains_key(keys: &Vec<String>, key: &String) -> (r: bool)
    ensures
        r == keys_view(keys@).contains(key@),
{
    let n = keys.len();
    let mut i: usize = 0;
    while i < n
        invariant
            n == keys@.len(),
            i <= n,
            forall|j: int| 0 <= j < i ==> keys@[j]@ != key@,
        decreases n - i,
    {
        if keys[i].eq(key) {
            assert(keys_view(keys@)[i as int] == key@);
            return true;
        }
        i = i + 1;
    }
    proof {
        if keys_view(keys@).contains(key@) {
            let j = choose|j: int| 0 <= j < keys_view(keys@).len() && keys_view(keys@)[j] == key@;
            assert(keys@[j]@ == key@);
        }
    }
    false
}

/// The group keys of `rows` in order of first appearance.
fn distinct_group_keys(rows: &Vec<EndpointAgentRow>) -> (keys: Vec<String>)
    ensures
        keys_view(keys@) == first_keys(rows_view(rows@)),
{
    let ghost flat = rows_view(rows@);
    let mut keys: Vec<String> = Vec::new();
    let n = rows.len();
    let mut i: usize = 0;
    while i < n
        invariant
            n == rows@.len(),
            flat == rows_view(rows@),
            i <= n,
            keys_view(keys@) == first_keys(flat.take(i as int)),
        decreases n - i,
    {
        let key = rows[i].endpoint_id.storage_key();
        assert(flat.take(i + 1).drop_last() =~= flat.take(i as int));
        assert(flat.take(i + 1).last() == flat[i as int]);
        if !contains_key(&keys, &key) {
            let ghost before = keys_view(keys@);
            keys.push(key);
            assert(keys_view(keys@) =~= before.push(group_key_of(flat[i as int])));
        }
        i = i + 1;
    }
    assert(flat.take(n as int) =~= flat);
    keys
}

/// The rows of group `key`, in their order.
fn group_members(rows: &Vec<EndpointAgentRow>, key: &String) -> (r: Vec<EndpointAgentRow>)
    ensures
        rows_view(r@) == members_of(rows_view(rows@), key@),
{
    let ghost flat = rows_view(rows@);
    let mut members: Vec<EndpointAgentRow> = Vec::new();
    let n = rows.len();
    let mut i: usize = 0;
    while i < n
        invariant
            n == rows@.len(),
            flat == rows_view(rows@),
            i <= n,
            rows_view(members@) == members_of(flat.take(i as int), key@),
        decreases n - i,
    {
        assert(flat.take(i + 1).drop_last() =~= flat.take(i as int));
        assert(flat.take(i + 1).last() == flat[i as int]);
        let row_key = rows[i].endpoint_id.storage_key();
        if row_key.eq(key) {
            let ghost before = rows_view(members@);
            members.push(rows[i].clone());
            assert(rows_view(members@) =~= before.push(flat[i as int]));
        } else {
            assert(members_of(flat.take(i + 1), key@) =~= members_of(flat.take(i as int), key@));
        }
        i = i + 1;
    }
    assert(flat.take(n as int) =~= flat);
    members
}

/// The most urgent status among `rows`; unknown for none.
pub fn aggregate_agent_status(rows: &Vec<EndpointAgentRow>) -> (r: AgentStatus)
    ensures
        r == aggregate_status(rows_view(rows@)),
{
    let ghost flat = rows_view(rows@);
    let mut status = AgentStatus::Unknown;
    let n = rows.len();
    let mut i: usize = 0;
    while i < n
        invariant
            n == rows@.len(),
            flat == rows_view(rows@),
            i <= n,
            status == aggregate_status(flat.take(i as int)),
        decreases n - i,
    {
        assert(flat.take(i + 1).drop_last() =~= flat.take(i as int));
        let next = rows[i].agent.status;
        if severity_of(next) > severity_of(status) {
            status = next;
        }
        i = i + 1;
    }
    assert(flat.take(n as int) =~= flat);
    status
}

fn push_agent_entries(out: &mut Vec<EndpointPanelRow>, rows: Vec<EndpointAgentRow>)
    ensures
        panel_view(final(out)@) == panel_view(old(out)@) + agent_entries(rows_view(rows@)),
{
    let ghost flat = rows_view(rows@);
    let ghost start = panel_view(out@);
    let mut rows = rows;
    let ghost all = rows@;
    let n = rows.len();
    let mut k: usize = 0;
    let mut taken: Vec<EndpointAgentRow> = Vec::new();
    while k < n
        invariant
            n == all.len(),
            flat == rows_view(all),
            k <= n,
            rows@ == all.skip(k as int),
            panel_view(out@) == start + agent_entries(flat.take(k as int)),
        decreases n - k,
    {
        let row = rows.remove(0);
        assert(row == all[k as int]);
        let ghost before = panel_view(out@);
        out.push(EndpointPanelRow::Agent(row));
        assert(panel_view(out@) =~= before.push(PanelRowView::Agent(flat[k as int])));
        assert(agent_entries(flat.take(k + 1)) =~= agent_entries(flat.take(k as int)).push(
            PanelRowView::Agent(flat[k as int]),
        ));
        assert(rows@ =~= all.skip(k + 1));
        k = k + 1;
    }
    assert(flat.take(n as int) =~= flat);
}

/// The panel's rows: flat agent rows when sorted by priority or filtered by
/// an agent view, else per machine (in order of first appearance) a header
/// with the members' most urgent status, followed by the members unless the
/// group is collapsed.
pub fn panel_rows(
    endpoints: &Vec<ClientShellEndpoint>,
    active_endpoint_id: &ClientEndpointId,
    sort: AgentPanelSort,
    agent_view: bool,
    collapsed_agent_groups: &Vec<String>,
) -> (r: Vec<EndpointPanelRow>)
    ensures
        panel_view(r@) == panel_of(
            endpoints@,
            active_endpoint_id@,
            sort,
            agent_view,
            keys_view(collapsed_agent_groups@),
        ),
{
    let agents = agent_rows(endpoints, active_endpoint_id, sort);
    let ghost flat = rows_view(agents@);
    let mut out: Vec<EndpointPanelRow> = Vec::new();
    if agent_view || sort == AgentPanelSort::Priority {
        push_agent_entries(&mut out, agents);
        assert(panel_view(out@) =~= agent_entries(flat));
        return out;
    }
    let keys = distinct_group_keys(&agents);
    let ghost kv = keys_view(keys@);
    let ghost collapsed = keys_view(collapsed_agent_groups@);
    let n = keys.len();
    let mut g: usize = 0;
    while g < n
        invariant
            n == keys@.len(),
            kv == keys_view(keys@),
            kv == first_keys(flat),
            flat == rows_view(agents@),
            collapsed == keys_view(collapsed_agent_groups@),
            g <= n,
            panel_view(out@) == group_blocks(flat, kv.take(g as int), collapsed),
        decreases n - g,
    {
        let key = &keys[g];
        let members = group_members(&agents, key);
        proof {
            assert(kv.contains(key@)) by {
                assert(kv[g as int] == key@);
            }
            lemma_first_key_has_members(flat, key@);
        }
        let folded = contains_key(collapsed_agent_groups, key);
        let status = aggregate_agent_status(&members);
        let label = members[0].machine_label.clone();
        let ghost before = panel_view(out@);
        out.push(EndpointPanelRow::Group(AgentGroupRow { group_key: key.clone(), label, status, collapsed: folded }));
        let ghost with_header = panel_view(out@);
        assert(with_header =~= before.push(
            PanelRowView::Group(
                GroupView {
                    group_key: key@,
                    label: members_of(flat, key@)[0].machine_label,
                    status: aggregate_status(members_of(flat, key@)),
                    collapsed: folded,
                },
            ),
        ));
        if !folded {
            push_agent_entries(&mut out, members);
        }
        assert(kv.take(g + 1).drop_last() =~= kv.take(g as int));
        assert(kv.take(g + 1).last() == key@);
        assert(panel_view(out@) =~= before + group_block(flat, key@, collapsed));
        g = g + 1;
    }
    assert(kv.take(n as int) =~= kv);
    out
}

/// What the shell keeps for the agent panel: the machines, which one is
/// active, the sort, the gap between rows, the agent view filter (its label),
/// the collapsed groups by storage key, and the first row shown.
#[derive(Debug)]
pub struct AgentPanelState {
    pub endpoints: Vec<ClientShellEndpoint>,
    pub active_endpoint_id: ClientEndpointId,
    pub sort: AgentPanelSort,
    pub row_gap: u16,
    pub agent_view_label: Option<String>,
    pub collapsed_agent_groups: Vec<String>,
    pub agent_scroll: usize,
}

impl AgentPanelState {
    /// No machines yet; the local one is active.
    pub fn new() -> (r: AgentPanelState)
        ensures
            r.endpoints@.len() == 0,
            r.active_endpoint_id@ == EndpointKey::Local,
            r.sort == AgentPanelSort::Spaces,
            r.row_gap == 0,
            r.agent_view_label is None,
            r.collapsed_agent_groups@.len() == 0,
            r.agent_scroll == 0,
    {
        AgentPanelState {
            endpoints: Vec::new(),
            active_endpoint_id: ClientEndpointId::Local,
            sort: AgentPanelSort::Spaces,
            row_gap: 0,
            agent_view_label: None,
            collapsed_agent_groups: Vec::new(),
            agent_scroll: 0,
        }
    }
}

/// Rows `s..=t` stacked: their heights and the gaps between them.
pub open spec fn span(heights: Seq<u16>, gaps: Seq<u16>, s: int, t: int) -> int
    decreases t - s,
{
    if t < s {
        0
    } else if t == s {
        heights[t] as int
    } else {
        span(heights, gaps, s, t - 1) + gaps[t - 1] + heights[t]
    }
}

/// From `s`, the first start at which rows up to `t` fit in `body`; `t`
/// itself when none does.
pub open spec fn first_fitting_start(heights: Seq<u16>, gaps: Seq<u16>, body: u16, s: int, t: int) -> int
    decreases t - s,
{
    if s >= t || span(heights, gaps, s, t) <= body {
        s
    } else {
        first_fitting_start(heights, gaps, body, s + 1, t)
    }
}

/// The scroll start that reveals row `target`: the target itself when it is
/// above the current start, else the nearest later start at which it fits.
pub open spec fn revealed_start(heights: Seq<u16>, gaps: Seq<u16>, body: u16, scroll: int, target: int) -> int {
    if target < scroll {
        target
    } else {
        first_fitting_start(heights, gaps, body, scroll, target)
    }
}

pub proof fn lemma_span_grows(heights: Seq<u16>, gaps: Seq<u16>, s: int, i: int, t: int)
    requires
        s <= i <= t,
        t < heights.len(),
        t <= gaps.len(),
    ensures
        span(heights, gaps, s, i) <= span(heights, gaps, s, t),
    decreases t - i,
{
    if i < t {
        lemma_span_grows(heights, gaps, s, i, t - 1);
    }
}

pub proof fn lemma_first_fitting_start_bounds(heights: Seq<u16>, gaps: Seq<u16>, body: u16, s: int, t: int)
    requires
        s <= t,
    ensures
        s <= first_fitting_start(heights, gaps, body, s, t) <= t,
    decreases t - s,
{
    if !(s >= t || span(heights, gaps, s, t) <= body) {
        lemma_first_fitting_start_bounds(heights, gaps, body, s + 1, t);
    }
}

/// Whether rows `s..=t` fit in `body`.
fn rows_fit(heights: &Vec<u16>, gaps: &Vec<u16>, body: u16, s: usize, t: usize) -> (r: bool)
    requires
        s <= t < heights@.len(),
        t <= gaps@.len(),
    ensures
        r == (span(heights@, gaps@, s as int, t as int) <= body),
{
    let mut acc: u32 = heights[s] as u32;
    if acc > body as u32 {
        proof {
            lemma_span_grows(heights@, gaps@, s as int, s as int, t as int);
        }
        return false;
    }
    let mut i: usize = s;
    while i < t
        invariant
            s <= i <= t,
            t < heights@.len(),
            t <= gaps@.len(),
            acc as int == span(heights@, gaps@, s as int, i as int),
            acc <= body,
        decreases t - i,
    {
        acc = acc + gaps[i] as u32 + heights[i + 1] as u32;
        i = i + 1;
        if acc > body as u32 {
            proof {
                lemma_span_grows(heights@, gaps@, s as int, i as int, t as int);
            }
            return false;
        }
    }
    true
}

/// The scroll start that reveals row `target` in a body of `body_height`
/// rows, starting from `scroll`.
pub fn list_scroll_start_to_reveal(heights: &Vec<u16>, gaps: &Vec<u16>, body_height: u16, scroll: usize, target: usize) -> (r:
    usize)
    requires
        target < heights@.len(),
        heights@.len() == gaps@.len(),
    ensures
        r == revealed_start(heights@, gaps@, body_height, scroll as int, target as int),
        r <= target,
{
    if target < scroll {
        return target;
    }
    let mut s: usize = scroll;
    while s < target && !rows_fit(heights, gaps, body_height, s, target)
        invariant
            scroll <= s <= target,
            target < heights@.len(),
            heights@.len() == gaps@.len(),
            first_fitting_start(heights@, gaps@, body_height, s as int, target as int) == first_fitting_start(
                heights@,
                gaps@,
                body_height,
                scroll as int,
                target as int,
            ),
        decreases target - s,
    {
        s = s + 1;
    }
    s
}

/// The screen height of a panel row: one line for a header, the agent's
/// lines (at least one) for an agent.
pub open spec fn reveal_height(r: PanelRowView) -> u16 {
    match r {
        PanelRowView::Group(_) => 1,
        PanelRowView::Agent(a) => if a.agent.line_count == 0 {
            1
        } else if a.agent.line_count > u16::MAX as usize {
            u16::MAX
        } else {
            a.agent.line_count as u16
        },
    }
}

/// Whether `r` is the row of agent `pane_id` on machine `endpoint`.
pub open spec fn is_agent_of(r: PanelRowView, endpoint: EndpointKey, pane_id: Seq<char>) -> bool {
    r matches PanelRowView::Agent(a) && a.endpoint == endpoint && a.agent.pane_id == pane_id
}

/// Position of the first row of agent `pane_id` on machine `endpoint`.
pub open spec fn is_agent_row(rows: Seq<PanelRowView>, endpoint: EndpointKey, pane_id: Seq<char>, i: int) -> bool {
    &&& 0 <= i < rows.len()
    &&& is_agent_of(rows[i], endpoint, pane_id)
    &&& forall|j: int| 0 <= j < i ==> !is_agent_of(#[trigger] rows[j], endpoint, pane_id)
}

fn row_heights(rows: &Vec<EndpointPanelRow>) -> (r: Vec<u16>)
    ensures
        r@.len() == rows@.len(),
        forall|i: int| 0 <= i < rows@.len() ==> r@[i] == reveal_height(#[trigger] rows@[i]@),
{
    let mut heights: Vec<u16> = Vec::new();
    let n = rows.len();
    let mut i: usize = 0;
    while i < n
        invariant
            n == rows@.len(),
            i <= n,
            heights@.len() == i,
            forall|j: int| 0 <= j < i ==> heights@[j] == reveal_height(#[trigger] rows@[j]@),
        decreases n - i,
    {
        let h: u16 = match &rows[i] {
            EndpointPanelRow::Group(_) => 1,
            EndpointPanelRow::Agent(a) => {
                let lines = a.agent.line_count;
                if lines == 0 {
                    1
                } else if lines > u16::MAX as usize {
                    u16::MAX
                } else {
                    lines as u16
                }
            },
        };
        heights.push(h);
        i = i + 1;
    }
    heights
}

/// `gap` between consecutive rows, none after the last.
fn row_gaps(n: usize, gap: u16) -> (r: Vec<u16>)
    ensures
        r@.len() == n,
        forall|i: int| 0 <= i < n ==> r@[i] == if i == n - 1 {
            0
        } else {
            gap
        },
{
    let mut gaps: Vec<u16> = Vec::new();
    let mut i: usize = 0;
    while i < n
        invariant
            i <= n,
            gaps@.len() == i,
            forall|j: int| 0 <= j < i ==> gaps@[j] == if j == n - 1 {
                0
            } else {
                gap
            },
        decreases n - i,
    {
        gaps.push(if i + 1 == n { 0 } else { gap });
        i = i + 1;
    }
    gaps
}

fn find_agent_row(rows: &Vec<EndpointPanelRow>, endpoint_id: &ClientEndpointId, pane_id: &str) -> (r: Option<usize>)
    ensures
        r matches Some(i) ==> is_agent_row(panel_view(rows@), endpoint_id@, pane_id@, i as int),
        r is None ==> forall|i: int| !is_agent_row(panel_view(rows@), endpoint_id@, pane_id@, i),
{
    let ghost view = panel_view(rows@);
    let n = rows.len();
    let mut i: usize = 0;
    while i < n
        invariant
            n == rows@.len(),
            view == panel_view(rows@),
            i <= n,
            forall|j: int| 0 <= j < i ==> !is_agent_of(#[trigger] view[j], endpoint_id@, pane_id@),
        decreases n - i,
    {
        match &rows[i] {
            EndpointPanelRow::Agent(a) => {
                let same_pane = crate::types::str_equal(a.agent.pane_id.as_str(), pane_id);
                if a.endpoint_id.same_endpoint(endpoint_id) && same_pane {
                    return Some(i);
                }
            },
            EndpointPanelRow::Group(_) => {},
        }
        i = i + 1;
    }
    None
}

impl AgentPanelState {
    pub open spec fn rows(self) -> Seq<PanelRowView> {
        panel_of(
            self.endpoints@,
            self.active_endpoint_id@,
            self.sort,
            self.agent_view_label is Some,
            keys_view(self.collapsed_agent_groups@),
        )
    }
}

/// The scroll start after revealing the row of `pane_id` on `endpoint`, or
/// `None` when the panel shows no such row.
pub open spec fn reveal_target_start(p: AgentPanelState, endpoint: EndpointKey, pane_id: Seq<char>, body_height: u16) -> Option<int> {
    let rows = p.rows();
    if exists|i: int| is_agent_row(rows, endpoint, pane_id, i) {
        let t = choose|i: int| is_agent_row(rows, endpoint, pane_id, i);
        let heights = Seq::new(rows.len(), |i: int| reveal_height(rows[i]));
        let gaps = Seq::new(rows.len(), |i: int| if i == rows.len() - 1 { 0 } else { p.row_gap });
        Some(revealed_start(heights, gaps, body_height, p.agent_scroll as int, t))
    } else {
        None
    }
}

impl crate::copy_state::ClientShellState {
    /// Scrolls the agent panel so the row of `pane_id` on `endpoint_id` is
    /// visible in a body of `body_height` lines; nothing changes without a
    /// body or without such a row.
    pub fn reveal_endpoint_agent(&mut self, endpoint_id: &ClientEndpointId, pane_id: &str, body_height: u16)
        ensures
            final(self).agent_panel.agent_scroll == match reveal_target_start(
                old(self).agent_panel,
                endpoint_id@,
                pane_id@,
                body_height,
            ) {
                Some(start) => if body_height == 0 {
                    old(self).agent_panel.agent_scroll as int
                } else {
                    start
                },
                None => old(self).agent_panel.agent_scroll as int,
            },
            *final(self) == (crate::copy_state::ClientShellState {
                agent_panel: AgentPanelState { agent_scroll: final(self).agent_panel.agent_scroll, ..old(self).agent_panel },
                ..*old(self)
            }),
    {
        if body_height == 0 {
            return;
        }
        let panel = &self.agent_panel;
        let rows = panel_rows(
            &panel.endpoints,
            &panel.active_endpoint_id,
            panel.sort,
            panel.agent_view_label.is_some(),
            &panel.collapsed_agent_groups,
        );
        let ghost view = panel_view(rows@);
        assert(view == panel.rows());
        let target = match find_agent_row(&rows, endpoint_id, pane_id) {
            Some(target) => target,
            None => {
                return;
            },
        };
        proof {
            assert(is_agent_row(view, endpoint_id@, pane_id@, target as int));
            let t = choose|i: int| is_agent_row(view, endpoint_id@, pane_id@, i);
            lemma_agent_row_unique(view, endpoint_id@, pane_id@, t, target as int);
        }
        let heights = row_heights(&rows);
        let gaps = row_gaps(rows.len(), panel.row_gap);
        let start = list_scroll_start_to_reveal(&heights, &gaps, body_height, panel.agent_scroll, target);
        proof {
            let hs = Seq::new(view.len(), |i: int| reveal_height(view[i]));
            let gs = Seq::new(view.len(), |i: int| if i == view.len() - 1 { 0 } else { panel.row_gap });
            assert(heights@ =~= hs);
            assert(gaps@ =~= gs);
        }
        self.agent_panel.agent_scroll = start;
    }
}

pub proof fn lemma_agent_row_unique(rows: Seq<PanelRowView>, endpoint: EndpointKey, pane_id: Seq<char>, i: int, k: int)
    requires
        is_agent_row(rows, endpoint, pane_id, i),
        is_agent_row(rows, endpoint, pane_id, k),
    ensures
        i == k,
{
    if i < k {
        assert(is_agent_of(rows[i], endpoint, pane_id));
    } else if k < i {
        assert(is_agent_of(rows[k], endpoint, pane_id));
    }
}

/// The mark a group header starts with: open or folded.
pub open spec fn header_text_of(g: GroupView) -> Seq<char> {
    (if g.collapsed {
        "▸ "@
    } else {
        "▾ "@
    }) + g.label
}

impl AgentGroupRow {
    /// The header's text: a fold mark and the machine's label.
    pub fn header_text(&self) -> (r: String)
        ensures
            r@ == header_text_of(self@),
    {
        let mark = if self.collapsed {
            String::from_str("▸ ")
        } else {
            String::from_str("▾ ")
        };
        mark.concat(self.label.as_str())
    }
}

/// One line of the collapsed (narrow) panel: the machine's initial and the
/// agent's status, highlighted when focused and dimmed when the machine is
/// stale; a click on it goes to the agent.
#[derive(Debug)]
pub struct CollapsedAgentCell {
    pub rect: SurfaceRect,
    pub initial: char,
    pub status: AgentStatus,
    pub highlighted: bool,
    pub dim: bool,
    pub endpoint_id: ClientEndpointId,
    pub pane_id: String,
}

pub struct CollapsedView {
    pub rect: SurfaceRect,
    pub initial: char,
    pub status: AgentStatus,
    pub highlighted: bool,
    pub dim: bool,
    pub endpoint: EndpointKey,
    pub pane_id: Seq<char>,
}

impl View for CollapsedAgentCell {
    type V = CollapsedView;

    open spec fn view(&self) -> CollapsedView {
        CollapsedView {
            rect: self.rect,
            initial: self.initial,
            status: self.status,
            highlighted: self.highlighted,
            dim: self.dim,
            endpoint: self.endpoint_id@,
            pane_id: self.pane_id@,
        }
    }
}

pub open spec fn initial_of(label: Seq<char>) -> char {
    if label.len() > 0 {
        label[0]
    } else {
        '?'
    }
}

/// The collapsed line of row `r` at line `index` of `area`.
pub open spec fn collapsed_cell(area: SurfaceRect, index: int, r: RowView) -> CollapsedView {
    CollapsedView {
        rect: SurfaceRect { x: area.x, y: (area.y + index) as u16, width: area.width, height: 1 },
        initial: initial_of(r.machine_label),
        status: r.agent.status,
        highlighted: r.agent.focused,
        dim: r.stale,
        endpoint: r.endpoint,
        pane_id: r.agent.pane_id,
    }
}

/// The collapsed panel: one line per agent row, top down, as many as `area`
/// has lines.
pub fn render_collapsed(
    area: SurfaceRect,
    endpoints: &Vec<ClientShellEndpoint>,
    active_endpoint_id: &ClientEndpointId,
    sort: AgentPanelSort,
) -> (r: Vec<CollapsedAgentCell>)
    requires
        area.y + area.height <= u16::MAX,
    ensures
        ({
            let rows = ordered_rows(endpoints@, active_endpoint_id@, sort);
            &&& r@.len() == if rows.len() < area.height {
                rows.len()
            } else {
                area.height as nat
            }
            &&& forall|i: int| 0 <= i < r@.len() ==> (#[trigger] r@[i])@ == collapsed_cell(area, i, rows[i])
        }),
{
    let rows = agent_rows(endpoints, active_endpoint_id, sort);
    let ghost flat = rows_view(rows@);
    let n: usize = if rows.len() < area.height as usize {
        rows.len()
    } else {
        area.height as usize
    };
    let mut cells: Vec<CollapsedAgentCell> = Vec::new();
    let mut index: usize = 0;
    while index < n
        invariant
            flat == rows_view(rows@),
            n <= rows@.len(),
            n <= area.height,
            area.y + area.height <= u16::MAX,
            index <= n,
            cells@.len() == index,
            forall|i: int| 0 <= i < index ==> (#[trigger] cells@[i])@ == collapsed_cell(area, i, flat[i]),
        decreases n - index,
    {
        let row = &rows[index];
        let label = row.machine_label.as_str();
        let initial = if label.unicode_len() > 0 {
            label.get_char(0)
        } else {
            '?'
        };
        cells.push(
            CollapsedAgentCell {
                rect: SurfaceRect { x: area.x, y: area.y + index as u16, width: area.width, height: 1 },
                initial,
                status: row.agent.status,
                highlighted: row.agent.focused,
                dim: row.stale,
                endpoint_id: row.endpoint_id.clone(),
                pane_id: row.agent.pane_id.clone(),
            },
        );
        index = index + 1;
    }
    cells
}

/// A panel row placed on screen, and whether it is drawn dim.
#[derive(Debug)]
pub struct PlacedPanelRow {
    pub rect: SurfaceRect,
    pub row: EndpointPanelRow,
    pub dim: bool,
}

pub struct PlacedView {
    pub rect: SurfaceRect,
    pub row: PanelRowView,
    pub dim: bool,
}

/// Whether a panel row is drawn dim: an agent row of a stale machine is; a
/// group header never is.
pub open spec fn row_dim(r: PanelRowView) -> bool {
    match r {
        PanelRowView::Group(_) => false,
        PanelRowView::Agent(a) => a.stale,
    }
}

impl View for PlacedPanelRow {
    type V = PlacedView;

    open spec fn view(&self) -> PlacedView {
        PlacedView { rect: self.rect, row: self.row@, dim: self.dim }
    }
}

pub open spec fn placed_view(rows: Seq<PlacedPanelRow>) -> Seq<PlacedView> {
    rows.map_values(|r: PlacedPanelRow| r@)
}

/// The expanded panel: a header line, then the panel rows from the scroll
/// start down; with an agent view and no rows, its empty notice.
#[derive(Debug)]
pub struct ExpandedAgentPanel {
    pub header: Option<SurfaceRect>,
    pub rows: Vec<PlacedPanelRow>,
    pub no_matching_agents: bool,
}

/// Rows from `i` on, stacked from line `y` with `gap` lines between them,
/// until the body ends at `bottom`; the last one shown may be cut short.
pub open spec fn layout(
    rows: Seq<PanelRowView>,
    gap: u16,
    i: int,
    y: int,
    bottom: int,
    x: u16,
    width: u16,
) -> Seq<PlacedView>
    decreases rows.len() - i,
{
    if i < 0 || i >= rows.len() || y >= bottom {
        Seq::empty()
    } else {
        let h = reveal_height(rows[i]);
        seq![
            PlacedView {
                rect: SurfaceRect {
                    x: x,
                    y: y as u16,
                    width: width,
                    height: if h < bottom - y {
                        h
                    } else {
                        (bottom - y) as u16
                    },
                },
                row: rows[i],
                dim: row_dim(rows[i]),
            },
        ] + layout(rows, gap, i + 1, y + h + gap, bottom, x, width)
    }
}

/// The heights of `rows` on screen.
pub open spec fn heights_of(rows: Seq<PanelRowView>) -> Seq<u16> {
    Seq::new(rows.len(), |i: int| reveal_height(rows[i]))
}

pub open spec fn gaps_of(n: nat, gap: u16) -> Seq<u16> {
    Seq::new(n, |i: int| if i == n - 1 { 0 } else { gap })
}

/// The scroll start once clamped: no later than the start at which the last
/// row fits.
pub open spec fn clamped_scroll(rows: Seq<PanelRowView>, gap: u16, body: u16, scroll: usize) -> usize {
    if rows.len() == 0 {
        0
    } else {
        let last = revealed_start(heights_of(rows), gaps_of(rows.len(), gap), body, 0, rows.len() - 1);
        if scroll > last {
            last as usize
        } else {
            scroll
        }
    }
}

/// Lays out the expanded panel in `area`: a header line, then the panel
/// rows from the (clamped) scroll start, `row_gap` lines apart. The panel
/// needs a line and a column to show at all.
pub fn render_expanded(
    area: SurfaceRect,
    agent_view_label: Option<&str>,
    endpoints: &Vec<ClientShellEndpoint>,
    active_endpoint_id: &ClientEndpointId,
    sort: AgentPanelSort,
    row_gap: u16,
    collapsed_agent_groups: &Vec<String>,
    agent_scroll: &mut usize,
) -> (r: ExpandedAgentPanel)
    requires
        area.y + area.height <= u16::MAX,
    ensures
        area.height == 0 || area.width == 0 ==> r.header is None && r.rows@.len() == 0 && !r.no_matching_agents
            && *final(agent_scroll) == *old(agent_scroll),
        area.height > 0 && area.width > 0 ==> ({
            let rows = panel_of(
                endpoints@,
                active_endpoint_id@,
                sort,
                agent_view_label is Some,
                keys_view(collapsed_agent_groups@),
            );
            let body = (area.height - 1) as u16;
            let start = clamped_scroll(rows, row_gap, body, *old(agent_scroll));
            &&& r.header == Some(SurfaceRect { x: area.x, y: area.y, width: area.width, height: 1 })
            &&& *final(agent_scroll) == start
            &&& placed_view(r.rows@) == layout(
                rows,
                row_gap,
                start as int,
                area.y + 1,
                area.y + area.height,
                area.x,
                area.width,
            )
            &&& r.no_matching_agents == (agent_view_label is Some && rows.len() == 0)
        }),
{
    if area.height == 0 || area.width == 0 {
        return ExpandedAgentPanel { header: None, rows: Vec::new(), no_matching_agents: false };
    }
    let rows = panel_rows(endpoints, active_endpoint_id, sort, agent_view_label.is_some(), collapsed_agent_groups);
    let ghost view = panel_view(rows@);
    let body: u16 = area.height - 1;
    let n = rows.len();
    let heights = row_heights(&rows);
    let gaps = row_gaps(n, row_gap);
    proof {
        assert(heights@ =~= heights_of(view));
        assert(gaps@ =~= gaps_of(view.len(), row_gap));
    }
    if n == 0 {
        *agent_scroll = 0;
    } else {
        let last = list_scroll_start_to_reveal(&heights, &gaps, body, 0, n - 1);
        if *agent_scroll > last {
            *agent_scroll = last;
        }
    }
    let start = *agent_scroll;
    let top: u32 = area.y as u32 + 1;
    let bottom: u32 = area.y as u32 + area.height as u32;
    let mut rows = rows;
    let ghost all = rows@;
    let mut placed: Vec<PlacedPanelRow> = Vec::new();
    // Rows before the start are dropped first.
    let mut i: usize = 0;
    while i < start && i < n
        invariant
            n == all.len(),
            view == panel_view(all),
            i <= n,
            i <= start,
            rows@ == all.skip(i as int),
        decreases n - i,
    {
        let _ = rows.remove(0);
        assert(rows@ =~= all.skip(i + 1));
        i = i + 1;
    }
    let mut y: u32 = top;
    assert(layout(view, row_gap, start as int, top as int, bottom as int, area.x, area.width) == layout(
        view,
        row_gap,
        i as int,
        y as int,
        bottom as int,
        area.x,
        area.width,
    ));
    while i < n && y < bottom
        invariant
            n == all.len(),
            view == panel_view(all),
            heights@ == heights_of(view),
            i <= n,
            rows@ == all.skip(i as int),
            bottom <= u16::MAX,
            y <= u16::MAX as u32 * 3,
            placed_view(placed@) + layout(view, row_gap, i as int, y as int, bottom as int, area.x, area.width)
                == layout(view, row_gap, start as int, top as int, bottom as int, area.x, area.width),
        decreases n - i,
    {
        let h = heights[i];
        let height: u16 = if (h as u32) < bottom - y {
            h
        } else {
            (bottom - y) as u16
        };
        let row = rows.remove(0);
        assert(row == all[i as int]);
        let dim = match &row {
            EndpointPanelRow::Group(_) => false,
            EndpointPanelRow::Agent(agent) => agent.stale,
        };
        let ghost before = placed_view(placed@);
        placed.push(
            PlacedPanelRow { rect: SurfaceRect { x: area.x, y: y as u16, width: area.width, height }, row, dim },
        );
        assert(placed_view(placed@) =~= before.push(placed@.last()@));
        assert(rows@ =~= all.skip(i + 1));
        let ghost rest = layout(view, row_gap, i + 1, y + h + row_gap, bottom as int, area.x, area.width);
        assert(layout(view, row_gap, i as int, y as int, bottom as int, area.x, area.width) == seq![
            placed@.last()@,
        ] + rest);
        assert(placed_view(placed@) + rest =~= before + (seq![placed@.last()@] + rest));
        y = y + h as u32 + row_gap as u32;
        i = i + 1;
    }
    assert(layout(view, row_gap, i as int, y as int, bottom as int, area.x, area.width) =~= Seq::empty());
    assert(placed_view(placed@) =~= placed_view(placed@) + Seq::<PlacedView>::empty());
    ExpandedAgentPanel { header: Some(SurfaceRect { x: area.x, y: area.y, width: area.width, height: 1 }), rows: placed, no_matching_agents: agent_view_label.is_some() && n == 0 }
}

/// The rows at each severity together, as a multiset.
pub open spec fn severity_levels(rows: Seq<RowView>) -> Multiset<RowView> {
    with_severity(rows, 4).to_multiset().add(with_severity(rows, 3).to_multiset()).add(
        with_severity(rows, 2).to_multiset(),
    ).add(with_severity(rows, 1).to_multiset()).add(with_severity(rows, 0).to_multiset())
}

proof fn lemma_severity_levels(rows: Seq<RowView>)
    ensures
        severity_levels(rows) =~= rows.to_multiset(),
    decreases rows.len(),
{
    broadcast use vstd::seq_lib::group_to_multiset_ensures;

    if rows.len() == 0 {
        assert(rows.to_multiset() =~= Multiset::empty());
    } else {
        let p = rows.drop_last();
        let r = rows.last();
        lemma_severity_levels(p);
        assert(rows =~= p.push(r));
        vstd::seq_lib::to_multiset_build(p, r);
        let one = seq![r];
        assert(one.to_multiset() =~= Multiset::empty().insert(r)) by {
            vstd::seq_lib::to_multiset_build(Seq::<RowView>::empty(), r);
            assert(Seq::<RowView>::empty().push(r) =~= one);
        }
        let level = severity(r.agent.status);
        assert forall|l: nat| l <= 4 implies #[trigger] with_severity(rows, l).to_multiset() =~= if level == l {
            with_severity(p, l).to_multiset().insert(r)
        } else {
            with_severity(p, l).to_multiset()
        } by {
            vstd::seq_lib::lemma_multiset_commutative(
                with_severity(p, l),
                if level == l {
                    one
                } else {
                    Seq::empty()
                },
            );
            assert(Seq::<RowView>::empty().to_multiset() =~= Multiset::empty());
        }
        assert(with_severity(rows, 4).to_multiset() == if level == 4 {
            with_severity(p, 4).to_multiset().insert(r)
        } else {
            with_severity(p, 4).to_multiset()
        });
        assert(with_severity(rows, 3).to_multiset() == if level == 3 {
            with_severity(p, 3).to_multiset().insert(r)
        } else {
            with_severity(p, 3).to_multiset()
        });
        assert(with_severity(rows, 2).to_multiset() == if level == 2 {
            with_severity(p, 2).to_multiset().insert(r)
        } else {
            with_severity(p, 2).to_multiset()
        });
        assert(with_severity(rows, 1).to_multiset() == if level == 1 {
            with_severity(p, 1).to_multiset().insert(r)
        } else {
            with_severity(p, 1).to_multiset()
        });
        assert(with_severity(rows, 0).to_multiset() == if level == 0 {
            with_severity(p, 0).to_multiset().insert(r)
        } else {
            with_severity(p, 0).to_multiset()
        });
        assert(severity_levels(rows) =~= severity_levels(p).insert(r));
    }
}

/// Sorting by priority only reorders: the panel shows exactly the same agent
/// rows, each as often as before.
pub proof fn lemma_priority_reorders_only(rows: Seq<RowView>)
    ensures
        by_priority(rows).to_multiset() =~= rows.to_multiset(),
{
    let w4 = with_severity(rows, 4);
    let w3 = with_severity(rows, 3);
    let w2 = with_severity(rows, 2);
    let w1 = with_severity(rows, 1);
    let w0 = with_severity(rows, 0);
    vstd::seq_lib::lemma_multiset_commutative(w4, w3);
    vstd::seq_lib::lemma_multiset_commutative(w4 + w3, w2);
    vstd::seq_lib::lemma_multiset_commutative(w4 + w3 + w2, w1);
    vstd::seq_lib::lemma_multiset_commutative(w4 + w3 + w2 + w1, w0);
    lemma_severity_levels(rows);
}

/// Each bucket of the priority order holds only rows of its severity; the
/// buckets follow one another from most to least urgent.
pub proof fn lemma_severity_bucket(rows: Seq<RowView>, level: nat, r: RowView)
    requires
        level <= 4,
        with_severity(rows, level).contains(r),
    ensures
        severity(r.agent.status) == level,
    decreases rows.len(),
{
    if rows.len() > 0 {
        let p = rows.drop_last();
        let tail = if severity(rows.last().agent.status) == level {
            seq![rows.last()]
        } else {
            Seq::empty()
        };
        let i = choose|i: int| 0 <= i < with_severity(rows, level).len() && with_severity(rows, level)[i] == r;
        if i < with_severity(p, level).len() {
            assert(with_severity(p, level)[i] == r);
            lemma_severity_bucket(p, level, r);
        } else {
            assert(tail[i - with_severity(p, level).len()] == r);
        }
    }
}

/// Group keys are distinct: each machine gets at most one header.
pub proof fn lemma_group_keys_distinct(rows: Seq<RowView>)
    ensures
        first_keys(rows).no_duplicates(),
    decreases rows.len(),
{
    if rows.len() > 0 {
        lemma_group_keys_distinct(rows.drop_last());
    }
}

/// A key has members exactly when it heads a group: a machine without agent
/// rows (no snapshot, or an empty one) gets no header.
pub proof fn lemma_members_have_group(rows: Seq<RowView>, key: Seq<char>)
    ensures
        members_of(rows, key).len() > 0 <==> first_keys(rows).contains(key),
    decreases rows.len(),
{
    if rows.len() > 0 {
        let p = rows.drop_last();
        lemma_members_have_group(p, key);
        if first_keys(p).contains(key) {
            let i = choose|i: int| 0 <= i < first_keys(p).len() && first_keys(p)[i] == key;
            if !first_keys(p).contains(group_key_of(rows.last())) {
                assert(first_keys(rows)[i] == key);
            }
        }
        if group_key_of(rows.last()) == key && !first_keys(p).contains(key) {
            assert(first_keys(rows).last() == key);
        }
        if first_keys(rows).contains(key) && !first_keys(p).contains(key) {
            let i = choose|i: int| 0 <= i < first_keys(rows).len() && first_keys(rows)[i] == key;
            if !first_keys(p).contains(group_key_of(rows.last())) {
                if i < first_keys(p).len() {
                    assert(first_keys(p)[i] == key);
                }
            }
        }
    }
}

/// The members of the groups with keys `keys`, group after group.
pub open spec fn all_members(rows: Seq<RowView>, keys: Seq<Seq<char>>) -> Seq<RowView>
    decreases keys.len(),
{
    if keys.len() == 0 {
        Seq::empty()
    } else {
        all_members(rows, keys.drop_last()) + members_of(rows, keys.last())
    }
}

proof fn lemma_all_members_push(rows: Seq<RowView>, r: RowView, keys: Seq<Seq<char>>)
    requires
        keys.no_duplicates(),
    ensures
        all_members(rows.push(r), keys).to_multiset() =~= if keys.contains(group_key_of(r)) {
            all_members(rows, keys).to_multiset().insert(r)
        } else {
            all_members(rows, keys).to_multiset()
        },
    decreases keys.len(),
{
    broadcast use vstd::seq_lib::group_to_multiset_ensures;

    let rows2 = rows.push(r);
    assert(rows2.drop_last() =~= rows);
    if keys.len() == 0 {
        assert(all_members(rows2, keys).to_multiset() =~= Multiset::empty());
        assert(all_members(rows, keys).to_multiset() =~= Multiset::empty());
    } else {
        let front = keys.drop_last();
        let k = keys.last();
        assert(front.no_duplicates()) by {
            assert forall|i: int, j: int| 0 <= i < front.len() && 0 <= j < front.len() && i != j implies front[i]
                != front[j] by {
                assert(keys[i] == front[i] && keys[j] == front[j]);
            }
        }
        lemma_all_members_push(rows, r, front);
        vstd::seq_lib::lemma_multiset_commutative(all_members(rows2, front), members_of(rows2, k));
        vstd::seq_lib::lemma_multiset_commutative(all_members(rows, front), members_of(rows, k));
        let one = seq![r];
        assert(one.to_multiset() =~= Multiset::empty().insert(r)) by {
            vstd::seq_lib::to_multiset_build(Seq::<RowView>::empty(), r);
            assert(Seq::<RowView>::empty().push(r) =~= one);
        }
        if group_key_of(r) == k {
            vstd::seq_lib::lemma_multiset_commutative(members_of(rows, k), one);
            assert(members_of(rows2, k) =~= members_of(rows, k) + one);
            assert(!front.contains(k)) by {
                if front.contains(k) {
                    let i = choose|i: int| 0 <= i < front.len() && front[i] == k;
                    assert(keys[i] == keys[keys.len() - 1]);
                }
            }
        } else {
            assert(members_of(rows2, k) =~= members_of(rows, k) + Seq::empty());
            assert(Seq::<RowView>::empty().to_multiset() =~= Multiset::empty());
            vstd::seq_lib::lemma_multiset_commutative(members_of(rows, k), Seq::<RowView>::empty());
        }
        assert(keys.contains(group_key_of(r)) == (front.contains(group_key_of(r)) || group_key_of(r) == k)) by {
            if keys.contains(group_key_of(r)) {
                let i = choose|i: int| 0 <= i < keys.len() && keys[i] == group_key_of(r);
                if i < front.len() {
                    assert(front[i] == group_key_of(r));
                }
            }
            if front.contains(group_key_of(r)) {
                let i = choose|i: int| 0 <= i < front.len() && front[i] == group_key_of(r);
                assert(keys[i] == group_key_of(r));
            }
        }
    }
}

/// Grouping by machine only arranges: together, the groups hold every agent
/// row exactly once.
pub proof fn lemma_groups_partition_rows(rows: Seq<RowView>)
    ensures
        all_members(rows, first_keys(rows)).to_multiset() =~= rows.to_multiset(),
    decreases rows.len(),
{
    broadcast use vstd::seq_lib::group_to_multiset_ensures;

    if rows.len() == 0 {
        assert(rows.to_multiset() =~= Multiset::empty());
        assert(all_members(rows, first_keys(rows)).to_multiset() =~= Multiset::empty());
    } else {
        let p = rows.drop_last();
        let r = rows.last();
        let k = group_key_of(r);
        assert(p.push(r) =~= rows);
        lemma_groups_partition_rows(p);
        lemma_group_keys_distinct(p);
        vstd::seq_lib::to_multiset_build(p, r);
        let keys = first_keys(p);
        lemma_all_members_push(p, r, keys);
        if !keys.contains(k) {
            lemma_members_have_group(p, k);
            lemma_group_keys_distinct(rows);
            assert(first_keys(rows) == keys.push(k));
            assert(keys.push(k).drop_last() =~= keys);
            assert(all_members(rows, keys.push(k)) == all_members(rows, keys) + members_of(rows, k));
            assert(members_of(rows, k) =~= members_of(p, k) + seq![r]);
            assert(members_of(p, k) =~= Seq::<RowView>::empty());
            vstd::seq_lib::lemma_multiset_commutative(all_members(rows, keys), seq![r]);
            vstd::seq_lib::to_multiset_build(Seq::<RowView>::empty(), r);
            assert(Seq::<RowView>::empty().push(r) =~= seq![r]);
            assert(Seq::<RowView>::empty().to_multiset() =~= Multiset::empty());
        }
    }
}

/// Revealing a row never leaves it below the body: the new start is at or
/// above the row, and either the rows from the start through it fit in the
/// body or the row itself is the first shown.
pub proof fn lemma_reveal_shows_target(heights: Seq<u16>, gaps: Seq<u16>, body: u16, scroll: int, target: int)
    requires
        0 <= target,
    ensures
        revealed_start(heights, gaps, body, scroll, target) <= target,
        revealed_start(heights, gaps, body, scroll, target) == target || span(
            heights,
            gaps,
            revealed_start(heights, gaps, body, scroll, target),
            target,
        ) <= body,
        target >= scroll ==> revealed_start(heights, gaps, body, scroll, target) >= scroll,
{
    if target >= scroll {
        lemma_first_fitting_start_bounds(heights, gaps, body, scroll, target);
        lemma_first_fitting_start_fits(heights, gaps, body, scroll, target);
    }
}

proof fn lemma_first_fitting_start_fits(heights: Seq<u16>, gaps: Seq<u16>, body: u16, s: int, t: int)
    requires
        s <= t,
    ensures
        first_fitting_start(heights, gaps, body, s, t) == t || span(
            heights,
            gaps,
            first_fitting_start(heights, gaps, body, s, t),
            t,
        ) <= body,
    decreases t - s,
{
    if !(s >= t || span(heights, gaps, s, t) <= body) {
        lemma_first_fitting_start_fits(heights, gaps, body, s + 1, t);
    }
}

/// Clamping the panel's scroll start only ever moves it up.
pub proof fn lemma_clamped_scroll_never_grows(rows: Seq<PanelRowView>, gap: u16, body: u16, scroll: usize)
    ensures
        clamped_scroll(rows, gap, body, scroll) <= scroll,
        rows.len() > 0 ==> clamped_scroll(rows, gap, body, scroll) < rows.len(),
{
    if rows.len() > 0 {
        lemma_first_fitting_start_bounds(heights_of(rows), gaps_of(rows.len(), gap), body, 0, rows.len() - 1);
    }
}

/// The expanded panel draws only inside its body: rows are placed top down
/// from the first body line, in panel order from the scroll start, each
/// below the previous one, and none reaches past the body's last line.
/// Stale machines' agent rows are dim; group headers never are.
pub proof fn lemma_layout_within_body(
    rows: Seq<PanelRowView>,
    gap: u16,
    i: int,
    y: int,
    bottom: int,
    x: u16,
    width: u16,
)
    requires
        0 <= i,
        0 <= y,
        bottom <= u16::MAX,
    ensures
        forall|k: int|
            0 <= k < layout(rows, gap, i, y, bottom, x, width).len() ==> placed_inside(
                layout(rows, gap, i, y, bottom, x, width),
                rows,
                i,
                y,
                bottom,
                k,
            ),
    decreases rows.len() - i,
{
    if !(i >= rows.len() || y >= bottom) {
        let h = reveal_height(rows[i]);
        let next = y + h + gap;
        lemma_layout_within_body(rows, gap, i + 1, next, bottom, x, width);
        let rest = layout(rows, gap, i + 1, next, bottom, x, width);
        let placed = layout(rows, gap, i, y, bottom, x, width);
        assert(placed[0].rect.y == y);
        assert forall|k: int| 0 <= k < placed.len() implies placed_inside(placed, rows, i, y, bottom, k) by {
            if k > 0 {
                assert(placed[k] == rest[k - 1]);
                assert(placed_inside(rest, rows, i + 1, next, bottom, k - 1));
                if k > 1 {
                    assert(placed[k - 1] == rest[k - 2]);
                }
            }
        }
    }
}

/// Row `k` of a layout starting at row `i` and line `y`: it shows row
/// `i + k`, dim exactly when that is an agent row of a stale machine, lies
/// between `y` and `bottom`, and starts below row `k - 1`.
pub open spec fn placed_inside(placed: Seq<PlacedView>, rows: Seq<PanelRowView>, i: int, y: int, bottom: int, k: int) -> bool {
    &&& y <= placed[k].rect.y
    &&& placed[k].rect.y + placed[k].rect.height <= bottom
    &&& placed[k].row == rows[i + k]
    &&& placed[k].dim == row_dim(rows[i + k])
    &&& (k > 0 ==> placed[k - 1].rect.y + placed[k - 1].rect.height <= placed[k].rect.y)
}

/// Each machine's rows are focused only on the active machine.
proof fn lemma_machine_rows_focus(es: Seq<ClientShellEndpoint>, active: EndpointKey)
    ensures
        forall|i: int|
            0 <= i < machine_rows(es, active).len() && (#[trigger] machine_rows(es, active)[i]).agent.focused
                ==> machine_rows(es, active)[i].endpoint == active,
    decreases es.len(),
{
    if es.len() > 0 {
        lemma_machine_rows_focus(es.drop_last(), active);
        let a = machine_rows(es.drop_last(), active);
        let b = endpoint_rows(es.last(), active);
        assert forall|i: int|
            0 <= i < machine_rows(es, active).len() && (#[trigger] machine_rows(es, active)[i]).agent.focused
                implies machine_rows(es, active)[i].endpoint == active by {
            if i < a.len() {
                assert(machine_rows(es, active)[i] == a[i]);
            } else {
                assert(machine_rows(es, active)[i] == b[i - a.len()]);
            }
        }
    }
}

/// Focus shows only on the active machine: in either sort, a row is
/// focused only if it belongs to the active endpoint, so an agent that
/// another machine marks as focused is never highlighted.
pub proof fn lemma_focus_only_on_active(es: Seq<ClientShellEndpoint>, active: EndpointKey, sort: AgentPanelSort)
    ensures
        forall|i: int|
            0 <= i < ordered_rows(es, active, sort).len() && (#[trigger] ordered_rows(es, active, sort)[i]).agent.focused
                ==> ordered_rows(es, active, sort)[i].endpoint == active,
{
    broadcast use vstd::seq_lib::group_to_multiset_ensures;

    let rows = machine_rows(es, active);
    lemma_machine_rows_focus(es, active);
    if sort == AgentPanelSort::Priority {
        lemma_priority_reorders_only(rows);
        assert forall|i: int|
            0 <= i < ordered_rows(es, active, sort).len() && (#[trigger] ordered_rows(es, active, sort)[i]).agent.focused
                implies ordered_rows(es, active, sort)[i].endpoint == active by {
            let r = by_priority(rows)[i];
            assert(by_priority(rows).contains(r));
            assert(rows.to_multiset().count(r) > 0);
            assert(rows.contains(r));
            let k = choose|k: int| 0 <= k < rows.len() && rows[k] == r;
            assert(rows[k].agent.focused);
        }
    }
}

} // verus!
