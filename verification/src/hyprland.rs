//! Workspaces and monitors of the Hyprland compositor.

use vstd::prelude::*;

use crate::model::{
    ActiveWindow, ActiveWindowModel, MonitorState, MonitorStateModel, Workspace, WorkspaceModel,
    WorkspaceState, WorkspaceStateModel,
};
use crate::record::Record;
use crate::sorting::{sorted, sorting_orders_and_keeps_items, stable_sort, Order};
use crate::text::{
    decimal, decimal_text, has_prefix, integer_text, is_empty, joined, joined3, signed_decimal, starts_with,
    trim, trim_start, trimmed, trimmed_start,
};

verus! {

/// A workspace as the compositor describes it.
#[derive(Debug, PartialEq, Eq)]
pub struct HyprWorkspace {
    pub id: i64,
    pub name: String,
    pub monitor: String,
    pub windows: u32,
    pub urgent: bool,
    pub has_fullscreen: bool,
    pub last_window_title: String,
}

/// What a [`HyprWorkspace`] holds.
#[verifier::ext_equal]
pub struct HyprWorkspaceModel {
    pub id: i64,
    pub name: Seq<char>,
    pub monitor: Seq<char>,
    pub windows: u32,
    pub urgent: bool,
    pub has_fullscreen: bool,
    pub last_window_title: Seq<char>,
}

impl DeepView for HyprWorkspace {
    type V = HyprWorkspaceModel;

    open spec fn deep_view(&self) -> HyprWorkspaceModel {
        HyprWorkspaceModel {
            id: self.id.deep_view(),
            name: self.name.deep_view(),
            monitor: self.monitor.deep_view(),
            windows: self.windows.deep_view(),
            urgent: self.urgent.deep_view(),
            has_fullscreen: self.has_fullscreen.deep_view(),
            last_window_title: self.last_window_title.deep_view(),
        }
    }
}

impl Record for HyprWorkspace {
    fn same(&self, other: &Self) -> (same: bool) {
        self.id.same(&other.id)
            && self.name.same(&other.name)
            && self.monitor.same(&other.monitor)
            && self.windows.same(&other.windows)
            && self.urgent.same(&other.urgent)
            && self.has_fullscreen.same(&other.has_fullscreen)
            && self.last_window_title.same(&other.last_window_title)
    }

    fn copy(&self) -> (copy: Self) {
        HyprWorkspace {
            id: self.id.copy(),
            name: self.name.copy(),
            monitor: self.monitor.copy(),
            windows: self.windows.copy(),
            urgent: self.urgent.copy(),
            has_fullscreen: self.has_fullscreen.copy(),
            last_window_title: self.last_window_title.copy(),
        }
    }
}

impl Clone for HyprWorkspace {
    fn clone(&self) -> (copy: Self)
        ensures
            copy.deep_view() == self.deep_view(),
    {
        self.copy()
    }
}

impl HyprWorkspaceModel {
    /// What a default [`HyprWorkspace`] holds.
    pub open spec fn initial() -> HyprWorkspaceModel {
        HyprWorkspaceModel {
            id: 0,
            name: Seq::empty(),
            monitor: Seq::empty(),
            windows: 0,
            urgent: false,
            has_fullscreen: false,
            last_window_title: Seq::empty(),
        }
    }
}

impl Default for HyprWorkspace {
    fn default() -> (value: HyprWorkspace)
        ensures
            value.deep_view() == HyprWorkspaceModel::initial(),
    {
        let value = HyprWorkspace {
            id: 0,
            name: String::new(),
            monitor: String::new(),
            windows: 0,
            urgent: false,
            has_fullscreen: false,
            last_window_title: String::new(),
        };
        assert(value.deep_view() =~= HyprWorkspaceModel::initial());
        value
    }
}

/// A monitor as the compositor describes it.
#[derive(Debug, PartialEq, Eq)]
pub struct HyprMonitor {
    pub id: i64,
    pub name: String,
    pub focused: bool,
    pub active_workspace_id: i64,
}

/// What a [`HyprMonitor`] holds.
#[verifier::ext_equal]
pub struct HyprMonitorModel {
    pub id: i64,
    pub name: Seq<char>,
    pub focused: bool,
    pub active_workspace_id: i64,
}

impl DeepView for HyprMonitor {
    type V = HyprMonitorModel;

    open spec fn deep_view(&self) -> HyprMonitorModel {
        HyprMonitorModel {
            id: self.id.deep_view(),
            name: self.name.deep_view(),
            focused: self.focused.deep_view(),
            active_workspace_id: self.active_workspace_id.deep_view(),
        }
    }
}

impl Record for HyprMonitor {
    fn same(&self, other: &Self) -> (same: bool) {
        self.id.same(&other.id)
            && self.name.same(&other.name)
            && self.focused.same(&other.focused)
            && self.active_workspace_id.same(&other.active_workspace_id)
    }

    fn copy(&self) -> (copy: Self) {
        HyprMonitor {
            id: self.id.copy(),
            name: self.name.copy(),
            focused: self.focused.copy(),
            active_workspace_id: self.active_workspace_id.copy(),
        }
    }
}

impl Clone for HyprMonitor {
    fn clone(&self) -> (copy: Self)
        ensures
            copy.deep_view() == self.deep_view(),
    {
        self.copy()
    }
}

impl HyprMonitorModel {
    /// What a default [`HyprMonitor`] holds.
    pub open spec fn initial() -> HyprMonitorModel {
        HyprMonitorModel {
            id: 0,
            name: Seq::empty(),
            focused: false,
            active_workspace_id: 0,
        }
    }
}

impl Default for HyprMonitor {
    fn default() -> (value: HyprMonitor)
        ensures
            value.deep_view() == HyprMonitorModel::initial(),
    {
        let value = HyprMonitor {
            id: 0,
            name: String::new(),
            focused: false,
            active_workspace_id: 0,
        };
        assert(value.deep_view() =~= HyprMonitorModel::initial());
        value
    }
}

/// A window as the compositor describes it. Without an address there is none.
#[derive(Debug, PartialEq, Eq)]
pub struct HyprWindow {
    pub address: String,
    pub title: String,
    pub class_name: String,
    pub initial_class: String,
    pub workspace_id: i64,
    pub fullscreen: i64,
    pub floating: bool,
}

/// What a [`HyprWindow`] holds.
#[verifier::ext_equal]
pub struct HyprWindowModel {
    pub address: Seq<char>,
    pub title: Seq<char>,
    pub class_name: Seq<char>,
    pub initial_class: Seq<char>,
    pub workspace_id: i64,
    pub fullscreen: i64,
    pub floating: bool,
}

impl DeepView for HyprWindow {
    type V = HyprWindowModel;

    open spec fn deep_view(&self) -> HyprWindowModel {
        HyprWindowModel {
            address: self.address.deep_view(),
            title: self.title.deep_view(),
            class_name: self.class_name.deep_view(),
            initial_class: self.initial_class.deep_view(),
            workspace_id: self.workspace_id.deep_view(),
            fullscreen: self.fullscreen.deep_view(),
            floating: self.floating.deep_view(),
        }
    }
}

impl Record for HyprWindow {
    fn same(&self, other: &Self) -> (same: bool) {
        self.address.same(&other.address)
            && self.title.same(&other.title)
            && self.class_name.same(&other.class_name)
            && self.initial_class.same(&other.initial_class)
            && self.workspace_id.same(&other.workspace_id)
            && self.fullscreen.same(&other.fullscreen)
            && self.floating.same(&other.floating)
    }

    fn copy(&self) -> (copy: Self) {
        HyprWindow {
            address: self.address.copy(),
            title: self.title.copy(),
            class_name: self.class_name.copy(),
            initial_class: self.initial_class.copy(),
            workspace_id: self.workspace_id.copy(),
            fullscreen: self.fullscreen.copy(),
            floating: self.floating.copy(),
        }
    }
}

impl Clone for HyprWindow {
    fn clone(&self) -> (copy: Self)
        ensures
            copy.deep_view() == self.deep_view(),
    {
        self.copy()
    }
}

impl HyprWindowModel {
    /// What a default [`HyprWindow`] holds.
    pub open spec fn initial() -> HyprWindowModel {
        HyprWindowModel {
            address: Seq::empty(),
            title: Seq::empty(),
            class_name: Seq::empty(),
            initial_class: Seq::empty(),
            workspace_id: 0,
            fullscreen: 0,
            floating: false,
        }
    }
}

impl Default for HyprWindow {
    fn default() -> (value: HyprWindow)
        ensures
            value.deep_view() == HyprWindowModel::initial(),
    {
        let value = HyprWindow {
            address: String::new(),
            title: String::new(),
            class_name: String::new(),
            initial_class: String::new(),
            workspace_id: 0,
            fullscreen: 0,
            floating: false,
        };
        assert(value.deep_view() =~= HyprWindowModel::initial());
        value
    }
}

/// Workspaces by id.
pub struct WorkspaceOrder;

impl Order<HyprWorkspace> for WorkspaceOrder {
    open spec fn before(a: HyprWorkspaceModel, b: HyprWorkspaceModel) -> bool {
        a.id < b.id
    }

    proof fn asymmetric(a: HyprWorkspaceModel, b: HyprWorkspaceModel) {
    }

    proof fn weak(a: HyprWorkspaceModel, b: HyprWorkspaceModel, c: HyprWorkspaceModel) {
    }

    fn is_before(a: &HyprWorkspace, b: &HyprWorkspace) -> (result: bool) {
        a.id < b.id
    }
}

/// Monitors by id.
pub struct MonitorOrder;

impl Order<HyprMonitor> for MonitorOrder {
    open spec fn before(a: HyprMonitorModel, b: HyprMonitorModel) -> bool {
        a.id < b.id
    }

    proof fn asymmetric(a: HyprMonitorModel, b: HyprMonitorModel) {
    }

    proof fn weak(a: HyprMonitorModel, b: HyprMonitorModel, c: HyprMonitorModel) {
    }

    fn is_before(a: &HyprMonitor, b: &HyprMonitor) -> (result: bool) {
        a.id < b.id
    }
}

/// The name of the first monitor that has the focus.
pub open spec fn focused_name(monitors: Seq<HyprMonitorModel>) -> Option<Seq<char>>
    decreases monitors.len(),
{
    if monitors.len() == 0 {
        None
    } else if monitors[0].focused {
        Some(monitors[0].name)
    } else {
        focused_name(monitors.skip(1))
    }
}

/// A monitor as it is shown.
pub open spec fn shown_monitor(monitor: HyprMonitorModel) -> MonitorStateModel {
    MonitorStateModel {
        id: monitor.id,
        name: monitor.name,
        focused: monitor.focused,
        active_workspace_id: monitor.active_workspace_id,
    }
}

/// A workspace as it is shown.
pub open spec fn shown_workspace(workspace: HyprWorkspaceModel) -> WorkspaceModel {
    WorkspaceModel {
        id: workspace.id,
        name: workspace.name,
        monitor: workspace.monitor,
        windows: workspace.windows,
        urgent: workspace.urgent,
        fullscreen: workspace.has_fullscreen,
        last_window_title: workspace.last_window_title,
    }
}

/// A window as it is shown.
pub open spec fn shown_window(window: HyprWindowModel) -> Option<ActiveWindowModel> {
    if window.address.len() == 0 {
        None
    } else {
        Some(
            ActiveWindowModel {
                address: window.address,
                title: window.title,
                class_name: window.class_name,
                initial_class: window.initial_class,
                workspace_id: window.workspace_id,
                fullscreen: window.fullscreen != 0,
                floating: window.floating,
            },
        )
    }
}

/// The state to show of workspaces and monitors, both by id.
pub open spec fn state_of(
    workspaces: Seq<HyprWorkspaceModel>,
    monitors: Seq<HyprMonitorModel>,
    window: HyprWindowModel,
) -> WorkspaceStateModel {
    let monitors = sorted::<HyprMonitor, MonitorOrder>(monitors);
    let workspaces = sorted::<HyprWorkspace, WorkspaceOrder>(workspaces);
    WorkspaceStateModel {
        available: true,
        focused_monitor: focused_name(monitors),
        active_window: shown_window(window),
        monitors: monitors.map_values(|monitor: HyprMonitorModel| shown_monitor(monitor)),
        workspaces: workspaces.map_values(
            |workspace: HyprWorkspaceModel| shown_workspace(workspace),
        ),
        error: None,
    }
}

fn find_focused(monitors: &Vec<HyprMonitor>) -> (name: Option<String>)
    ensures
        name.deep_view() == focused_name(monitors.deep_view()),
{
    let ghost all = monitors.deep_view();
    let mut i: usize = 0;
    assert(all.skip(0) =~= all);
    while i < monitors.len()
        invariant
            i <= monitors@.len(),
            all == monitors.deep_view(),
            focused_name(all) == focused_name(all.skip(i as int)),
        decreases monitors@.len() - i,
    {
        assert(all.skip(i as int)[0] == monitors@[i as int].deep_view());
        if monitors[i].focused {
            return Some(monitors[i].name.clone());
        }
        assert(all.skip(i as int).skip(1) =~= all.skip(i + 1));
        i = i + 1;
    }
    None
}

fn show_monitors(monitors: &Vec<HyprMonitor>) -> (states: Vec<MonitorState>)
    ensures
        states.deep_view() == monitors.deep_view().map_values(
            |monitor: HyprMonitorModel| shown_monitor(monitor),
        ),
{
    let mut states: Vec<MonitorState> = Vec::new();
    let mut i: usize = 0;
    while i < monitors.len()
        invariant
            i <= monitors@.len(),
            states@.len() == i,
            forall|k: int|
                0 <= k < i ==> (#[trigger] states@[k]).deep_view() == shown_monitor(
                    monitors@[k].deep_view(),
                ),
        decreases monitors@.len() - i,
    {
        let monitor = &monitors[i];
        states.push(
            MonitorState {
                id: monitor.id,
                name: monitor.name.clone(),
                focused: monitor.focused,
                active_workspace_id: monitor.active_workspace_id,
            },
        );
        i = i + 1;
    }
    assert(states.deep_view() =~= monitors.deep_view().map_values(
        |monitor: HyprMonitorModel| shown_monitor(monitor),
    ));
    states
}

fn show_workspaces(workspaces: &Vec<HyprWorkspace>) -> (states: Vec<Workspace>)
    ensures
        states.deep_view() == workspaces.deep_view().map_values(
            |workspace: HyprWorkspaceModel| shown_workspace(workspace),
        ),
{
    let mut states: Vec<Workspace> = Vec::new();
    let mut i: usize = 0;
    while i < workspaces.len()
        invariant
            i <= workspaces@.len(),
            states@.len() == i,
            forall|k: int|
                0 <= k < i ==> (#[trigger] states@[k]).deep_view() == shown_workspace(
                    workspaces@[k].deep_view(),
                ),
        decreases workspaces@.len() - i,
    {
        let workspace = &workspaces[i];
        states.push(
            Workspace {
                id: workspace.id,
                name: workspace.name.clone(),
                monitor: workspace.monitor.clone(),
                windows: workspace.windows,
                urgent: workspace.urgent,
                fullscreen: workspace.has_fullscreen,
                last_window_title: workspace.last_window_title.clone(),
            },
        );
        i = i + 1;
    }
    assert(states.deep_view() =~= workspaces.deep_view().map_values(
        |workspace: HyprWorkspaceModel| shown_workspace(workspace),
    ));
    states
}

fn show_window(window: HyprWindow) -> (state: Option<ActiveWindow>)
    ensures
        state.deep_view() == shown_window(window.deep_view()),
{
    if is_empty(window.address.as_str()) {
        return None;
    }
    Some(
        ActiveWindow {
            address: window.address,
            title: window.title,
            class_name: window.class_name,
            initial_class: window.initial_class,
            workspace_id: window.workspace_id,
            fullscreen: window.fullscreen != 0,
            floating: window.floating,
        },
    )
}

/// The state to show of workspaces and monitors.
pub fn workspace_state(
    workspaces: Vec<HyprWorkspace>,
    monitors: Vec<HyprMonitor>,
    window: HyprWindow,
) -> (state: WorkspaceState)
    ensures
        state.deep_view() == state_of(
            workspaces.deep_view(),
            monitors.deep_view(),
            window.deep_view(),
        ),
{
    let workspaces = stable_sort::<HyprWorkspace, WorkspaceOrder>(workspaces);
    let monitors = stable_sort::<HyprMonitor, MonitorOrder>(monitors);
    WorkspaceState {
        available: true,
        focused_monitor: find_focused(&monitors),
        active_window: show_window(window),
        monitors: show_monitors(&monitors),
        workspaces: show_workspaces(&workspaces),
        error: None,
    }
}

/// The command that focuses a workspace.
pub open spec fn focus_text(workspace_id: i64, on_current_monitor: bool) -> Seq<char> {
    "dispatch hl.dsp.focus({ workspace = "@ + integer_text(workspace_id as int) + (
    if on_current_monitor {
        ", on_current_monitor = true"@
    } else {
        Seq::empty()
    } + " })"@)
}

/// The command that focuses a workspace. There is none for an id that is not positive.
pub fn focus_command(workspace_id: i64, on_current_monitor: bool) -> (command: Option<String>)
    ensures
        command.deep_view() == if workspace_id > 0 {
            Some(focus_text(workspace_id, on_current_monitor))
        } else {
            None
        },
{
    if workspace_id <= 0 {
        return None;
    }
    proof {
        reveal_strlit("");
        assert(""@ =~= Seq::<char>::empty());
    }
    let current = if on_current_monitor {
        ", on_current_monitor = true"
    } else {
        ""
    };
    let tail = joined(current, " })");
    Some(
        joined3(
            "dispatch hl.dsp.focus({ workspace = ",
            signed_decimal(workspace_id).as_str(),
            tail.as_str(),
        ),
    )
}

/// Reads the answer to a focus command.
pub fn check_focus(response: &str) -> (result: Result<(), String>)
    ensures
        match result {
            Ok(()) => has_prefix(trimmed_start(response@), "ok"@),
            Err(message) => !has_prefix(trimmed_start(response@), "ok"@) && message@
                == "Hyprland rejected workspace focus: "@ + trimmed(response@),
        },
{
    let start = trim_start(response);
    if starts_with(start.as_str(), "ok") {
        Ok(())
    } else {
        Err(joined("Hyprland rejected workspace focus: ", trim(response).as_str()))
    }
}

/// The names that events begin with which change what is shown.
pub open spec fn event_prefixes() -> Seq<Seq<char>> {
    seq![
        "workspace"@,
        "focusedmon"@,
        "createworkspace"@,
        "destroyworkspace"@,
        "moveworkspace"@,
        "openwindow"@,
        "closewindow"@,
        "movewindow"@,
        "urgent"@,
        "fullscreen"@,
        "monitoradded"@,
        "monitorremoved"@,
        "configreloaded"@,
    ]
}

fn prefixes() -> (names: Vec<String>)
    ensures
        names.deep_view() == event_prefixes(),
{
    let mut names: Vec<String> = Vec::new();
    names.push("workspace".to_string());
    names.push("focusedmon".to_string());
    names.push("createworkspace".to_string());
    names.push("destroyworkspace".to_string());
    names.push("moveworkspace".to_string());
    names.push("openwindow".to_string());
    names.push("closewindow".to_string());
    names.push("movewindow".to_string());
    names.push("urgent".to_string());
    names.push("fullscreen".to_string());
    names.push("monitoradded".to_string());
    names.push("monitorremoved".to_string());
    names.push("configreloaded".to_string());
    assert(names.deep_view() =~= event_prefixes());
    names
}

/// Whether an event changes what is shown.
pub fn refresh_event(event: &str) -> (refresh: bool)
    ensures
        refresh <==> exists|i: int|
            0 <= i < event_prefixes().len() && has_prefix(event@, #[trigger] event_prefixes()[i]),
{
    let names = prefixes();
    let mut i: usize = 0;
    while i < names.len()
        invariant
            i <= names@.len(),
            names.deep_view() == event_prefixes(),
            forall|k: int| 0 <= k < i ==> !has_prefix(event@, #[trigger] event_prefixes()[k]),
        decreases names@.len() - i,
    {
        assert(event_prefixes()[i as int] == names@[i as int]@);
        if starts_with(event, names[i].as_str()) {
            return true;
        }
        i = i + 1;
    }
    false
}

/// Where the compositor is found: the directory of the session's sockets, and
/// the instance that the session belongs to, where that is known.
#[derive(Debug, PartialEq, Eq)]
pub struct HyprlandClient {
    pub runtime_dir: String,
    pub signature: Option<String>,
}

/// What a [`HyprlandClient`] holds.
#[verifier::ext_equal]
pub struct HyprlandClientModel {
    pub runtime_dir: Seq<char>,
    pub signature: Option<Seq<char>>,
}

impl DeepView for HyprlandClient {
    type V = HyprlandClientModel;

    open spec fn deep_view(&self) -> HyprlandClientModel {
        HyprlandClientModel {
            runtime_dir: self.runtime_dir.deep_view(),
            signature: self.signature.deep_view(),
        }
    }
}

impl Record for HyprlandClient {
    fn same(&self, other: &Self) -> (same: bool) {
        self.runtime_dir.same(&other.runtime_dir)
            && self.signature.same(&other.signature)
    }

    fn copy(&self) -> (copy: Self) {
        HyprlandClient {
            runtime_dir: self.runtime_dir.copy(),
            signature: self.signature.copy(),
        }
    }
}

impl Clone for HyprlandClient {
    fn clone(&self) -> (copy: Self)
        ensures
            copy.deep_view() == self.deep_view(),
    {
        self.copy()
    }
}

/// An instance of the compositor, and whether it takes commands.
#[derive(Debug, PartialEq, Eq)]
pub struct Instance {
    pub name: String,
    pub alive: bool,
}

/// The first instance that takes commands.
pub open spec fn first_alive(instances: Seq<Instance>) -> Option<Seq<char>>
    decreases instances.len(),
{
    if instances.len() == 0 {
        None
    } else if instances[0].alive {
        Some(instances[0].name@)
    } else {
        first_alive(instances.skip(1))
    }
}

impl HyprlandClient {
    /// What the environment says of the compositor. An empty signature says nothing.
    pub fn from_environment(
        runtime_dir: Option<String>,
        user_id: u32,
        signature: Option<String>,
    ) -> (client: HyprlandClient)
        ensures
            client.deep_view() == (HyprlandClientModel {
                runtime_dir: match runtime_dir {
                    Some(directory) => directory@,
                    None => "/run/user/"@ + decimal_text(user_id as nat),
                },
                signature: match signature {
                    Some(signature) if signature@.len() > 0 => Some(signature@),
                    _ => None,
                },
            }),
    {
        let runtime_dir = match runtime_dir {
            Some(directory) => directory,
            None => joined("/run/user/", decimal(user_id as u64).as_str()),
        };
        let signature = match signature {
            Some(signature) => if is_empty(signature.as_str()) {
                None
            } else {
                Some(signature)
            },
            None => None,
        };
        HyprlandClient { runtime_dir, signature }
    }

    /// The instance to talk to: the session's own where it takes commands, else
    /// the first that does.
    pub fn choose_instance(&self, own_alive: bool, instances: &Vec<Instance>) -> (name: Option<
        String,
    >)
        ensures
            name.deep_view() == match self.deep_view().signature {
                Some(signature) if own_alive => Some(signature),
                _ => first_alive(instances@),
            },
    {
        if own_alive {
            if let Some(signature) = &self.signature {
                return Some(signature.clone());
            }
        }
        let mut i: usize = 0;
        assert(instances@.skip(0) =~= instances@);
        while i < instances.len()
            invariant
                i <= instances@.len(),
                !own_alive || self.signature is None,
                first_alive(instances@) == first_alive(instances@.skip(i as int)),
            decreases instances@.len() - i,
        {
            assert(instances@.skip(i as int)[0] == instances@[i as int]);
            if instances[i].alive {
                return Some(instances[i].name.clone());
            }
            assert(instances@.skip(i as int).skip(1) =~= instances@.skip(i + 1));
            i = i + 1;
        }
        None
    }
}

// Laws

/// The workspaces shown are those there are, each with its own values, by their
/// ids; so are the monitors; and the window in use is shown where it has an
/// address.
pub proof fn workspaces_are_shown_as_they_are(
    workspaces: Seq<HyprWorkspaceModel>,
    monitors: Seq<HyprMonitorModel>,
    window: HyprWindowModel,
)
    ensures
        ({
            let state = state_of(workspaces, monitors, window);
            &&& state.available && state.error is None
            &&& state.workspaces.len() == workspaces.len()
            &&& state.monitors.len() == monitors.len()
            &&& forall|i: int|
                0 <= i < workspaces.len() ==> exists|k: int|
                    0 <= k < state.workspaces.len() && shows_workspace(
                        #[trigger] state.workspaces[k],
                        #[trigger] workspaces[i],
                    )
            &&& forall|i: int|
                0 <= i < monitors.len() ==> exists|k: int|
                    0 <= k < state.monitors.len() && shows_monitor(
                        #[trigger] state.monitors[k],
                        #[trigger] monitors[i],
                    )
            &&& forall|i: int, j: int|
                0 <= i < j < state.workspaces.len() ==> (#[trigger] state.workspaces[i]).id <= (
                #[trigger] state.workspaces[j]).id
            &&& forall|i: int, j: int|
                0 <= i < j < state.monitors.len() ==> (#[trigger] state.monitors[i]).id <= (
                #[trigger] state.monitors[j]).id
            &&& window.address.len() == 0 ==> state.active_window is None
            &&& window.address.len() > 0 ==> (state.active_window matches Some(shown)
                && shown.address == window.address && shown.title == window.title
                && shown.class_name == window.class_name && shown.initial_class
                == window.initial_class && shown.workspace_id == window.workspace_id
                && shown.floating == window.floating && (shown.fullscreen <==> window.fullscreen
                != 0))
        }),
{
    let state = state_of(workspaces, monitors, window);
    let a = sorted::<HyprWorkspace, WorkspaceOrder>(workspaces);
    let b = sorted::<HyprMonitor, MonitorOrder>(monitors);
    sorting_orders_and_keeps_items::<HyprWorkspace, WorkspaceOrder>(workspaces);
    sorting_orders_and_keeps_items::<HyprMonitor, MonitorOrder>(monitors);
    assert forall|i: int| 0 <= i < workspaces.len() implies exists|k: int|
        0 <= k < state.workspaces.len() && shows_workspace(
            #[trigger] state.workspaces[k],
            #[trigger] workspaces[i],
        ) by {
        lemma_same_items(workspaces, a, i);
        let k = choose|k: int| 0 <= k < a.len() && a[k] == workspaces[i];
        assert(state.workspaces[k] == shown_workspace(a[k]));
        assert(shows_workspace(state.workspaces[k], workspaces[i]));
    }
    assert forall|i: int| 0 <= i < monitors.len() implies exists|k: int|
        0 <= k < state.monitors.len() && shows_monitor(
            #[trigger] state.monitors[k],
            #[trigger] monitors[i],
        ) by {
        lemma_same_items(monitors, b, i);
        let k = choose|k: int| 0 <= k < b.len() && b[k] == monitors[i];
        assert(state.monitors[k] == shown_monitor(b[k]));
        assert(shows_monitor(state.monitors[k], monitors[i]));
    }
    assert forall|i: int, j: int| 0 <= i < j < state.workspaces.len() implies (
    #[trigger] state.workspaces[i]).id <= (#[trigger] state.workspaces[j]).id by {
        assert(!WorkspaceOrder::before(a[j], a[i]));
        assert(state.workspaces[i] == shown_workspace(a[i]));
        assert(state.workspaces[j] == shown_workspace(a[j]));
    }
    assert forall|i: int, j: int| 0 <= i < j < state.monitors.len() implies (
    #[trigger] state.monitors[i]).id <= (#[trigger] state.monitors[j]).id by {
        assert(!MonitorOrder::before(b[j], b[i]));
        assert(state.monitors[i] == shown_monitor(b[i]));
        assert(state.monitors[j] == shown_monitor(b[j]));
    }
}

/// Whether a workspace is shown with its own values.
pub open spec fn shows_workspace(shown: WorkspaceModel, workspace: HyprWorkspaceModel) -> bool {
    &&& shown.id == workspace.id && shown.name == workspace.name && shown.monitor
        == workspace.monitor
    &&& shown.windows == workspace.windows && shown.urgent == workspace.urgent
    &&& shown.fullscreen == workspace.has_fullscreen && shown.last_window_title
        == workspace.last_window_title
}

/// Whether a monitor is shown with its own values.
pub open spec fn shows_monitor(shown: MonitorStateModel, monitor: HyprMonitorModel) -> bool {
    &&& shown.id == monitor.id && shown.name == monitor.name && shown.focused == monitor.focused
    &&& shown.active_workspace_id == monitor.active_workspace_id
}

proof fn lemma_same_items<T>(a: Seq<T>, b: Seq<T>, i: int)
    requires
        a.to_multiset() == b.to_multiset(),
        0 <= i < a.len(),
    ensures
        b.contains(a[i]),
{
    broadcast use vstd::seq_lib::group_to_multiset_ensures;

    assert(a.contains(a[i]));
    assert(a.to_multiset().count(a[i]) > 0);
}

/// The monitor in focus is the first that is focused; there is none if and only if
/// none is.
pub proof fn focused_monitor_is_first_focused(monitors: Seq<HyprMonitorModel>, at: int)
    requires
        0 <= at <= monitors.len(),
        forall|i: int| 0 <= i < at ==> !(#[trigger] monitors[i]).focused,
        at < monitors.len() ==> monitors[at].focused,
    ensures
        at < monitors.len() ==> focused_name(monitors) == Some(monitors[at].name),
        at == monitors.len() ==> focused_name(monitors) is None,
    decreases monitors.len(),
{
    if at > 0 {
        assert(!monitors[0].focused);
        let rest = monitors.skip(1);
        assert forall|i: int| 0 <= i < at - 1 implies !(#[trigger] rest[i]).focused by {
            assert(rest[i] == monitors[i + 1]);
        }
        if at < monitors.len() {
            assert(rest[at - 1] == monitors[at]);
        }
        focused_monitor_is_first_focused(rest, at - 1);
    }
}

/// The instance that is talked to is the first that is alive; there is none if
/// and only if none is.
pub proof fn first_live_instance_is_taken(instances: Seq<Instance>, at: int)
    requires
        0 <= at <= instances.len(),
        forall|i: int| 0 <= i < at ==> !(#[trigger] instances[i]).alive,
        at < instances.len() ==> instances[at].alive,
    ensures
        at < instances.len() ==> first_alive(instances) == Some(instances[at].name@),
        at == instances.len() ==> first_alive(instances) is None,
    decreases instances.len(),
{
    if at > 0 {
        assert(!instances[0].alive);
        let rest = instances.skip(1);
        assert forall|i: int| 0 <= i < at - 1 implies !(#[trigger] rest[i]).alive by {
            assert(rest[i] == instances[i + 1]);
        }
        if at < instances.len() {
            assert(rest[at - 1] == instances[at]);
        }
        first_live_instance_is_taken(rest, at - 1);
    }
}

/// The command that focuses a workspace holds its id, and says that the monitor
/// in use is to show it if and only if that was asked for.
pub proof fn focus_names_the_workspace(workspace_id: i64)
    requires
        workspace_id > 0,
    ensures
        focus_text(workspace_id, false) == "dispatch hl.dsp.focus({ workspace = "@ + decimal_text(
            workspace_id as nat,
        ) + " })"@,
        focus_text(workspace_id, true) == "dispatch hl.dsp.focus({ workspace = "@ + decimal_text(
            workspace_id as nat,
        ) + ", on_current_monitor = true })"@,
{
    reveal_strlit(", on_current_monitor = true");
    reveal_strlit(" })");
    reveal_strlit(", on_current_monitor = true })");
    assert(", on_current_monitor = true"@ + " })"@ =~= ", on_current_monitor = true })"@);
    assert(focus_text(workspace_id, false) =~= "dispatch hl.dsp.focus({ workspace = "@
        + decimal_text(workspace_id as nat) + " })"@);
}

/// The monitor in focus is shown by its name if and only if one is focused; of
/// several it is one with the smallest id.
pub proof fn focus_is_shown(
    workspaces: Seq<HyprWorkspaceModel>,
    monitors: Seq<HyprMonitorModel>,
    window: HyprWindowModel,
)
    ensures
        ({
            let focus = state_of(workspaces, monitors, window).focused_monitor;
            &&& focus is None <==> forall|i: int|
                0 <= i < monitors.len() ==> !(#[trigger] monitors[i]).focused
            &&& focus matches Some(name) ==> exists|i: int|
                0 <= i < monitors.len() && (#[trigger] monitors[i]).focused && monitors[i].name
                    == name && forall|j: int|
                    0 <= j < monitors.len() && (#[trigger] monitors[j]).focused ==> monitors[i].id
                        <= monitors[j].id
        }),
{
    let order = sorted::<HyprMonitor, MonitorOrder>(monitors);
    sorting_orders_and_keeps_items::<HyprMonitor, MonitorOrder>(monitors);
    lemma_first_focused(order);
    if focused_name(order) is Some {
        let at = choose|i: int|
            0 <= i < order.len() && (#[trigger] order[i]).focused && Some(order[i].name)
                == focused_name(order) && forall|j: int| 0 <= j < i ==> !(#[trigger] order[j]).focused;
        lemma_same_items(order, monitors, at);
        let k = choose|k: int| 0 <= k < monitors.len() && monitors[k] == order[at];
        assert(monitors[k].focused);
        assert forall|j: int|
            0 <= j < monitors.len() && (#[trigger] monitors[j]).focused implies monitors[k].id
            <= monitors[j].id by {
            lemma_same_items(monitors, order, j);
            let m = choose|m: int| 0 <= m < order.len() && order[m] == monitors[j];
            assert(order[m].focused);
            if m > at {
                assert(!MonitorOrder::before(order[m], order[at]));
            }
        }
    } else {
        assert forall|i: int| 0 <= i < monitors.len() implies !(#[trigger] monitors[i]).focused by {
            lemma_same_items(monitors, order, i);
            let m = choose|m: int| 0 <= m < order.len() && order[m] == monitors[i];
            assert(!order[m].focused);
        }
    }
}

proof fn lemma_first_focused(monitors: Seq<HyprMonitorModel>)
    ensures
        focused_name(monitors) is None ==> forall|i: int|
            0 <= i < monitors.len() ==> !(#[trigger] monitors[i]).focused,
        focused_name(monitors) is Some ==> exists|i: int|
            0 <= i < monitors.len() && (#[trigger] monitors[i]).focused && Some(monitors[i].name)
                == focused_name(monitors) && forall|j: int|
                0 <= j < i ==> !(#[trigger] monitors[j]).focused,
    decreases monitors.len(),
{
    if monitors.len() > 0 {
        if monitors[0].focused {
            assert(monitors[0].focused);
        } else {
            let rest = monitors.skip(1);
            lemma_first_focused(rest);
            assert forall|i: int| 0 < i < monitors.len() implies #[trigger] monitors[i] == rest[i
                - 1] by {}
            if focused_name(rest) is Some {
                let k = choose|i: int|
                    0 <= i < rest.len() && (#[trigger] rest[i]).focused && Some(rest[i].name)
                        == focused_name(rest) && forall|j: int|
                        0 <= j < i ==> !(#[trigger] rest[j]).focused;
                assert(monitors[k + 1].focused);
                assert forall|j: int| 0 <= j < k + 1 implies !(#[trigger] monitors[j]).focused by {
                    if j > 0 {
                        assert(!rest[j - 1].focused);
                    }
                }
            } else {
                assert forall|i: int| 0 <= i < monitors.len() implies !(
                #[trigger] monitors[i]).focused by {
                    if i > 0 {
                        assert(!rest[i - 1].focused);
                    }
                }
            }
        }
    }
}

} // verus!
