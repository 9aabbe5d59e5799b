//! Runtime tool filtering.
//!
//! A configuration is one list of disabled tool names: every tool is
//! enabled unless its name is on the list.  Loading the list from disk and
//! writing it back is the surrounding program's business; the model here
//! owns the membership logic and the catalogue of tool names.

use vstd::prelude::*;

use std::collections::HashSet;

verus! {

/// Tool configuration: the disabled-tools list.
#[derive(Debug, Clone)]
pub struct Config {
    /// Names of disabled tools; all others are enabled.
    pub disabled: Vec<String>,
}

impl Default for Config {
    /// The default configuration disables nothing.
    fn default() -> (c: Self)
        ensures
            c.disabled@ =~= Seq::<String>::empty(),
    {
        Config { disabled: Vec::new() }
    }
}

impl Config {
    /// Whether a name is on the disabled list.
    pub open spec fn spec_disabled(&self, name: Seq<char>) -> bool {
        exists|i: int| 0 <= i < self.disabled@.len() && self.disabled@[i]@ == name
    }

    /// A tool is enabled exactly when its name is not on the disabled list.
    pub fn is_enabled(&self, tool_name: &str) -> (r: bool)
        ensures
            r == !self.spec_disabled(tool_name@),
    {
        let name: String = tool_name.to_owned();
        let n: usize = self.disabled.len();
        let mut i: usize = 0;
        while i < n
            invariant
                i <= n,
                n == self.disabled@.len(),
                name@ == tool_name@,
                forall|j: int| 0 <= j < i ==> self.disabled@[j]@ != tool_name@,
            decreases n - i,
        {
            if self.disabled[i] == name {
                assert(self.spec_disabled(tool_name@));
                return false;
            }
            i = i + 1;
        }
        true
    }

    /// The disabled names as a hash set, for repeated lookups.  The
    /// contents mirror the list whenever `String` keys obey the standard
    /// hash-table key model.
    pub fn disabled_set(&self) -> (r: HashSet<String>)
        ensures
            (vstd::std_specs::hash::obeys_key_model::<String>()
                && vstd::std_specs::hash::builds_valid_hashers::<std::hash::RandomState>())
                ==> forall|s: String| r@.contains(s) <==> self.disabled@.contains(s),
    {
        let ghost ok = vstd::std_specs::hash::obeys_key_model::<String>()
            && vstd::std_specs::hash::builds_valid_hashers::<std::hash::RandomState>();
        let mut r: HashSet<String> = HashSet::new();
        let n: usize = self.disabled.len();
        let mut i: usize = 0;
        while i < n
            invariant
                i <= n,
                n == self.disabled@.len(),
                ok == (vstd::std_specs::hash::obeys_key_model::<String>()
                    && vstd::std_specs::hash::builds_valid_hashers::<std::hash::RandomState>()),
                ok ==> forall|s: String|
                    r@.contains(s) <==> self.disabled@.subrange(0, i as int).contains(s),
            decreases n - i,
        {
            let ghost before = r@;
            r.insert(self.disabled[i].clone());
            proof {
                if ok {
                    let prefix = self.disabled@.subrange(0, i as int);
                    let ext = self.disabled@.subrange(0, i as int + 1);
                    assert(ext.drop_last() =~= prefix);
                    assert forall|s: String| r@.contains(s) <==> ext.contains(s) by {
                        assert(r@ == before.insert(self.disabled@[i as int]));
                        if ext.contains(s) {
                            let w = choose|j: int| 0 <= j < ext.len() && ext[j] == s;
                            if w < i as int {
                                assert(prefix[w] == s);
                            }
                        }
                        if r@.contains(s) {
                            if before.contains(s) {
                                let w = choose|j: int| 0 <= j < prefix.len() && prefix[j] == s;
                                assert(ext[w] == s);
                            } else {
                                assert(ext[i as int] == s);
                            }
                        }
                    }
                }
            }
            i = i + 1;
        }
        proof {
            assert(self.disabled@.subrange(0, n as int) =~= self.disabled@);
        }
        r
    }

    /// Enables a tool: every entry of its name leaves the disabled list,
    /// and nothing else changes.
    pub fn enable(&mut self, tool_name: &str)
        ensures
            final(self).disabled@ == old(self).disabled@.filter(
                |s: String| s@ != tool_name@,
            ),
    {
        let name: String = tool_name.to_owned();
        let n: usize = self.disabled.len();
        let mut kept: Vec<String> = Vec::new();
        let mut i: usize = 0;
        while i < n
            invariant
                i <= n,
                n == self.disabled@.len(),
                name@ == tool_name@,
                kept@ == self.disabled@.subrange(0, i as int).filter(
                    |s: String| s@ != tool_name@,
                ),
            decreases n - i,
        {
            let keep = !(self.disabled[i] == name);
            if keep {
                kept.push(self.disabled[i].clone());
            }
            proof {
                let pred = |s: String| s@ != tool_name@;
                let prefix = self.disabled@.subrange(0, i as int);
                let ext = self.disabled@.subrange(0, i as int + 1);
                assert(ext.drop_last() =~= prefix);
                assert(ext.last() == self.disabled@[i as int]);
                reveal_with_fuel(Seq::filter, 2);
                assert(ext.filter(pred) == if pred(ext.last()) {
                    prefix.filter(pred).push(ext.last())
                } else {
                    prefix.filter(pred)
                });
            }
            i = i + 1;
        }
        proof {
            assert(self.disabled@.subrange(0, n as int) =~= self.disabled@);
        }
        self.disabled = kept;
    }

    /// Disables a tool: its name joins the disabled list once; disabling an
    /// already disabled tool changes nothing.
    pub fn disable(&mut self, tool_name: &str)
        ensures
            old(self).spec_disabled(tool_name@) ==> final(self).disabled@ == old(self).disabled@,
            !old(self).spec_disabled(tool_name@) ==> {
                &&& final(self).disabled@.len() == old(self).disabled@.len() + 1
                &&& final(self).disabled@.drop_last() == old(self).disabled@
                &&& final(self).disabled@.last()@ == tool_name@
            },
    {
        if self.is_enabled(tool_name) {
            self.disabled.push(tool_name.to_owned());
            proof {
                assert(self.disabled@.drop_last() =~= old(self).disabled@);
            }
        }
    }
}


/// The sensor tools, in registration order.
fn sensor_tools() -> (r: Vec<&'static str>)
    ensures
        r@.len() == 34,
        r@[0]@ == "get_context"@,
        r@[1]@ == "get_peripherals"@,
        r@[2]@ == "get_system_info"@,
        r@[3]@ == "get_top_processes"@,
        r@[4]@ == "find_process"@,
        r@[5]@ == "get_process_details"@,
        r@[6]@ == "list_processes"@,
        r@[7]@ == "get_network_stats"@,
        r@[8]@ == "get_component_temps"@,
        r@[9]@ == "get_disk_info"@,
        r@[10]@ == "get_display_info"@,
        r@[11]@ == "get_display_by_name"@,
        r@[12]@ == "get_display_at_point"@,
        r@[13]@ == "get_idle_time"@,
        r@[14]@ == "is_idle_for"@,
        r@[15]@ == "get_interfaces"@,
        r@[16]@ == "get_public_ip"@,
        r@[17]@ == "is_online"@,
        r@[18]@ == "dns_lookup"@,
        r@[19]@ == "get_network_info"@,
        r@[20]@ == "get_usb_devices"@,
        r@[21]@ == "get_battery_status"@,
        r@[22]@ == "scan_ble_devices"@,
        r@[23]@ == "get_status"@,
        r@[24]@ == "get_log"@,
        r@[25]@ == "get_branches"@,
        r@[26]@ == "get_current_branch"@,
        r@[27]@ == "get_remotes"@,
        r@[28]@ == "get_tags"@,
        r@[29]@ == "get_stash_list"@,
        r@[30]@ == "get_diff_summary"@,
        r@[31]@ == "get_users"@,
        r@[32]@ == "get_weather"@,
        r@[33]@ == "get_forecast"@,
{
    vec![
        "get_context",
        "get_peripherals",
        "get_system_info",
        "get_top_processes",
        "find_process",
        "get_process_details",
        "list_processes",
        "get_network_stats",
        "get_component_temps",
        "get_disk_info",
        "get_display_info",
        "get_display_by_name",
        "get_display_at_point",
        "get_idle_time",
        "is_idle_for",
        "get_interfaces",
        "get_public_ip",
        "is_online",
        "dns_lookup",
        "get_network_info",
        "get_usb_devices",
        "get_battery_status",
        "scan_ble_devices",
        "get_status",
        "get_log",
        "get_branches",
        "get_current_branch",
        "get_remotes",
        "get_tags",
        "get_stash_list",
        "get_diff_summary",
        "get_users",
        "get_weather",
        "get_forecast",
    ]
}


/// The actuator tools, in registration order.
fn actuator_tools() -> (r: Vec<&'static str>)
    ensures
        r@.len() == 38,
        r@[0]@ == "read_clipboard"@,
        r@[1]@ == "write_clipboard"@,
        r@[2]@ == "clear_clipboard"@,
        r@[3]@ == "get_volume"@,
        r@[4]@ == "set_volume"@,
        r@[5]@ == "get_mute"@,
        r@[6]@ == "set_mute"@,
        r@[7]@ == "list_audio_devices"@,
        r@[8]@ == "trash_file"@,
        r@[9]@ == "trash_files"@,
        r@[10]@ == "list_trash"@,
        r@[11]@ == "restore_from_trash"@,
        r@[12]@ == "empty_trash"@,
        r@[13]@ == "open_path"@,
        r@[14]@ == "open_with"@,
        r@[15]@ == "list_monitors"@,
        r@[16]@ == "capture_monitor"@,
        r@[17]@ == "list_windows"@,
        r@[18]@ == "capture_window"@,
        r@[19]@ == "capture_region"@,
        r@[20]@ == "list_cameras"@,
        r@[21]@ == "capture_camera"@,
        r@[22]@ == "get_camera_info"@,
        r@[23]@ == "list_microphones"@,
        r@[24]@ == "get_microphone_info"@,
        r@[25]@ == "capture_audio"@,
        r@[26]@ == "get_input_level"@,
        r@[27]@ == "list_models"@,
        r@[28]@ == "list_running"@,
        r@[29]@ == "show_model"@,
        r@[30]@ == "pull_model"@,
        r@[31]@ == "delete_model"@,
        r@[32]@ == "set_reminder"@,
        r@[33]@ == "list_reminders"@,
        r@[34]@ == "remove_reminder"@,
        r@[35]@ == "clear_reminders"@,
        r@[36]@ == "daemon_status"@,
        r@[37]@ == "get_history"@,
{
    vec![
        "read_clipboard",
        "write_clipboard",
        "clear_clipboard",
        "get_volume",
        "set_volume",
        "get_mute",
        "set_mute",
        "list_audio_devices",
        "trash_file",
        "trash_files",
        "list_trash",
        "restore_from_trash",
        "empty_trash",
        "open_path",
        "open_with",
        "list_monitors",
        "capture_monitor",
        "list_windows",
        "capture_window",
        "capture_region",
        "list_cameras",
        "capture_camera",
        "get_camera_info",
        "list_microphones",
        "get_microphone_info",
        "capture_audio",
        "get_input_level",
        "list_models",
        "list_running",
        "show_model",
        "pull_model",
        "delete_model",
        "set_reminder",
        "list_reminders",
        "remove_reminder",
        "clear_reminders",
        "daemon_status",
        "get_history",
    ]
}


/// The window-manager tools, in registration order.
fn i3_tools() -> (r: Vec<&'static str>)
    ensures
        r@.len() == 15,
        r@[0]@ == "get_workspaces"@,
        r@[1]@ == "get_tree"@,
        r@[2]@ == "switch_workspace"@,
        r@[3]@ == "focus_window"@,
        r@[4]@ == "move_to_workspace"@,
        r@[5]@ == "run_command"@,
        r@[6]@ == "exec"@,
        r@[7]@ == "kill"@,
        r@[8]@ == "kill_window"@,
        r@[9]@ == "fullscreen"@,
        r@[10]@ == "get_outputs"@,
        r@[11]@ == "get_marks"@,
        r@[12]@ == "get_binding_modes"@,
        r@[13]@ == "get_version"@,
        r@[14]@ == "get_scratchpad"@,
{
    vec![
        "get_workspaces",
        "get_tree",
        "switch_workspace",
        "focus_window",
        "move_to_workspace",
        "run_command",
        "exec",
        "kill",
        "kill_window",
        "fullscreen",
        "get_outputs",
        "get_marks",
        "get_binding_modes",
        "get_version",
        "get_scratchpad",
    ]
}


/// The desktop-input tools, in registration order.
fn xdotool_tools() -> (r: Vec<&'static str>)
    ensures
        r@.len() == 12,
        r@[0]@ == "move_mouse"@,
        r@[1]@ == "click"@,
        r@[2]@ == "click_at"@,
        r@[3]@ == "type_text"@,
        r@[4]@ == "key_press"@,
        r@[5]@ == "scroll"@,
        r@[6]@ == "get_mouse_position"@,
        r@[7]@ == "double_click"@,
        r@[8]@ == "search_window"@,
        r@[9]@ == "get_active_window"@,
        r@[10]@ == "get_window_geometry"@,
        r@[11]@ == "get_window_name"@,
{
    vec![
        "move_mouse",
        "click",
        "click_at",
        "type_text",
        "key_press",
        "scroll",
        "get_mouse_position",
        "double_click",
        "search_window",
        "get_active_window",
        "get_window_geometry",
        "get_window_name",
    ]
}


/// The media-player tools, in registration order.
fn mpris_tools() -> (r: Vec<&'static str>)
    ensures
        r@.len() == 10,
        r@[0]@ == "list_players"@,
        r@[1]@ == "get_now_playing"@,
        r@[2]@ == "media_play"@,
        r@[3]@ == "media_pause"@,
        r@[4]@ == "media_play_pause"@,
        r@[5]@ == "media_stop"@,
        r@[6]@ == "media_next"@,
        r@[7]@ == "media_previous"@,
        r@[8]@ == "get_player_volume"@,
        r@[9]@ == "set_player_volume"@,
{
    vec![
        "list_players",
        "get_now_playing",
        "media_play",
        "media_pause",
        "media_play_pause",
        "media_stop",
        "media_next",
        "media_previous",
        "get_player_volume",
        "set_player_volume",
    ]
}


/// The service-unit tools, in registration order.
fn systemd_tools() -> (r: Vec<&'static str>)
    ensures
        r@.len() == 7,
        r@[0]@ == "list_units"@,
        r@[1]@ == "get_unit_status"@,
        r@[2]@ == "start_unit"@,
        r@[3]@ == "stop_unit"@,
        r@[4]@ == "restart_unit"@,
        r@[5]@ == "list_failed_units"@,
        r@[6]@ == "get_unit_logs"@,
{
    vec![
        "list_units",
        "get_unit_status",
        "start_unit",
        "stop_unit",
        "restart_unit",
        "list_failed_units",
        "get_unit_logs",
    ]
}


/// The backlight tools, in registration order.
fn brightness_tools() -> (r: Vec<&'static str>)
    ensures
        r@.len() == 3,
        r@[0]@ == "list_brightness_devices"@,
        r@[1]@ == "get_brightness"@,
        r@[2]@ == "set_brightness"@,
{
    vec![
        "list_brightness_devices",
        "get_brightness",
        "set_brightness",
    ]
}


/// The Bluetooth tools, in registration order.
fn bluetooth_tools() -> (r: Vec<&'static str>)
    ensures
        r@.len() == 9,
        r@[0]@ == "list_adapters"@,
        r@[1]@ == "get_adapter_info"@,
        r@[2]@ == "discover_devices"@,
        r@[3]@ == "list_known_devices"@,
        r@[4]@ == "get_device_info"@,
        r@[5]@ == "pair_device"@,
        r@[6]@ == "remove_device"@,
        r@[7]@ == "connect_device"@,
        r@[8]@ == "disconnect_device"@,
{
    vec![
        "list_adapters",
        "get_adapter_info",
        "discover_devices",
        "list_known_devices",
        "get_device_info",
        "pair_device",
        "remove_device",
        "connect_device",
        "disconnect_device",
    ]
}


/// The message-bus tools, in registration order.
fn dbus_tools() -> (r: Vec<&'static str>)
    ensures
        r@.len() == 5,
        r@[0]@ == "list_names"@,
        r@[1]@ == "introspect"@,
        r@[2]@ == "call_method"@,
        r@[3]@ == "get_property"@,
        r@[4]@ == "set_property"@,
{
    vec![
        "list_names",
        "introspect",
        "call_method",
        "get_property",
        "set_property",
    ]
}


/// The session and power tools, in registration order.
fn logind_tools() -> (r: Vec<&'static str>)
    ensures
        r@.len() == 11,
        r@[0]@ == "suspend"@,
        r@[1]@ == "hibernate"@,
        r@[2]@ == "poweroff"@,
        r@[3]@ == "reboot"@,
        r@[4]@ == "lock_session"@,
        r@[5]@ == "list_sessions"@,
        r@[6]@ == "can_suspend"@,
        r@[7]@ == "can_hibernate"@,
        r@[8]@ == "can_poweroff"@,
        r@[9]@ == "can_reboot"@,
        r@[10]@ == "get_capabilities"@,
{
    vec![
        "suspend",
        "hibernate",
        "poweroff",
        "reboot",
        "lock_session",
        "list_sessions",
        "can_suspend",
        "can_hibernate",
        "can_poweroff",
        "can_reboot",
        "get_capabilities",
    ]
}


/// The sound-server tools, in registration order.
fn pulseaudio_tools() -> (r: Vec<&'static str>)
    ensures
        r@.len() == 11,
        r@[0]@ == "list_sinks"@,
        r@[1]@ == "list_sources"@,
        r@[2]@ == "list_sink_inputs"@,
        r@[3]@ == "list_source_outputs"@,
        r@[4]@ == "get_default_sink"@,
        r@[5]@ == "get_default_source"@,
        r@[6]@ == "set_default_sink"@,
        r@[7]@ == "set_default_source"@,
        r@[8]@ == "set_sink_input_volume"@,
        r@[9]@ == "set_sink_input_mute"@,
        r@[10]@ == "move_sink_input"@,
{
    vec![
        "list_sinks",
        "list_sources",
        "list_sink_inputs",
        "list_source_outputs",
        "get_default_sink",
        "get_default_source",
        "set_default_sink",
        "set_default_source",
        "set_sink_input_volume",
        "set_sink_input_mute",
        "move_sink_input",
    ]
}

/// The catalogue of every tool name the server can expose, pinned entry
/// by entry in its fixed registration order: sensors, then actuators,
/// then the Linux-only tools.
#[verifier::rlimit(100)]
pub fn all_tool_names() -> (r: Vec<&'static str>)
    ensures
        r@.len() == 155,
        r@[0]@ == "get_context"@,
        r@[1]@ == "get_peripherals"@,
        r@[2]@ == "get_system_info"@,
        r@[3]@ == "get_top_processes"@,
        r@[4]@ == "find_process"@,
        r@[5]@ == "get_process_details"@,
        r@[6]@ == "list_processes"@,
        r@[7]@ == "get_network_stats"@,
        r@[8]@ == "get_component_temps"@,
        r@[9]@ == "get_disk_info"@,
        r@[10]@ == "get_display_info"@,
        r@[11]@ == "get_display_by_name"@,
        r@[12]@ == "get_display_at_point"@,
        r@[13]@ == "get_idle_time"@,
        r@[14]@ == "is_idle_for"@,
        r@[15]@ == "get_interfaces"@,
        r@[16]@ == "get_public_ip"@,
        r@[17]@ == "is_online"@,
        r@[18]@ == "dns_lookup"@,
        r@[19]@ == "get_network_info"@,
        r@[20]@ == "get_usb_devices"@,
        r@[21]@ == "get_battery_status"@,
        r@[22]@ == "scan_ble_devices"@,
        r@[23]@ == "get_status"@,
        r@[24]@ == "get_log"@,
        r@[25]@ == "get_branches"@,
        r@[26]@ == "get_current_branch"@,
        r@[27]@ == "get_remotes"@,
        r@[28]@ == "get_tags"@,
        r@[29]@ == "get_stash_list"@,
        r@[30]@ == "get_diff_summary"@,
        r@[31]@ == "get_users"@,
        r@[32]@ == "get_weather"@,
        r@[33]@ == "get_forecast"@,
        r@[34]@ == "read_clipboard"@,
        r@[35]@ == "write_clipboard"@,
        r@[36]@ == "clear_clipboard"@,
        r@[37]@ == "get_volume"@,
        r@[38]@ == "set_volume"@,
        r@[39]@ == "get_mute"@,
        r@[40]@ == "set_mute"@,
        r@[41]@ == "list_audio_devices"@,
        r@[42]@ == "trash_file"@,
        r@[43]@ == "trash_files"@,
        r@[44]@ == "list_trash"@,
        r@[45]@ == "restore_from_trash"@,
        r@[46]@ == "empty_trash"@,
        r@[47]@ == "open_path"@,
        r@[48]@ == "open_with"@,
        r@[49]@ == "list_monitors"@,
        r@[50]@ == "capture_monitor"@,
        r@[51]@ == "list_windows"@,
        r@[52]@ == "capture_window"@,
        r@[53]@ == "capture_region"@,
        r@[54]@ == "list_cameras"@,
        r@[55]@ == "capture_camera"@,
        r@[56]@ == "get_camera_info"@,
        r@[57]@ == "list_microphones"@,
        r@[58]@ == "get_microphone_info"@,
        r@[59]@ == "capture_audio"@,
        r@[60]@ == "get_input_level"@,
        r@[61]@ == "list_models"@,
        r@[62]@ == "list_running"@,
        r@[63]@ == "show_model"@,
        r@[64]@ == "pull_model"@,
        r@[65]@ == "delete_model"@,
        r@[66]@ == "set_reminder"@,
        r@[67]@ == "list_reminders"@,
        r@[68]@ == "remove_reminder"@,
        r@[69]@ == "clear_reminders"@,
        r@[70]@ == "daemon_status"@,
        r@[71]@ == "get_history"@,
        r@[72]@ == "get_workspaces"@,
        r@[73]@ == "get_tree"@,
        r@[74]@ == "switch_workspace"@,
        r@[75]@ == "focus_window"@,
        r@[76]@ == "move_to_workspace"@,
        r@[77]@ == "run_command"@,
        r@[78]@ == "exec"@,
        r@[79]@ == "kill"@,
        r@[80]@ == "kill_window"@,
        r@[81]@ == "fullscreen"@,
        r@[82]@ == "get_outputs"@,
        r@[83]@ == "get_marks"@,
        r@[84]@ == "get_binding_modes"@,
        r@[85]@ == "get_version"@,
        r@[86]@ == "get_scratchpad"@,
        r@[87]@ == "move_mouse"@,
        r@[88]@ == "click"@,
        r@[89]@ == "click_at"@,
        r@[90]@ == "type_text"@,
        r@[91]@ == "key_press"@,
        r@[92]@ == "scroll"@,
        r@[93]@ == "get_mouse_position"@,
        r@[94]@ == "double_click"@,
        r@[95]@ == "search_window"@,
        r@[96]@ == "get_active_window"@,
        r@[97]@ == "get_window_geometry"@,
        r@[98]@ == "get_window_name"@,
        r@[99]@ == "list_players"@,
        r@[100]@ == "get_now_playing"@,
        r@[101]@ == "media_play"@,
        r@[102]@ == "media_pause"@,
        r@[103]@ == "media_play_pause"@,
        r@[104]@ == "media_stop"@,
        r@[105]@ == "media_next"@,
        r@[106]@ == "media_previous"@,
        r@[107]@ == "get_player_volume"@,
        r@[108]@ == "set_player_volume"@,
        r@[109]@ == "list_units"@,
        r@[110]@ == "get_unit_status"@,
        r@[111]@ == "start_unit"@,
        r@[112]@ == "stop_unit"@,
        r@[113]@ == "restart_unit"@,
        r@[114]@ == "list_failed_units"@,
        r@[115]@ == "get_unit_logs"@,
        r@[116]@ == "list_brightness_devices"@,
        r@[117]@ == "get_brightness"@,
        r@[118]@ == "set_brightness"@,
        r@[119]@ == "list_adapters"@,
        r@[120]@ == "get_adapter_info"@,
        r@[121]@ == "discover_devices"@,
        r@[122]@ == "list_known_devices"@,
        r@[123]@ == "get_device_info"@,
        r@[124]@ == "pair_device"@,
        r@[125]@ == "remove_device"@,
        r@[126]@ == "connect_device"@,
        r@[127]@ == "disconnect_device"@,
        r@[128]@ == "list_names"@,
        r@[129]@ == "introspect"@,
        r@[130]@ == "call_method"@,
        r@[131]@ == "get_property"@,
        r@[132]@ == "set_property"@,
        r@[133]@ == "suspend"@,
        r@[134]@ == "hibernate"@,
        r@[135]@ == "poweroff"@,
        r@[136]@ == "reboot"@,
        r@[137]@ == "lock_session"@,
        r@[138]@ == "list_sessions"@,
        r@[139]@ == "can_suspend"@,
        r@[140]@ == "can_hibernate"@,
        r@[141]@ == "can_poweroff"@,
        r@[142]@ == "can_reboot"@,
        r@[143]@ == "get_capabilities"@,
        r@[144]@ == "list_sinks"@,
        r@[145]@ == "list_sources"@,
        r@[146]@ == "list_sink_inputs"@,
        r@[147]@ == "list_source_outputs"@,
        r@[148]@ == "get_default_sink"@,
        r@[149]@ == "get_default_source"@,
        r@[150]@ == "set_default_sink"@,
        r@[151]@ == "set_default_source"@,
        r@[152]@ == "set_sink_input_volume"@,
        r@[153]@ == "set_sink_input_mute"@,
        r@[154]@ == "move_sink_input"@,
{
    let mut tools = sensor_tools();
    let mut group = actuator_tools();
    tools.append(&mut group);
    let mut group = i3_tools();
    tools.append(&mut group);
    let mut group = xdotool_tools();
    tools.append(&mut group);
    let mut group = mpris_tools();
    tools.append(&mut group);
    let mut group = systemd_tools();
    tools.append(&mut group);
    let mut group = brightness_tools();
    tools.append(&mut group);
    let mut group = bluetooth_tools();
    tools.append(&mut group);
    let mut group = dbus_tools();
    tools.append(&mut group);
    let mut group = logind_tools();
    tools.append(&mut group);
    let mut group = pulseaudio_tools();
    tools.append(&mut group);
    tools
}

} // verus!
