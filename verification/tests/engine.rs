use layershellev::capability::CapabilityState;
use layershellev::events::{ControllerCommand, CornerRadius, DispatchMessage, ProtocolRequest, TextInputCommand};
use layershellev::foreign_toplevel::{
    apply_state_array, ToplevelAction, ToplevelHandleData, ToplevelInfo, ToplevelStateCodes,
};
use layershellev::id::{Id, IdAllocator};
use layershellev::shell::ShellObject;
use layershellev::state::logical_coordinate;
use layershellev::input::{ActiveSurfaces, ActiveTarget, FingerPosition};
use layershellev::text_input::{Ime, TextInputData};
use layershellev::voice_mode::VoiceModeEvent;
use layershellev::{
    LayerEventError, PresentAvailableState, RefreshRequest, Shell, StartMode, WindowState,
    WindowStateUnit,
};

fn unit() -> WindowStateUnit<()> {
    WindowStateUnit::new(Id(1), 10, Shell::LayerShell(20))
}

#[test]
fn merge_wait_is_neutral() {
    let x = RefreshRequest::At(5);
    assert_eq!(RefreshRequest::Wait.merged(x), x);
    assert_eq!(x.merged(RefreshRequest::Wait), x);
    assert_eq!(
        RefreshRequest::Wait.merged(RefreshRequest::Wait),
        RefreshRequest::Wait
    );
}

#[test]
fn merge_timed_takes_earlier() {
    assert_eq!(
        RefreshRequest::At(7).merged(RefreshRequest::At(3)),
        RefreshRequest::At(3)
    );
    assert_eq!(
        RefreshRequest::At(3).merged(RefreshRequest::At(7)),
        RefreshRequest::At(3)
    );
}

#[test]
fn merge_next_frame_dominates() {
    assert_eq!(
        RefreshRequest::At(3).merged(RefreshRequest::NextFrame),
        RefreshRequest::NextFrame
    );
    assert_eq!(
        RefreshRequest::NextFrame.merged(RefreshRequest::Wait),
        RefreshRequest::NextFrame
    );
}

#[test]
fn present_slot_taken_once_per_cycle() {
    let mut u = unit();
    u.request_refresh(RefreshRequest::NextFrame);
    assert!(u.take_present_slot(0));
    // a second take fails until the frame callback fired
    u.request_refresh(RefreshRequest::NextFrame);
    assert!(!u.take_present_slot(0));
    assert!(u.request_next_present());
    assert!(!u.take_present_slot(0));
    u.present_slot_callback_done();
    assert!(u.take_present_slot(0));
}

#[test]
fn present_slot_needs_due_request() {
    let mut u = unit();
    assert!(!u.take_present_slot(100));
    u.request_refresh(RefreshRequest::At(200));
    assert!(!u.take_present_slot(100));
    assert!(u.take_present_slot(200));
    assert_eq!(u.request_flag.refresh, RefreshRequest::Wait);
    assert_eq!(u.present_available_state, PresentAvailableState::Taken);
}

#[test]
fn reset_present_slot_returns_taken_slot() {
    let mut u = unit();
    u.request_refresh(RefreshRequest::NextFrame);
    assert!(u.take_present_slot(0));
    assert!(u.reset_present_slot());
    assert!(!u.reset_present_slot());
}

#[test]
fn controller_created_exactly_once() {
    let mut cap = CapabilityState::new();
    cap.set_manager(Some(9));
    let first = cap.get_or_create_controller(Id(4)).unwrap();
    assert!(first.fresh);
    for _ in 0..5 {
        let again = cap.get_or_create_controller(Id(4)).unwrap();
        assert!(!again.fresh);
        assert_eq!(again.handle, first.handle);
    }
}

#[test]
fn controller_absent_manager_degrades() {
    let mut cap = CapabilityState::new();
    assert!(cap.get_or_create_controller(Id(4)).is_none());
    assert!(cap.controller_of(Id(4)).is_none());
}

#[test]
fn controller_removed_with_surface() {
    let mut cap = CapabilityState::new();
    cap.set_manager(Some(9));
    let c = cap.get_or_create_controller(Id(4)).unwrap();
    assert_eq!(cap.remove_surface(Id(4)), Some(c.handle));
    assert!(cap.controller_of(Id(4)).is_none());
}

#[test]
fn touch_points_are_independent() {
    let mut act = ActiveSurfaces::new();
    act.pointer_enter(ActiveTarget {
        surface: 1,
        unit: Some(Id(1)),
    });
    act.touch_down(
        7,
        ActiveTarget {
            surface: 2,
            unit: Some(Id(2)),
        },
        FingerPosition { x: 10, y: 20 },
    );
    act.touch_down(
        8,
        ActiveTarget {
            surface: 3,
            unit: Some(Id(3)),
        },
        FingerPosition { x: 30, y: 40 },
    );
    // moving and lifting touch 7 leaves touch 8 and the pointer alone
    let t = act.touch_motion(7, FingerPosition { x: 11, y: 21 });
    assert_eq!(t.unwrap().unit, Some(Id(2)));
    let up = act.touch_up(7).unwrap();
    assert_eq!(up.target.unit, Some(Id(2)));
    assert_eq!(up.position, FingerPosition { x: 11, y: 21 });
    let other = act.touch_motion(8, FingerPosition { x: 31, y: 41 });
    assert_eq!(other.unwrap().unit, Some(Id(3)));
    assert_eq!(act.pointer_target().unwrap().unit, Some(Id(1)));
}

#[test]
fn touch_cancel_keeps_pointer_slot() {
    let mut act = ActiveSurfaces::new();
    act.pointer_enter(ActiveTarget {
        surface: 1,
        unit: Some(Id(1)),
    });
    act.touch_down(
        7,
        ActiveTarget {
            surface: 2,
            unit: Some(Id(2)),
        },
        FingerPosition { x: 0, y: 0 },
    );
    let records = act.touch_cancel();
    assert_eq!(records.len(), 1);
    assert_eq!(records[0].1.touch_id, 7);
    assert_eq!(act.pointer_target().unwrap().unit, Some(Id(1)));
    assert!(act.touch_up(7).is_none());
}

#[test]
fn ime_preedit_then_done() {
    let mut ti = TextInputData::new();
    ti.preedit_string(Some(String::from("ab")), 1, 2);
    let events = ti.done();
    assert_eq!(
        events,
        vec![Ime::Preedit(String::from("ab"), Some((1, 2)))]
    );
}

#[test]
fn ime_commit_clears_stale_preedit() {
    let mut ti = TextInputData::new();
    ti.commit_string(Some(String::from("x")));
    ti.preedit_string(Some(String::from("y")), 0, 1);
    // the buffered commit wins: the later preedit is dropped, and the
    // emitted events are exactly the clearing preedit and the commit
    let events = ti.done();
    assert_eq!(
        events,
        vec![
            Ime::Preedit(String::new(), None),
            Ime::Commit(String::from("x"))
        ]
    );
}

#[test]
fn ime_invalid_cursor_offsets_are_dropped() {
    let mut ti = TextInputData::new();
    ti.preedit_string(Some(String::from("ab")), -1, 9);
    let events = ti.done();
    assert_eq!(events, vec![Ime::Preedit(String::from("ab"), None)]);
}

#[test]
fn allscreens_units_bound_to_outputs() {
    let mut state: WindowState<()> = WindowState::new("panel").with_allscreens();
    assert!(state.is_allscreens());
    let a = state.install_output_unit(100, 200, 1, None, None, None);
    let b = state.install_output_unit(101, 201, 2, None, None, None);
    assert_eq!(state.windows().len(), 2);
    assert_eq!(state.windows()[0].wl_output, Some(1));
    assert_eq!(state.windows()[1].wl_output, Some(2));
    // a later-discovered output yields a third unit, the others untouched
    state.on_new_output(77, 3);
    assert!(state.wants_surface_on_new_output());
    let c = state.install_output_unit(102, 202, 3, None, None, None);
    assert_eq!(state.windows().len(), 3);
    assert_eq!(state.windows()[0].id, a);
    assert_eq!(state.windows()[1].id, b);
    assert_eq!(state.windows()[2].id, c);
    assert_eq!(state.windows()[2].wl_output, Some(3));
    assert_ne!(a, b);
    assert_ne!(b, c);
}

#[test]
fn remove_shell_drops_every_controller() {
    let mut state: WindowState<()> = WindowState::new("panel");
    let id = state.install_output_unit(100, 200, 1, None, None, None);
    state.units[0].becreated = true;
    state.dismiss.set_manager(Some(5));
    state.corner_radius_cap.set_manager(Some(6));
    assert!(state.arm_dismiss(id));
    assert!(state.set_corner_radius_for_surface(
        id,
        Some(CornerRadius {
            top_left: 8,
            top_right: 8,
            bottom_right: 8,
            bottom_left: 8,
        })
    ));
    assert!(state.dismiss.controller_of(id).is_some());
    assert!(state.corner_radius_cap.controller_of(id).is_some());
    assert!(state.remove_shell(id).is_some());
    assert!(state.windows().is_empty());
    assert!(state.dismiss.controller_of(id).is_none());
    assert!(state.corner_radius_cap.controller_of(id).is_none());
}

#[test]
fn capability_command_degrades_without_manager() {
    let mut state: WindowState<()> = WindowState::new("panel");
    let id = state.install_output_unit(100, 200, 1, None, None, None);
    let before = state.requests.len();
    assert!(!state.hide_surface(id));
    assert_eq!(state.requests.len(), before);
}

#[test]
fn capability_command_queues_requests() {
    let mut state: WindowState<()> = WindowState::new("panel");
    let id = state.install_output_unit(100, 200, 1, None, None, None);
    state.surface_visibility.set_manager(Some(4));
    assert!(state.hide_surface(id));
    let creates = state
        .requests
        .iter()
        .filter(|r| matches!(r, ProtocolRequest::CreateController { .. }))
        .count();
    assert_eq!(creates, 1);
    // hiding again reuses the cached controller
    assert!(state.hide_surface(id));
    let creates = state
        .requests
        .iter()
        .filter(|r| matches!(r, ProtocolRequest::CreateController { .. }))
        .count();
    assert_eq!(creates, 1);
}

#[test]
fn new_output_message_is_queued() {
    let mut state: WindowState<()> = WindowState::new("panel");
    state.on_new_output(7, 3);
    assert_eq!(state.outputs, vec![(7, 3)]);
    assert_eq!(
        state.message.last(),
        Some(&(None, DispatchMessage::NewDisplay(3)))
    );
}

#[test]
fn start_mode_predicates() {
    assert!(StartMode::Active.is_active());
    assert!(StartMode::Background.is_background());
    assert!(StartMode::AllScreens.is_allscreens());
    assert!(StartMode::TargetScreen(String::from("DP-1")).is_with_target());
    assert!(!StartMode::Active.is_with_target());
}

#[test]
fn foreign_state_array_parsing() {
    let mut data = ToplevelHandleData::new();
    let codes = ToplevelStateCodes::protocol_default();
    apply_state_array(&mut data, codes, &vec![2, 0, 99]);
    assert!(data.is_activated);
    assert!(data.is_maximized);
    assert!(!data.is_minimized);
    assert!(!data.is_fullscreen);
    // a later array replaces the flags entirely
    apply_state_array(&mut data, codes, &vec![1]);
    assert!(!data.is_activated);
    assert!(data.is_minimized);
}

#[test]
fn display_name_prefers_title() {
    let named = ToplevelInfo {
        id: 1,
        title: String::from("Editor"),
        app_id: String::from("org.example.editor"),
        is_activated: false,
        is_maximized: false,
        is_minimized: false,
        is_fullscreen: false,
    };
    assert_eq!(named.display_name(), "Editor");
    let bare = ToplevelHandleData::new().to_info(2);
    assert_eq!(bare.display_name(), "");
}

#[test]
fn identities_never_repeat() {
    let mut alloc = IdAllocator::new();
    let a = alloc.allocate();
    let b = alloc.allocate();
    let c = alloc.allocate();
    assert_ne!(a, b);
    assert_ne!(b, c);
    assert_ne!(a, c);
}

#[test]
fn error_messages() {
    assert_eq!(LayerEventError::ConnectError.message(), "connect error");
    assert_eq!(LayerEventError::BindError.message(), "Bind Error");
    assert_eq!(
        LayerEventError::TempFileCreateFailed.message(),
        "create file failed"
    );
}

#[test]
fn request_refresh_routes_by_identity() {
    let mut state: WindowState<()> = WindowState::new("panel");
    let a = state.install_output_unit(100, 200, 1, None, None, None);
    let b = state.install_output_unit(101, 201, 2, None, None, None);
    state.request_refresh(a, RefreshRequest::NextFrame);
    assert_eq!(
        state.windows()[0].request_flag.refresh,
        RefreshRequest::NextFrame
    );
    assert_eq!(state.windows()[1].request_flag.refresh, RefreshRequest::Wait);
    state.request_refresh(b, RefreshRequest::At(9));
    assert_eq!(state.windows()[1].request_flag.refresh, RefreshRequest::At(9));
}

#[test]
fn shell_destroy_order() {
    let shell = Shell::XdgTopLevel((5, 6, Some(7)));
    assert_eq!(
        shell.destroy_order(),
        vec![
            ShellObject::Decoration(7),
            ShellObject::TopLevel(5),
            ShellObject::XdgSurface(6)
        ]
    );
    assert_eq!(Shell::InputPanel(9).destroy_order(), vec![]);
}

#[test]
fn voice_active_flag() {
    let mut state: WindowState<()> = WindowState::new("panel");
    assert!(!state.is_voice_active());
    state.set_voice_active(true);
    assert!(state.is_voice_active());
    state.set_voice_active(false);
    assert!(!state.is_voice_active());
}

#[test]
fn text_input_entered_once() {
    let mut state: WindowState<()> = WindowState::new("panel");
    state.text_input_entered(4);
    state.text_input_entered(4);
    assert_eq!(state.text_inputs, vec![4]);
    state.text_input_left(4);
    assert!(state.text_inputs.is_empty());
}

#[test]
fn touch_down_routes_to_unit() {
    let mut state: WindowState<()> = WindowState::new("panel");
    let id = state.install_output_unit(100, 200, 1, None, None, None);
    state.drain_messages();
    state.on_touch_down(5, 6, 2, 100, 7, 8);
    let messages = state.drain_messages();
    assert_eq!(
        messages.last(),
        Some(&(
            Some(id),
            DispatchMessage::TouchDown {
                serial: 5,
                time: 6,
                id: 2,
                x: 7,
                y: 8
            }
        ))
    );
    state.on_touch_up(9, 10, 2);
    let messages = state.drain_messages();
    assert!(matches!(
        messages.last(),
        Some(&(Some(_), DispatchMessage::TouchUp { id: 2, x: 7, y: 8, .. }))
    ));
}

#[test]
fn pointer_enter_leave_round_trip() {
    let mut state: WindowState<()> = WindowState::new("panel");
    let id = state.install_output_unit(100, 200, 1, None, None, None);
    state.drain_messages();
    state.on_pointer_enter(44, 9, 100, 1, 2);
    assert!(state.is_mouse_surface(id));
    state.on_pointer_leave();
    assert!(!state.is_mouse_surface(id));
    let messages = state.drain_messages();
    assert_eq!(messages.last(), Some(&(Some(id), DispatchMessage::MouseLeave)));
}

#[test]
fn layer_configure_sets_size_and_refresh() {
    let mut state: WindowState<()> = WindowState::new("panel");
    let _ = state.install_output_unit(100, 200, 1, None, None, None);
    assert!(state.on_layer_configure(200, 640, 48));
    assert_eq!(state.windows()[0].size, (640, 48));
    assert_eq!(
        state.windows()[0].request_flag.refresh,
        RefreshRequest::NextFrame
    );
    assert!(!state.on_layer_configure(999, 1, 1));
    assert!(state.on_layer_closed(200));
    assert!(state.windows()[0].request_flag.close);
}

#[test]
fn present_sweep_skips_zero_size() {
    let mut state: WindowState<()> = WindowState::new("panel");
    let id = state.install_output_unit(100, 200, 1, None, None, None);
    state.request_refresh(id, RefreshRequest::NextFrame);
    assert!(state.try_take_present_slot(id, 0).is_none());
    assert!(state.on_layer_configure(200, 640, 48));
    let took = state.try_take_present_slot(id, 0);
    assert_eq!(took, Some((640, 48, false, 120)));
    // the slot is now taken: a second sweep pass gets nothing
    state.request_refresh(id, RefreshRequest::NextFrame);
    assert!(state.try_take_present_slot(id, 0).is_none());
}

#[test]
fn will_stop_is_acknowledged_with_cached_flag() {
    let mut state: WindowState<()> = WindowState::new("panel");
    let id = state.install_output_unit(100, 200, 1, None, None, None);
    state.voice_mode.set_manager(Some(3));
    state.register_voice_mode_for_surface(id, 100);
    state.set_voice_active(true);
    state.drain_requests();
    state.on_voice_event(VoiceModeEvent::WillStop { serial: 77 });
    let requests = state.drain_requests();
    assert!(requests.iter().any(|r| matches!(
        r,
        ProtocolRequest::Controller {
            command: ControllerCommand::AckStop {
                serial: 77,
                freeze: true
            },
            ..
        }
    )));
    // stopping clears the cached flag
    state.on_voice_event(VoiceModeEvent::Stopped);
    assert!(!state.is_voice_active());
}

#[test]
fn ime_allowed_fans_out_to_text_inputs() {
    let mut state: WindowState<()> = WindowState::new("panel");
    state.text_input_entered(8);
    state.drain_requests();
    state.set_ime_allowed(true);
    let requests = state.drain_requests();
    assert_eq!(
        requests,
        vec![
            ProtocolRequest::TextInput {
                handle: 8,
                command: TextInputCommand::Enable
            },
            ProtocolRequest::TextInput {
                handle: 8,
                command: TextInputCommand::SetContentType {
                    hint: 0,
                    purpose: 0
                }
            },
            ProtocolRequest::TextInput {
                handle: 8,
                command: TextInputCommand::Commit
            },
        ]
    );
    state.set_ime_allowed(false);
    let requests = state.drain_requests();
    assert_eq!(requests.len(), 2);
}

#[test]
fn logical_coordinates_scale_by_fraction() {
    // a scale of 240 means a factor of two: physical 100 is logical 50
    assert_eq!(logical_coordinate(100, 240), 50);
    assert_eq!(logical_coordinate(100, 120), 100);
    assert_eq!(logical_coordinate(0, 180), 0);
}

#[test]
fn touch_cancel_reports_ids_and_positions() {
    let mut state: WindowState<()> = WindowState::new("panel");
    let id = state.install_output_unit(100, 200, 1, None, None, None);
    state.on_touch_down(1, 2, 7, 100, 30, 40);
    state.drain_messages();
    state.on_touch_cancel();
    let messages = state.drain_messages();
    assert_eq!(
        messages,
        vec![(Some(id), DispatchMessage::TouchCancel { id: 7, x: 30, y: 40 })]
    );
}

#[test]
fn hide_and_show_issue_their_own_commands() {
    let mut state: WindowState<()> = WindowState::new("panel");
    let id = state.install_output_unit(100, 200, 1, None, None, None);
    state.surface_visibility.set_manager(Some(4));
    state.hide_surface(id);
    let hide_requests = state.drain_requests();
    assert!(hide_requests.iter().any(|r| matches!(
        r,
        ProtocolRequest::Controller {
            command: ControllerCommand::SetHidden,
            ..
        }
    )));
    assert_eq!(hide_requests.last(), Some(&ProtocolRequest::Flush));
    state.show_surface(id);
    let show_requests = state.drain_requests();
    assert!(show_requests.iter().any(|r| matches!(
        r,
        ProtocolRequest::Controller {
            command: ControllerCommand::SetVisible,
            ..
        }
    )));
}

#[test]
fn corner_radius_commands_and_commit() {
    let mut state: WindowState<()> = WindowState::new("panel");
    let id = state.install_output_unit(100, 200, 1, None, None, None);
    state.corner_radius_cap.set_manager(Some(6));
    let radii = CornerRadius {
        top_left: 8,
        top_right: 8,
        bottom_right: 8,
        bottom_left: 8,
    };
    assert!(state.set_corner_radius_for_surface(id, Some(radii)));
    let requests = state.drain_requests();
    assert_eq!(requests.len(), 3);
    assert!(matches!(requests[0], ProtocolRequest::CreateController { .. }));
    assert_eq!(
        requests[1],
        ProtocolRequest::Controller {
            capability: layershellev::events::CapabilityKind::CornerRadius,
            controller: 0,
            command: ControllerCommand::SetRadius(radii),
        }
    );
    assert_eq!(requests[2], ProtocolRequest::CommitSurface(100));
}

#[test]
fn remove_shell_queues_destruction_in_order() {
    let mut state: WindowState<()> = WindowState::new("panel");
    let id = state.install_output_unit(100, 200, 1, None, None, None);
    state.units[0].becreated = true;
    state.drain_requests();
    assert!(state.remove_shell(id).is_some());
    let requests = state.drain_requests();
    assert_eq!(
        requests,
        vec![
            ProtocolRequest::DestroyShellObject(ShellObject::LayerSurface(200)),
            ProtocolRequest::DestroySurface(100),
        ]
    );
}

#[test]
fn home_state_and_dismiss_events() {
    let mut state: WindowState<()> = WindowState::new("panel");
    assert!(!state.is_home());
    state.home_state_changed(true);
    assert!(state.is_home());
    assert!(!state.take_dismiss_requested());
    state.on_dismiss_requested();
    assert!(state.take_dismiss_requested());
    assert!(!state.take_dismiss_requested());
    let messages = state.drain_messages();
    assert_eq!(
        messages,
        vec![
            (None, DispatchMessage::HomeStateChanged(true)),
            (None, DispatchMessage::DismissRequested),
        ]
    );
}

#[test]
fn request_next_present_queues_one_frame() {
    let mut state: WindowState<()> = WindowState::new("panel");
    let id = state.install_output_unit(100, 200, 1, None, None, None);
    state.on_layer_configure(200, 640, 48);
    state.drain_requests();
    // not taken yet: nothing to register
    state.request_next_present(id);
    assert!(state.drain_requests().is_empty());
    assert!(state.try_take_present_slot(id, 0).is_some());
    state.request_next_present(id);
    assert_eq!(
        state.drain_requests(),
        vec![ProtocolRequest::Frame {
            surface: 100,
            unit: id
        }]
    );
}

#[test]
fn toplevel_action_prefers_cosmic_and_gates_force_close() {
    let mut state: WindowState<()> = WindowState::new("panel");
    // unknown handle: nothing is issued
    assert!(!state.execute_toplevel_action(ToplevelAction::Close(5)));
    assert!(state.drain_requests().is_empty());
    state.cosmic_toplevel_manager = Some(9);
    state.cosmic_toplevel_manager_version = 4;
    state.cosmic_toplevel_handles.insert(5, 50);
    assert!(state.execute_toplevel_action(ToplevelAction::ForceClose(5)));
    // below the fifth protocol version, force-close degrades to close
    assert_eq!(
        state.drain_requests(),
        vec![ProtocolRequest::ToplevelClose {
            via_cosmic: true,
            handle: 50
        }]
    );
    state.cosmic_toplevel_manager_version = 5;
    assert!(state.execute_toplevel_action(ToplevelAction::ForceClose(5)));
    assert_eq!(
        state.drain_requests(),
        vec![ProtocolRequest::ToplevelForceClose { handle: 50 }]
    );
    // activation needs a seat
    assert!(!state.execute_toplevel_action(ToplevelAction::Activate(5)));
    state.seat = Some(3);
    assert!(state.execute_toplevel_action(ToplevelAction::Activate(5)));
    assert_eq!(
        state.drain_requests(),
        vec![ProtocolRequest::ToplevelActivate {
            via_cosmic: true,
            handle: 50,
            seat: 3
        }]
    );
}
