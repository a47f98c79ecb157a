use foxy::utils::behavior::{CloseBehavior, ColorMode, Visibility};
use foxy::utils::mailbox::Mailbox;
use foxy::vulkan::debug::{
    debug_message_label, REPORTED_SEVERITIES, REPORTED_TYPES, SEVERITY_ERROR, SEVERITY_WARNING, TYPE_DEVICE_ADDRESS_BINDING,
    TYPE_PERFORMANCE, TYPE_VALIDATION,
};
use foxy::vulkan::error::VulkanError;
use foxy::vulkan::shader::{cast_compiled_words, decode_cached_spirv, SPIRV_MAGIC};
use foxy::window::builder::WindowBuilder;
use foxy::window::message::{StateMessage, WindowMessage, WM_CLOSE, WM_DESTROY, WM_MOUSEMOVE, WM_USER};
use foxy::window::procs::{window_proc_reply, ProcReply, SubclassWindowData};
use foxy::window::state::ready_handles;
use foxy::vulkan::shader_cache::{cached_shader_path, SHADER_ASSET_DIR, SHADER_CACHE_DIR};
use foxy::window::window_loop::{
    MainMessage, ReportStage, WindowLoop, WindowThreadAction, WindowThreadCreateInfo, MSG_EXIT_LOOP, MSG_MAIN_CLOSE_REQ,
    WINDOW_SUBCLASS_ID, WINDOW_THREAD_ID,
};

#[test]
fn window_loop_constants() {
    assert_eq!(MSG_MAIN_CLOSE_REQ, WM_USER + 11);
    assert_eq!(MSG_EXIT_LOOP, WM_USER + 69);
    assert_eq!(WINDOW_SUBCLASS_ID, 0);
    assert_eq!(WINDOW_THREAD_ID, "window");
}

#[test]
fn window_thread_stops_only_on_main_close_request() {
    let close = WindowMessage::Other { hwnd: 3, message: MSG_MAIN_CLOSE_REQ, w_param: 0, l_param: 0 };
    assert_eq!(WindowLoop::action_for(&close), WindowThreadAction::DestroyAndExit);
    let exit = WindowMessage::Other { hwnd: 3, message: MSG_EXIT_LOOP, w_param: 0, l_param: 0 };
    assert_eq!(WindowLoop::action_for(&exit), WindowThreadAction::Continue);
    assert_eq!(WindowLoop::action_for(&WindowMessage::State(StateMessage::CloseRequested)), WindowThreadAction::Continue);
    assert_eq!(WindowLoop::action_for(&WindowMessage::ExitLoop), WindowThreadAction::Continue);
    assert_eq!(WindowLoop::action_for(&WindowMessage::Empty), WindowThreadAction::Continue);
}

#[test]
fn window_loop_reports_to_main_thread() {
    let (window_side, main_side) = Mailbox::<WindowMessage, MainMessage>::new_entangled_pair();
    let mut window_loop = WindowLoop::new(window_side);
    assert_eq!(window_loop.current_stage(), ReportStage::Opening);
    assert!(window_loop.report_ready(11, 22).is_ok());
    assert_eq!(window_loop.current_stage(), ReportStage::Running);
    assert!(window_loop.report_exit().is_ok());
    assert_eq!(window_loop.current_stage(), ReportStage::Ended);
    assert_eq!(main_side.recv().unwrap(), WindowMessage::State(StateMessage::Ready { hwnd: 11, hinstance: 22 }));
    assert_eq!(main_side.recv().unwrap(), WindowMessage::ExitLoop);
    main_side.send(MainMessage::DestroyWindow { hwnd: 11 }).unwrap();

    let (window_side, main_side) = Mailbox::<WindowMessage, MainMessage>::new_entangled_pair();
    let mut lonely = WindowLoop::new(window_side);
    drop(main_side);
    assert!(lonely.report_ready(1, 2).is_err());
    assert!(lonely.report_exit().is_err());
    assert_eq!(lonely.current_stage(), ReportStage::Ended);
}

#[test]
fn window_thread_create_info_keeps_its_parts() {
    let create_info = WindowBuilder::new()
        .with_title("Ookami")
        .with_size(800, 450)
        .with_color_mode(ColorMode::Light)
        .with_close_behavior(CloseBehavior::Custom)
        .with_visibility(Visibility::Hidden)
        .into_create_info();
    let (priority_sender, priority_receiver) = crossbeam::channel::unbounded();
    let (sender, receiver) = crossbeam::channel::unbounded();
    let info = WindowThreadCreateInfo::new(create_info, priority_sender, sender);
    assert_eq!(info.create_info.title.0, "Ookami");
    assert_eq!(info.create_info.visibility, Visibility::Hidden);
    info.priority_proc_sender.send(WindowMessage::Empty).unwrap();
    info.proc_sender.send(WindowMessage::ExitLoop).unwrap();
    assert_eq!(priority_receiver.recv().unwrap(), WindowMessage::Empty);
    assert_eq!(receiver.recv().unwrap(), WindowMessage::ExitLoop);
}

#[test]
fn debug_messages_logged_by_type_and_severity() {
    assert_eq!(debug_message_label(TYPE_VALIDATION, SEVERITY_ERROR), Some("VULKAN VALIDATION"));
    assert_eq!(debug_message_label(TYPE_VALIDATION, SEVERITY_WARNING), Some("VULKAN VALIDATION"));
    assert_eq!(debug_message_label(TYPE_DEVICE_ADDRESS_BINDING, SEVERITY_ERROR), Some("VULKAN DEVICE_ADDRESS_BINDING"));
    assert_eq!(debug_message_label(TYPE_PERFORMANCE, SEVERITY_WARNING), Some("VULKAN PERFORMANCE"));
    assert_eq!(debug_message_label(TYPE_VALIDATION, 0x10), None);
    assert_eq!(debug_message_label(TYPE_VALIDATION, 0x1), None);
    assert_eq!(debug_message_label(0x1, SEVERITY_ERROR), None);
    assert_eq!(debug_message_label(TYPE_VALIDATION | TYPE_PERFORMANCE, SEVERITY_ERROR), None);
    assert_eq!(debug_message_label(TYPE_VALIDATION, SEVERITY_ERROR | SEVERITY_WARNING), None);
    assert_eq!(REPORTED_SEVERITIES, 0x1100);
    assert_eq!(REPORTED_TYPES, 0xE);
}

#[test]
fn compiled_bytes_cast_to_words() {
    let bytes: Vec<u8> = vec![0x03, 0x02, 0x23, 0x07, 0x00, 0x00, 0x01, 0x00];
    match cast_compiled_words(&bytes) {
        Ok(words) => {
            assert_eq!(words.len(), 2);
            assert_eq!(words[0], u32::from_ne_bytes([0x03, 0x02, 0x23, 0x07]));
            assert_eq!(words[1], u32::from_ne_bytes([0x00, 0x00, 0x01, 0x00]));
        }
        Err(VulkanError::Shader(m)) => assert_eq!(m, "failed to cast bytes"),
        Err(e) => panic!("unexpected error {e:?}"),
    }
    match cast_compiled_words(&vec![1u8, 2, 3]) {
        Err(VulkanError::Shader(m)) => assert_eq!(m, "failed to cast bytes"),
        other => panic!("unexpected result {other:?}"),
    }
}

#[test]
fn window_procedures_swallow_close_requests() {
    assert_eq!(window_proc_reply(WM_CLOSE), ProcReply::Handled);
    assert_eq!(window_proc_reply(WM_DESTROY), ProcReply::DefaultProc);
    assert_eq!(window_proc_reply(WM_MOUSEMOVE), ProcReply::DefaultProc);
}

#[test]
fn subclass_procedure_forwards_and_answers() {
    let (sender, receiver) = crossbeam::channel::unbounded();
    let data = SubclassWindowData::new(sender);
    assert_eq!(data.handle(WindowMessage::State(StateMessage::CloseRequested), WM_CLOSE), ProcReply::Handled);
    assert_eq!(data.handle(WindowMessage::State(StateMessage::Closing), WM_DESTROY), ProcReply::QuitAndHandled);
    assert_eq!(data.handle(WindowMessage::Empty, WM_MOUSEMOVE), ProcReply::DefaultProc);
    assert_eq!(receiver.recv().unwrap(), WindowMessage::State(StateMessage::CloseRequested));
    assert_eq!(receiver.recv().unwrap(), WindowMessage::State(StateMessage::Closing));
    assert_eq!(receiver.recv().unwrap(), WindowMessage::Empty);
    drop(receiver);
    assert_eq!(data.handle(WindowMessage::ExitLoop, WM_USER), ProcReply::DefaultProc);
}

#[test]
fn only_a_ready_message_opens_a_window() {
    assert_eq!(ready_handles(&WindowMessage::State(StateMessage::Ready { hwnd: 5, hinstance: 9 })), Some((5, 9)));
    assert_eq!(ready_handles(&WindowMessage::Empty), None);
    assert_eq!(ready_handles(&WindowMessage::State(StateMessage::Closing)), None);
    assert_eq!(ready_handles(&WindowMessage::ExitLoop), None);
}

fn components(xs: &[&str]) -> Vec<String> {
    xs.iter().map(|s| s.to_string()).collect()
}

#[test]
fn shader_cache_paths() {
    assert_eq!(cached_shader_path(&components(&["assets", "shaders", "triangle.vert"])), Some(components(&["triangle.vert.spv"])));
    assert_eq!(
        cached_shader_path(&components(&["assets", "shaders", "sub", "quad.frag"])),
        Some(components(&["sub", "quad.frag.spv"]))
    );
    assert_eq!(cached_shader_path(&components(&["x", "y.frag"])), Some(components(&["x", "y.frag.spv"])));
    assert_eq!(cached_shader_path(&components(&["default_vertex_shader"])), None);
    assert_eq!(cached_shader_path(&components(&["assets", "shaders"])), None);
    assert_eq!(cached_shader_path(&components(&["assets", "shaders", ".hidden"])), None);
    assert_eq!(cached_shader_path(&components(&["assets", ".."])), None);
    assert_eq!(cached_shader_path(&components(&["a.b", "file"])), None);
    assert_eq!(
        cached_shader_path(&components(&[".", "assets", "shaders", "a.vert"])),
        Some(components(&[".", "assets", "shaders", "a.vert.spv"]))
    );
    assert_eq!(cached_shader_path(&components(&["/", "abs", "a.vert"])), Some(components(&["/", "abs", "a.vert.spv"])));
    assert_eq!(cached_shader_path(&components(&[])), None);
    let split = |p: &str| -> Vec<String> {
        std::path::Path::new(p).components().map(|c| c.as_os_str().to_string_lossy().into_owned()).collect()
    };
    assert_eq!(cached_shader_path(&split("x/y.frag/")), Some(components(&["x", "y.frag.spv"])));
    assert_eq!(cached_shader_path(&split("assets//shaders/t.vert")), Some(components(&["t.vert.spv"])));
    assert_eq!((SHADER_ASSET_DIR, SHADER_CACHE_DIR), ("assets/shaders", "tmp/shaders"));
}

#[test]
fn cached_spirv_decodes_in_its_own_byte_order() {
    let little: Vec<u8> = vec![0x03, 0x02, 0x23, 0x07, 0x00, 0x00, 0x01, 0x00];
    assert_eq!(decode_cached_spirv(&little).unwrap(), vec![SPIRV_MAGIC, 0x0001_0000]);
    let big: Vec<u8> = vec![0x07, 0x23, 0x02, 0x03, 0x00, 0x01, 0x00, 0x00];
    assert_eq!(decode_cached_spirv(&big).unwrap(), vec![SPIRV_MAGIC, 0x0001_0000]);
    match decode_cached_spirv(&vec![0x03, 0x02, 0x23]) {
        Err(VulkanError::Shader(m)) => assert_eq!(m, "input length not divisible by 4"),
        other => panic!("unexpected result {other:?}"),
    }
    match decode_cached_spirv(&vec![1, 2, 3, 4]) {
        Err(VulkanError::Shader(m)) => assert_eq!(m, "input missing SPIR-V magic number"),
        other => panic!("unexpected result {other:?}"),
    }
    match decode_cached_spirv(&Vec::new()) {
        Err(VulkanError::Shader(m)) => assert_eq!(m, "input missing SPIR-V magic number"),
        other => panic!("unexpected result {other:?}"),
    }
}
