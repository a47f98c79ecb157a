use std::cell::RefCell;
use std::rc::Rc;

use foxy::messaging::{Mailbox, MessagingError, PollFailure};
use foxy::ookami::builder::{AppBuilder, HasSize as AppHasSize};
use foxy::ookami::message::{
    renderer_should_exit, Disconnected, GameLoopMessage, GameMessenger, RenderLoopMessage, RendererMessenger,
};
use foxy::ookami::render_data::RenderData;
use foxy::util::log::{format_filter_slice, level_name, LogLevel, LoggingSession};
use foxy::util::time::Timer as LapTimer;
use foxy::util::timer::Timer;
use foxy::utils::behavior::{CloseBehavior, ColorMode};
use foxy::utils::mailbox::{Mailbox as CrossbeamMailbox, MessagingError as CrossbeamError};
use foxy::utils::primitives::Dimensions;
use foxy::utils::thread_error::ThreadError;
use foxy::vulkan::deletion_queue::DeletionQueue;
use foxy::vulkan::pipeline::{ConfigMissing, FragmentShaderMissing, VertexShaderMissing};
use foxy::vulkan::shader::{to_words, Mesh, ShaderKind, Source, StageInfo, Vertex, VERTEX_DEFAULT_SOURCE};

#[test]
fn filter_slice_switches_off_by_default() {
    assert_eq!(format_filter_slice(&[]), "RUST_LOG=off,");
    assert_eq!(
        format_filter_slice(&[("RUST_LOG", None), ("ookami", Some(LogLevel::Trace))]),
        "RUST_LOG=off,RUST_LOG=off,ookami=trace"
    );
    assert_eq!(
        format_filter_slice(&[("a", Some(LogLevel::Debug)), ("b", Some(LogLevel::Info)), ("c", Some(LogLevel::Warn)), ("d", Some(LogLevel::Error))]),
        "RUST_LOG=off,a=debug,b=info,c=warn,d=error"
    );
    assert_eq!(level_name(None), "off");
}

#[test]
fn logging_session_settings() {
    let (directives, threads, files, lines) = LoggingSession::new().into_parts();
    assert_eq!(directives, "");
    assert_eq!((threads, files, lines), (true, false, false));
    let (directives, threads, files, lines) = LoggingSession::default()
        .with_thread_names(false)
        .with_file_names(true)
        .with_line_numbers(true)
        .with_filter("foxy=trace".to_string())
        .into_parts();
    assert_eq!((threads, files, lines), (false, true, true));
    assert_eq!(directives, "foxy=trace");
    let (filter, ..) = LoggingSession::new().with_filter("foxy=debug".to_string()).into_parts();
    assert_eq!(filter.to_string(), "foxy=debug");
}

#[test]
fn timers_report_laps() {
    let mut t = Timer::new(0);
    assert!(t.is_elapsed());
    let mut never = Timer::new(u64::MAX);
    assert!(!never.is_elapsed());
    let mut lap = LapTimer::new();
    assert!(lap.has_elapsed(0));
    assert!(!lap.has_elapsed(u64::MAX));
    let mut d = LapTimer::default();
    assert!(d.lap_at(10, 10));
    assert!(!d.lap_at(19, 10));
    assert!(d.lap_at(20, 10));
    assert!(!d.lap_at(5, 10));
    assert!(t.lap_at(0));
    let mut fixed = Timer::new(100);
    assert!(!fixed.lap_at(99));
    assert!(fixed.lap_at(100));
    assert!(!fixed.lap_at(150));
    assert!(fixed.lap_at(200));
}

#[test]
fn words_from_spirv_bytes() {
    let bytes = vec![0x03, 0x02, 0x23, 0x07, 1, 0, 0, 0];
    let words = to_words(bytes);
    assert_eq!(words, vec![u32::from_ne_bytes([0x03, 0x02, 0x23, 0x07]), u32::from_ne_bytes([1, 0, 0, 0])]);
    assert!(to_words(vec![]).is_empty());
}

#[test]
fn shader_kinds_and_stages() {
    assert_eq!(Vertex::kind(), ShaderKind::Vertex);
    assert_eq!(Mesh::kind(), ShaderKind::Mesh);
    assert_eq!(Vertex::default_source(), VERTEX_DEFAULT_SOURCE);
    assert!(Vertex::default_source().starts_with("#version 460"));
    assert_eq!(Mesh::default_source(), "");
    assert_eq!(ShaderKind::Fragment.name(), "fragment");
    assert_eq!(ShaderKind::Compute.name(), "compute");
    assert_eq!(ShaderKind::Geometry.name(), "geometry");
}

#[test]
fn source_prefers_cache_then_file_then_default() {
    let fallback = || Source::SPIRV { path: "fallback".to_string(), words: vec![9] };
    let s = Source::new("a.vert".to_string(), |_: &String| Some(vec![1]), |_: &String| Some(vec![2]), fallback);
    assert_eq!(s, Source::SPIRV { path: "a.vert".to_string(), words: vec![1] });
    let s = Source::new("a.vert".to_string(), |_: &String| None, |_: &String| Some(vec![2]), fallback);
    assert_eq!(s, Source::SPIRV { path: "a.vert".to_string(), words: vec![2] });
    let s = Source::new("a.vert".to_string(), |_: &String| None, |_: &String| None, fallback);
    assert_eq!(s, fallback());
}

#[test]
fn default_source_is_cached_or_compiled() {
    let s = Source::read_default::<Vertex, _, _>(|p: &String| {
        assert_eq!(p, "default_vertex_shader");
        Some(vec![5])
    }, |_: &String| panic!("not compiled"));
    assert_eq!(s, Source::SPIRV { path: "default_vertex_shader".to_string(), words: vec![5] });
    let s = Source::read_default::<Mesh, _, _>(|_: &String| None, |src: &String| {
        assert_eq!(src, "");
        vec![1, 0, 0, 0]
    });
    assert_eq!(s, Source::SPIRV { path: "default_mesh_shader".to_string(), words: vec![u32::from_ne_bytes([1, 0, 0, 0])] });
}

#[test]
fn deletion_queue_runs_in_order_then_empties() {
    let log = Rc::new(RefCell::new(Vec::new()));
    let mut q: DeletionQueue<Box<dyn FnMut()>> = DeletionQueue::default();
    for i in 0..3 {
        let log = log.clone();
        q.push(Box::new(move || log.borrow_mut().push(i)));
    }
    q.flush();
    assert_eq!(*log.borrow(), vec![0, 1, 2]);
    q.flush();
    assert_eq!(*log.borrow(), vec![0, 1, 2]);
    let mut plain = DeletionQueue::new();
    plain.push(|| {});
    plain.flush();
}

#[test]
fn std_mailboxes_exchange_messages() {
    let (mut a, mut b) = Mailbox::<u32, &str>::new_entangled_pair();
    a.send(7).unwrap();
    assert_eq!(b.poll().unwrap(), 7);
    assert!(matches!(b.poll(), Err(MessagingError::PollError { error: PollFailure::Empty })));
    b.send("reply").unwrap();
    assert_eq!(a.send_and_wait(8).unwrap(), "reply");
    assert_eq!(b.wait().unwrap(), 8);
    drop(b);
    assert!(matches!(a.send(9), Err(MessagingError::SendError { message: 9 })));
    assert!(matches!(a.wait(), Err(MessagingError::WaitError)));
    assert!(matches!(a.poll(), Err(MessagingError::PollError { error: PollFailure::Disconnected })));
    assert!(matches!(a.send_and_wait(10), Err(MessagingError::SendError { message: 10 })));
}

#[test]
fn std_mailbox_over_given_channels() {
    let (s, r) = std::sync::mpsc::channel::<u8>();
    let mut m = Mailbox::new(s, r);
    m.send(1).unwrap();
    assert_eq!(m.wait().unwrap(), 1);
}

#[test]
fn crossbeam_mailboxes_exchange_messages() {
    let (a, b) = CrossbeamMailbox::<u32, u64>::new_entangled_pair();
    let a2 = a.clone();
    a2.send(3).unwrap();
    assert_eq!(b.recv().unwrap(), 3);
    assert!(matches!(b.try_recv(), Err(CrossbeamError::TryRecvError { error: PollFailure::Empty })));
    b.send(4).unwrap();
    assert_eq!(a.send_and_recv(5).unwrap(), 4);
    assert_eq!(b.try_recv().unwrap(), 5);
    drop(a);
    drop(a2);
    assert!(matches!(b.send(6), Err(CrossbeamError::SendError { message: 6 })));
    assert!(matches!(b.recv(), Err(CrossbeamError::RecvError)));
    assert!(matches!(b.try_recv(), Err(CrossbeamError::TryRecvError { error: PollFailure::Disconnected })));
}

#[test]
fn messengers_between_loops() {
    let (to_game, from_renderer) = std::sync::mpsc::channel();
    let (to_renderer, from_game) = std::sync::mpsc::channel();
    let mut renderer = RendererMessenger::new(to_game, from_game);
    let mut game = GameMessenger::new(to_renderer, from_renderer);
    game.send(GameLoopMessage::RenderData {});
    assert_eq!(renderer.sync_and_recieve(), Ok(GameLoopMessage::RenderData {}));
    assert_eq!(game.send_and_sync(GameLoopMessage::Exit), Ok(RenderLoopMessage::SyncWithGame));
    renderer.send(RenderLoopMessage::SyncWithGame);
    assert_eq!(renderer.send_and_sync(RenderLoopMessage::SyncWithGame), Ok(GameLoopMessage::Exit));
    assert_eq!(game.sync_and_recieve(), Ok(RenderLoopMessage::SyncWithGame));
    drop(game);
    assert_eq!(renderer.sync_and_recieve(), Ok(GameLoopMessage::SyncWithRenderer));
    assert_eq!(renderer.sync_and_recieve(), Err(Disconnected));
    renderer.send(RenderLoopMessage::SyncWithGame);
}

#[test]
fn render_loop_exits_only_on_exit() {
    assert!(renderer_should_exit(&GameLoopMessage::Exit));
    assert!(!renderer_should_exit(&GameLoopMessage::SyncWithRenderer));
    assert!(!renderer_should_exit(&GameLoopMessage::RenderData {}));
    assert_eq!(RenderData::default().debug_string(), "RenderData { .. }\n");
}

#[test]
fn app_builder() {
    let info = AppBuilder::new()
        .with_title("Ookami Renderer")
        .with_size(800, 450)
        .with_dark_mode(ColorMode::Light)
        .with_close_behavior(CloseBehavior::Custom)
        .into_create_info();
    assert_eq!(info.title.0, "Ookami Renderer");
    let AppHasSize { width, height } = info.size;
    assert_eq!((width, height), (800, 450));
    assert_eq!(info.color_mode, ColorMode::Light);
    assert_eq!(info.close_behavior, CloseBehavior::Custom);
    let d = AppBuilder::default().with_size(1, 1).with_title("x").into_create_info();
    assert_eq!(d.color_mode, ColorMode::Dark);
    assert_eq!(d.close_behavior, CloseBehavior::Default);
}

#[test]
fn plain_types() {
    let a = Dimensions { width: 1, height: 5 };
    let b = Dimensions { width: 2, height: 0 };
    assert!(a < b);
    assert_eq!(Dimensions::default(), Dimensions { width: 0, height: 0 });
    let _ = (VertexShaderMissing, FragmentShaderMissing, ConfigMissing);
    let e = ThreadError::Other("x".to_string());
    assert!(matches!(e, ThreadError::Other(ref s) if s == "x"));
    let io = ThreadError::IO(std::io::Error::new(std::io::ErrorKind::Other, "io"));
    assert!(matches!(io, ThreadError::IO(_)));
}
