use rusty_v8 as v8;
use rusty_v8::ScopeParent;

fn ready_engine() -> v8::V8 {
    let mut engine = v8::V8::new();
    let _first = engine.setup();
    engine
}

fn make_isolate(engine: &v8::V8) -> v8::Isolate<'_> {
    let mut params = v8::Isolate::create_params();
    params.set_array_buffer_allocator(
        v8::array_buffer::Allocator::new_default_allocator(),
    );
    v8::Isolate::new(engine, params)
}

#[test]
fn local_from_raw_null_is_absent() {
    let engine = ready_engine();
    let mut isolate = make_isolate(&engine);
    let mut locker = v8::Locker::new(&mut isolate);
    let mut scope = v8::HandleScope::enter(&mut locker);

    let absent: Option<v8::Local<u32>> = v8::Local::from_raw(&mut scope, 0);
    assert!(absent.is_none());

    let present: Option<v8::Local<u32>> = v8::Local::from_raw(&mut scope, 0x1000);
    assert!(present.is_some());
    assert_eq!(present.unwrap().raw(), 0x1000);
}

#[test]
fn outer_handle_survives_inner_scope() {
    let engine = ready_engine();
    let mut isolate = make_isolate(&engine);
    let mut locker = v8::Locker::new(&mut isolate);
    let mut scope = v8::HandleScope::enter(&mut locker);
    let outer = v8::Local::<u32>::from_raw(&mut scope, 7).unwrap();
    {
        let mut inner = v8::HandleScope::enter(&mut scope);
        let handle = v8::Local::<u32>::from_raw(&mut inner, 9).unwrap();
        assert_eq!(handle.raw(), 9);
        assert_eq!(outer.raw(), 7);
    }
    assert_eq!(outer.raw(), 7);
}

#[test]
fn nesting_preserves_observed_value() {
    let engine = ready_engine();
    let mut isolate = make_isolate(&engine);
    let mut locker = v8::Locker::new(&mut isolate);

    let mut scope_a = v8::HandleScope::enter(&mut locker);
    let in_a = v8::Local::<u32>::from_raw(&mut scope_a, 42).unwrap();
    let mut scope_b = v8::HandleScope::enter(&mut scope_a);
    let in_b = v8::Local::<u32>::from_raw(&mut scope_b, 42).unwrap();
    assert_eq!(in_a.raw(), in_b.raw());
}

#[test]
fn scope_depth_counts_nesting() {
    let engine = ready_engine();
    let mut isolate = make_isolate(&engine);
    let mut locker = v8::Locker::new(&mut isolate);
    assert_eq!(locker.scope_depth(), 0);
    let mut scope = v8::HandleScope::enter(&mut locker);
    assert_eq!(scope.scope_depth(), 1);
    let inner = v8::HandleScope::enter(&mut scope);
    assert_eq!(inner.scope_depth(), 2);
}

#[test]
fn locker_reacquired_after_release() {
    let engine = ready_engine();
    let mut isolate = make_isolate(&engine);
    {
        let mut first = v8::Locker::new(&mut isolate);
        let _scope = v8::HandleScope::enter(&mut first);
    }
    {
        let mut second = v8::Locker::new(&mut isolate);
        let _scope = v8::HandleScope::enter(&mut second);
    }
}

#[test]
fn setup_initializes_once() {
    let mut engine = v8::V8::new();
    assert!(engine.setup());
    assert!(!engine.setup());
    assert!(!engine.setup());
    assert!(!engine.release());
    assert!(!engine.release());
    assert!(engine.release());
}

#[test]
fn dispose_and_shutdown_after_last_release() {
    let mut engine = v8::V8::new();
    let first = engine.setup();
    assert!(first);
    let last = engine.release();
    assert!(last);
    engine.dispose();
    engine.shutdown_platform();
}

#[test]
fn set_flags_keeps_unrecognized_input() {
    let args = vec![
        "prog".to_string(),
        "--verbose".to_string(),
        "-x".to_string(),
    ];
    let r = v8::V8::set_flags_from_command_line(args.clone());
    assert_eq!(r, args);
}

#[test]
fn set_flags_removes_every_recognized_flag() {
    let r = v8::V8::set_flags_from_command_line(vec![
        "prog".to_string(),
        "--log-all".to_string(),
        "--expose-gc".to_string(),
        "--use-strict".to_string(),
        "--harmony".to_string(),
        "--log-colour".to_string(),
    ]);
    assert_eq!(r, vec!["prog".to_string()]);
}

#[test]
fn recognized_flags() {
    assert!(v8::V8::is_recognized_flag(&"--log-colour".to_string()));
    assert!(v8::V8::is_recognized_flag(&"--harmony".to_string()));
    assert!(!v8::V8::is_recognized_flag(&"--log".to_string()));
    assert!(!v8::V8::is_recognized_flag(&"log-colour".to_string()));
    assert!(!v8::V8::is_recognized_flag(&"".to_string()));
}

#[test]
fn set_flags_on_empty_input() {
    let r = v8::V8::set_flags_from_command_line(Vec::new());
    assert_eq!(r, Vec::<String>::new());
}

#[test]
fn string_buffer_outlives_source() {
    let buf = {
        let bytes: Vec<u8> = vec![0u8, 1, 127, 128, 255];
        let view = v8::inspector::StringView::from(bytes.as_slice());
        v8::inspector::StringBuffer::create(&view).unwrap()
    };
    let view = buf.string();
    assert_eq!(view.len(), 5);
    assert_eq!(view.get(0), 0u16);
    assert_eq!(view.get(1), 1u16);
    assert_eq!(view.get(2), 127u16);
    assert_eq!(view.get(3), 128u16);
    assert_eq!(view.get(4), 255u16);
}

#[test]
fn empty_view_and_buffer() {
    let bytes: [u8; 0] = [];
    let view = v8::inspector::StringView::from(&bytes[..]);
    assert_eq!(view.len(), 0);
    let buf = v8::inspector::StringBuffer::create(&view).unwrap();
    assert_eq!(buf.string().len(), 0);
}
