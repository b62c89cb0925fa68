use rusty_v8 as v8;

fn setup() -> v8::V8 {
    let mut engine = v8::V8::new();
    let _first = engine.setup();
    engine
}

#[test]
fn handle_scope_nested() {
    let engine = setup();
    let mut params = v8::Isolate::create_params();
    params.set_array_buffer_allocator(
        v8::array_buffer::Allocator::new_default_allocator(),
    );
    let mut isolate = v8::Isolate::new(&engine, params);
    let mut locker = v8::Locker::new(&mut isolate);
    {
        let mut scope = v8::HandleScope::enter(&mut locker);
        {
            let _scope2 = v8::HandleScope::enter(&mut scope);
        }
    }
}

#[test]
fn get_version() {
    assert!(v8::V8::get_version().len() > 3);
}

#[test]
fn set_flags_from_command_line() {
    let r = v8::V8::set_flags_from_command_line(vec![
        "binaryname".to_string(),
        "--log-colour".to_string(),
        "--should-be-ignored".to_string(),
    ]);
    assert_eq!(
        r,
        vec!["binaryname".to_string(), "--should-be-ignored".to_string()]
    );
}

#[test]
fn inspector_string_view() {
    let chars = b"Hello world!";
    let view = v8::inspector::StringView::from(&chars[..]);

    assert_eq!(chars.len(), view.len());
    let mut i = 0;
    while i < chars.len() {
        assert_eq!(u16::from(chars[i]), view.get(i));
        i += 1;
    }
    assert_eq!(i, view.len());
}

#[test]
fn inspector_string_buffer() {
    let chars = b"Hello Venus!";
    let buf = {
        let src_view = v8::inspector::StringView::from(&chars[..]);
        v8::inspector::StringBuffer::create(&src_view)
    };
    let buf = buf.unwrap();
    let view = buf.string();

    assert_eq!(chars.len(), view.len());
    let mut i = 0;
    while i < chars.len() {
        assert_eq!(u16::from(chars[i]), view.get(i));
        i += 1;
    }
    assert_eq!(i, view.len());
}
